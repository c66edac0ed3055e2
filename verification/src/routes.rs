//! What each route decides, apart from the I/O around it.

pub mod admin;
pub mod health_check;
pub mod home;
pub mod login;
pub mod newsletter;
pub mod subscriptions;
pub mod subscriptions_confirm;
