//! The routes behind the session guard.

pub mod dashboard;
pub mod logout;
