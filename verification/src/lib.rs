//! The core of a mailing-list backend: who is calling, what they may do,
//! and how an issue reaches the confirmed subscribers.
//!
//! Everything here computes on plain values and is verified against its
//! contract. The datastore, the session cookies, the email transport and the
//! HTTP server stand outside: they hand their answers in and take decisions
//! back.
//!
//! - [`authentication::password`]: credentials from the `Authorization`
//!   header, and their validation against a stored Argon2 hash.
//! - [`authentication::middleware`]: the guard in front of the privileged
//!   handlers.
//! - [`session_state`]: sessions under opaque random handles, and a store in
//!   memory for them.
//! - [`routes`]: what each route decides; above all the fan-out of an issue,
//!   in [`routes::newsletter`].
//! - [`startup`]: the table of routes.
//! - [`domain`], [`configuration`], [`http`], [`headers`], [`secret`],
//!   [`random`], [`text`]: the values that the rest is made of.

pub mod authentication;
pub mod configuration;
pub mod domain;
pub mod headers;
pub mod http;
pub mod random;
pub mod routes;
pub mod secret;
pub mod session_state;
pub mod startup;
pub mod text;
