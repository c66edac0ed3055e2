//! Who is calling: credentials from a header, their validation against the
//! stored hash, and the guard in front of the privileged routes.

pub mod middleware;
pub mod password;
