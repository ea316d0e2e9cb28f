//! The authorization layer: the claims a session token carries, the token
//! authority that issues and verifies tokens, and the guard that admits a
//! request on the strength of its bearer credential.

pub mod extractor;
pub mod jwt;
pub mod middleware;
