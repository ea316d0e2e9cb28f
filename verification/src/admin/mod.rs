//! The admin surface: the accounts of the system's administrators and
//! their login.

pub mod handlers;
pub mod models;
pub mod repository;
