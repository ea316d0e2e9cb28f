//! Service-record tracking for garages: a transactional job-lifecycle engine
//! over an in-memory relational store, and the token-based authorization
//! layer that guards it.

pub mod admin;
pub mod auth;
pub mod clock;
pub mod config;
pub mod error;
pub mod garage;
pub mod ident;
pub mod text;
