//! The garage surface: jobs, their status ledger and their parts.

pub mod handlers;
pub mod laws;
pub mod ledger;
pub mod loader;
pub mod models;
pub mod orchestrator;
pub mod parts;
pub mod queries;
pub mod repository;
pub mod resolver;
pub mod store;
pub mod tables;
