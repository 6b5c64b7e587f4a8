//! Verified core of a task-management service with two-factor login:
//! the decisions that the HTTP handlers make between their storage calls.
pub mod text;
pub mod time;
pub mod error;
pub mod models;
pub mod crypto;
pub mod ids;
pub mod cache;
pub mod auth;
pub mod login;
pub mod two_factor;
pub mod tasks;
pub mod seed;
