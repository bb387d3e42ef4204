//! Request validation, handler decisions and token claims of a small task and
//! user web service. The HTTP and database layers hand this library plain
//! values and act on what it returns.

pub mod auth;
pub mod error;
pub mod jwt;
pub mod rules;
pub mod task;
pub mod user;
pub mod validate_data;
