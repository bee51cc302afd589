//! REST API service library: configuration, credential checks, token issue and
//! validation, and the mapping of API errors to responses.

pub mod config;
pub mod errors;
pub mod handlers;
pub mod middleware;
pub mod models;
pub mod password;
pub mod token;
