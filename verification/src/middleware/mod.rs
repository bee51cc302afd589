//! Request authorization.

pub mod jwt;
