//! Credentials: password hashes, token claims and the Authorization header.

pub mod middleware;
pub mod password_utils;
