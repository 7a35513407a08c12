//! A todo-list backend: user registration and login with Argon2 password
//! hashes and HS512 JSON Web Tokens, per-user todo items, and the mapping of
//! every failure to an HTTP status and message.
//!
//! This crate holds the decisions and data handling; the HTTP server, the
//! database and the configuration loading live in the accompanying binary.

pub mod error;
pub mod validation;
pub mod user;
pub mod password;
pub mod json;
pub mod hex;
pub mod jwt;
pub mod login;
pub mod todo;
pub mod config;
