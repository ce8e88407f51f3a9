//! Business logic of a small authentication service: account creation, password
//! login, and server-side sessions identified by a random token whose SHA-256 hash
//! is what gets stored. Database access, password hashing and the HTTP server are
//! driven from outside this crate; the functions here take what those produced and
//! decide what happens next.
pub mod config;
pub mod errors;
pub mod models;
pub mod services;
pub mod transport;
pub mod utils;
