//! A secure-session I/O driver: the decisions that move a TLS engine from a
//! fresh connection to a completed handshake over a blocking byte stream, and
//! the plaintext read/write adapter that follows.
pub mod driver;
pub mod drain;
pub mod config;
pub mod session;
