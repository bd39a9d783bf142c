//! Core of a read-only accessor for recent machine signal readings: the
//! settings it starts from, the readings it serves, and the protocol by which
//! one request borrows a pooled database connection, queries and answers.

pub mod config;
pub mod fetch;
pub mod guarantees;
pub mod health;
pub mod pool;
pub mod signal;
