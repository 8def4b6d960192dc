//! Identity core of an event and ticketing backend: roles, signup
//! transactions, credential hashing and session-token checks.

pub mod text;
pub mod roles;
pub mod error;
pub mod date;
pub mod users;
pub mod credentials;
pub mod requests;
pub mod signup;
pub mod token;
pub mod auth;
