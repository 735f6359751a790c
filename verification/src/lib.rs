//! Sans-I/O core of a small Salesforce client: an OAuth2 password-grant
//! token exchange followed by one authenticated query.
//!
//! The library performs no I/O. It says which request to send next and what
//! to print, and is told what came back.

pub mod auth;
pub mod laws;
pub mod query;
pub mod session;
pub mod text;
