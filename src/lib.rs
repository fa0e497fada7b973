//! Client-side logic for authenticating against a remote graph-execution
//! server: building the token endpoint from user input, deciding what an
//! HTTP exchange means, and extracting the session token.

pub mod endpoint;
pub mod auth;
pub mod laws;
