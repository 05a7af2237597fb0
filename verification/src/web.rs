//! What the service answers to a request: the registry that requests
//! read, the check of a request's credentials, and the replies.

pub mod auth;
pub mod routes;
pub mod server;
