//! The project execution domain: credentials and access policy, the
//! project and task model, settings, and the execution engine.

pub mod auth;
pub mod project;
pub mod runtime;
pub mod settings;
