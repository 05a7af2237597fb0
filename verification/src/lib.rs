//! Remote task execution: projects, their tasks and access policies, the
//! engine that runs a project's tasks in order, and the request handling
//! that sits between a caller and that engine.

pub mod domain;
pub mod text;
pub mod web;
