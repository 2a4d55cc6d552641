//! Decision logic of a single-host deployment agent: request authentication,
//! routing, and the response rules of its container, compose, runner and
//! health handlers.

pub mod auth;
pub mod docker;
pub mod docker_compose;
pub mod github_runners;
pub mod health;
pub mod lines;
pub mod parse;
pub mod protocol;
pub mod router;
pub mod text;
