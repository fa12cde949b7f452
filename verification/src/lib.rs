//! Deployment controller for keeping one named container running the latest
//! image that a declarative configuration describes.
//!
//! The crate holds the decision logic only: the CI event validator, the
//! webhook gate, the deployment controller's state machine, and the rendering
//! of container run options. All I/O (the container runtime client, the HTTP
//! server, the file watcher) lives outside and drives the controller by
//! feeding it events and carrying out the actions it returns.

pub mod config;
pub mod controller;
pub mod gitlab;
pub mod handlers;
pub mod runtime;
pub mod text;
