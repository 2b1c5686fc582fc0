//! A small web-service scaffold: a build hook that compiles a bundled
//! frontend, and a service that answers one fixed JSON endpoint and serves
//! everything else from the frontend's static output directory.
//!
//! This crate holds the decisions of both parts: the hello reply, the
//! routing table and the build hook's plan and error policy.
pub mod build_hook;
pub mod hello;
pub mod service;

pub use build_hook::{build_plan, command_outcome, rerun_directive, BuildError, BuildPlan};
pub use hello::{hello, HelloWorld, IM_A_TEAPOT};
pub use service::{route, Route, DEFAULT_BIND_ADDRESS, HELLO_METHOD, HELLO_PATH, STATIC_DIR};
