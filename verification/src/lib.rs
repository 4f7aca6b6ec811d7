//! A job runner: spawns commands on behalf of authenticated users, tracks their lifecycle,
//! buffers their output and serves it back over a small RPC surface.
//!
//! This crate holds the decision logic of the runner with its contracts. The transport,
//! process and task plumbing that drives it lives in the companion application.

pub mod grpc;
pub mod pb;
pub mod proc;
