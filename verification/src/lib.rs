//! The core of a sandboxed command runner: policy, approvals, launch plans,
//! the bookkeeping of a child's output, the escalation protocol, and the
//! decisions of the endpoints in front of them.
//!
//! The library decides and computes; spawning processes, reading sockets and
//! files, and keeping time are the caller's part.

pub mod apply_patch;
pub mod approval_manager;
pub mod attachments;
pub mod error;
pub mod escalate;
pub mod event_stream;
pub mod exec;
pub mod exec_env;
pub mod handlers;
pub mod ids;
pub mod middleware;
pub mod orchestrator;
pub mod paths;
pub mod policy;
pub mod rollout;
pub mod sandboxing;
pub mod state;
pub mod strmap;
pub mod text;
pub mod tools;
pub mod wire;
