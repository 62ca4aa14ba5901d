//! A capability-scoped sandbox lifecycle for a guest module that draws into
//! a surface owned by a native GUI host.
//!
//! The crate holds the decisions of the host: the single-use handoff of a
//! drawing surface, the stages of one runtime session, the animation pump,
//! and the coordinator that starts, stops and replaces sessions. The host
//! program performs the windowing, threading and sandbox calls and reports
//! what happened; every rule about what follows lives here.

pub mod app;
pub mod browser;
pub mod capability;
pub mod coordinator;
pub mod error;
pub mod markdown;
pub mod pump;
pub mod system;
pub mod wasm;
