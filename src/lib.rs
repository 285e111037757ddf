//! Watches a single source file and re-runs it on every change, either on the
//! host or inside a container. This crate holds the decisions: which runtime a
//! file needs, what to spawn, how a container run is assembled, how a session
//! reacts to change notifications. The caller performs the I/O.

pub mod text;
pub mod templates;
pub mod file_type;
pub mod path;
pub mod docker;
pub mod local;
pub mod orchestrator;
pub mod session;
pub mod cli;
