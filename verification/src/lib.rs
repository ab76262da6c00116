//! Core of a remote execution agent: the handle registry, the request
//! dispatch and the decisions around files and child processes, kept free
//! of any operating-system call so that every rule can be proved.

pub mod agent_error;
pub mod client;
pub mod files;
pub mod metadata;
pub mod process;
pub mod registry;
pub mod server;
pub mod state;
pub mod stream_map;
pub mod types;
pub mod util;
