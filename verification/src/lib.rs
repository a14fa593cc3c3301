//! A privileged local service daemon core: an IPC-authenticated supervisor for
//! a single long-running child process, with a bounded in-memory log ring, a
//! replaceable rotating-file-writer configuration, and an HTTP/1.1-shaped
//! request/response surface over a local transport.
//!
//! This library holds the verified logic: the data model, the router and auth
//! gate, the supervisor state machine, the log pipeline decisions, the wire
//! codec, and the permission choices. The unverified shell around it performs
//! the actual I/O (socket transport, process spawn, file writes) and feeds
//! plain values in and out.

use vstd::prelude::*;

pub mod auth;
pub mod client;
pub mod command;
pub mod http;
pub mod json;
pub mod logger;
pub mod manager;
pub mod permission;
pub mod ring;
pub mod server;
pub mod state;
pub mod structure;
pub mod text;

pub use auth::AuthStatus;
pub use client::IpcConfig;
pub use command::{IpcCommand, Method};
pub use manager::CoreManager;
pub use permission::set_ipc_socket_permissions;
pub use structure::{ClashConfig, CoreConfig, Response, WriterConfig};

verus! {

/// The filesystem path of the local IPC endpoint (Unix domain socket).
pub const IPC_PATH: &'static str = "/tmp/verge/clash-verge-service.sock";

/// The shared-secret token expected in the `X-IPC-Magic` request header.
pub const IPC_AUTH_EXPECT: &'static str = r#"Like as the waves make towards the pebbl'd shore, So do our minutes hasten to their end;"#;

/// The daemon's build version, reported by the version endpoint.
pub const VERSION: &'static str = "1.0.0";

} // verus!
