//! The decisions and the texts of a pool of MCP servers: one upstream per
//! configured server, shared by many agent clients over a local socket.
//!
//! Everything here computes on plain values. Sockets, processes, files and the
//! environment belong to the program around this library.

pub mod cli;
pub mod config;
pub mod control;
pub mod diagnostics;
pub mod json;
pub mod jsonrpc;
pub mod laws;
pub mod mcp_session;
pub mod multiplexer;
pub mod names;
pub mod pending;
pub mod pool;
pub mod proxy;
pub mod socket_proxy;
pub mod text;
pub mod transport;
pub mod types;
pub mod upstream;
