//! What the operations of the library are for, stated of calls: of what goes into
//! them and of what comes out. The statements are about sequences, maps, characters and
//! JSON values; what else they name has a law of its own here.

pub mod cli;
pub mod config;
pub mod diagnostics;
pub mod json;
pub mod jsonrpc;
pub mod mcp_session;
pub mod multiplexer;
pub mod names;
pub mod pool;
pub mod text;
pub mod transport;
