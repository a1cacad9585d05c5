//! How a pooled server's single upstream is driven.

use vstd::prelude::*;

use crate::config::{copy_env, copy_strings};
use crate::names::NameMap;

verus! {

/// How a pooled server's single upstream is driven.
#[derive(Debug)]
pub enum UpstreamSpec {
    /// A local command: one child process, spoken to over its stdin and stdout.
    Stdio { command: String, args: Vec<String>, env: NameMap<String> },
    /// A remote HTTP or SSE endpoint: one persistent client.
    Http { url: String, sse: bool },
}

/// Whether two upstreams are driven in the same way.
pub open spec fn same_spec(a: UpstreamSpec, b: UpstreamSpec) -> bool {
    match (a, b) {
        (
            UpstreamSpec::Stdio { command, args, env },
            UpstreamSpec::Stdio { command: other_command, args: other_args, env: other_env },
        ) => command == other_command && args@ == other_args@ && env@ == other_env@,
        (
            UpstreamSpec::Http { url, sse },
            UpstreamSpec::Http { url: other_url, sse: other_sse },
        ) => url == other_url && sse == other_sse,
        _ => false,
    }
}

impl Clone for UpstreamSpec {
    fn clone(&self) -> (copy: UpstreamSpec)
        ensures
            same_spec(copy, *self),
    {
        match self {
            UpstreamSpec::Stdio { command, args, env } => UpstreamSpec::Stdio {
                command: command.clone(),
                args: copy_strings(args),
                env: copy_env(env),
            },
            UpstreamSpec::Http { url, sse } => UpstreamSpec::Http { url: url.clone(), sse: *sse },
        }
    }
}

} // verus!
