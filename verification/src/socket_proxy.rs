//! One pooled server: a single upstream, shared by the clients of its socket.

use vstd::prelude::*;

use crate::multiplexer::{self, Multiplexer, Routed, Traffic};
use crate::types::ServerStatus;
use crate::upstream::UpstreamSpec;

verus! {

/// One pooled server: a single upstream, shared by the clients that connect over
/// the bound local socket. Requests are forwarded to the upstream and responses
/// routed back by JSON-RPC id; messages without an id go to every client.
///
/// The program around the library spawns the upstream and binds the socket; this
/// is what is known of them.
#[derive(Debug)]
pub struct SocketProxy {
    name: String,
    endpoint: String,
    spec: UpstreamSpec,
    owned: bool,
    running_since: Option<u64>,
    multiplexer: Multiplexer,
}

/// What is known of a pooled server.
pub struct ProxyState {
    pub name: Seq<char>,
    pub endpoint: Seq<char>,
    pub spec: UpstreamSpec,
    pub owned: bool,
    /// When it was started, in seconds; `None` while it is stopped.
    pub running_since: Option<u64>,
    pub traffic: Traffic,
}

impl ProxyState {
    /// Started at the time `now`; a running server runs on.
    pub open spec fn started(self, now: u64) -> ProxyState {
        if self.running_since is Some {
            self
        } else {
            ProxyState { running_since: Some(now), traffic: Traffic::idle(), ..self }
        }
    }

    /// Stopped: nobody is connected any more, and nothing is owed.
    pub open spec fn stopped(self) -> ProxyState {
        ProxyState { running_since: None, traffic: Traffic::idle(), ..self }
    }

    /// With other traffic.
    pub open spec fn with_traffic(self, traffic: Traffic) -> ProxyState {
        ProxyState { traffic, ..self }
    }

    /// Whether the server runs.
    pub open spec fn status(self) -> ServerStatus {
        if self.running_since is Some {
            ServerStatus::Running
        } else {
            ServerStatus::Stopped
        }
    }

    /// The bound socket; the empty path while there is none.
    pub open spec fn bound_endpoint(self) -> Seq<char> {
        if self.running_since is Some {
            self.endpoint
        } else {
            Seq::empty()
        }
    }

    /// For how many seconds the server has been running at the time `now`.
    pub open spec fn uptime(self, now: u64) -> Option<u64> {
        match self.running_since {
            Some(since) => if now >= since {
                Some((now - since) as u64)
            } else {
                Some(0)
            },
            None => None,
        }
    }

    /// The number of connections, as far as a `u32` counts.
    pub open spec fn connections(self) -> int {
        if self.traffic.clients.dom().len() <= u32::MAX {
            self.traffic.clients.dom().len() as int
        } else {
            u32::MAX as int
        }
    }
}

impl View for SocketProxy {
    type V = ProxyState;

    closed spec fn view(&self) -> ProxyState {
        ProxyState {
            name: self.name@,
            endpoint: self.endpoint@,
            spec: self.spec,
            owned: self.owned,
            running_since: self.running_since,
            traffic: self.multiplexer@,
        }
    }
}

impl SocketProxy {
    /// A pooled server that has not been started.
    pub fn new(name: String, socket_path: String, spec: UpstreamSpec, owned: bool) -> (proxy:
        SocketProxy)
        ensures
            proxy@ == (ProxyState {
                name: name@,
                endpoint: socket_path@,
                spec,
                owned,
                running_since: None,
                traffic: Traffic::idle(),
            }),
    {
        SocketProxy {
            name,
            endpoint: socket_path,
            spec,
            owned,
            running_since: None,
            multiplexer: Multiplexer::new(),
        }
    }

    /// Notes that upstream and socket are up at the time `now`, and says whether
    /// that is new.
    pub fn start(&mut self, now: u64) -> (started: bool)
        ensures
            final(self)@ == old(self)@.started(now),
            started == (old(self)@.running_since is None),
    {
        if self.running_since.is_some() {
            return false;
        }
        self.running_since = Some(now);
        self.multiplexer = Multiplexer::new();
        true
    }

    /// Notes that upstream and socket are gone, and says whether that is new.
    pub fn stop(&mut self) -> (stopped: bool)
        ensures
            final(self)@ == old(self)@.stopped(),
            stopped == (old(self)@.running_since is Some),
    {
        let stopped = self.running_since.is_some();
        self.running_since = None;
        self.multiplexer = Multiplexer::new();
        stopped
    }

    /// Notes that the server was stopped and started again at the time `now`.
    pub fn restart(&mut self, now: u64)
        ensures
            final(self)@ == old(self)@.stopped().started(now),
    {
        self.stop();
        self.start(now);
    }

    /// Whether the server runs.
    pub fn status(&self) -> (status: ServerStatus)
        ensures
            status == self@.status(),
    {
        if self.running_since.is_some() {
            ServerStatus::Running
        } else {
            ServerStatus::Stopped
        }
    }

    /// How the upstream is driven.
    pub fn upstream(&self) -> (spec: &UpstreamSpec)
        ensures
            *spec == self@.spec,
    {
        &self.spec
    }

    /// The path of the bound socket; empty while there is none.
    pub fn socket_path(&self) -> (path: String)
        ensures
            path@ == self@.bound_endpoint(),
    {
        if self.running_since.is_some() {
            self.endpoint.clone()
        } else {
            String::new()
        }
    }

    /// Whether this process holds the bound socket.
    pub fn is_owned(&self) -> (owned: bool)
        ensures
            owned == (self@.owned && self@.running_since is Some),
    {
        self.owned && self.running_since.is_some()
    }

    /// For how many seconds the server has been running at the time `now`.
    pub fn uptime_seconds(&self, now: u64) -> (uptime: Option<u64>)
        ensures
            uptime == self@.uptime(now),
    {
        match self.running_since {
            Some(since) => if now >= since {
                Some(now - since)
            } else {
                Some(0)
            },
            None => None,
        }
    }

    /// The number of connected clients.
    pub fn connection_count(&self) -> (count: u32)
        ensures
            count == self@.connections(),
    {
        let clients = self.multiplexer.client_count();
        if clients <= u32::MAX as usize {
            clients as u32
        } else {
            u32::MAX
        }
    }

    /// Takes in a client, where the server runs, and says whether it did.
    pub fn connect(&mut self, client_id: &str) -> (connected: bool)
        ensures
            connected == (old(self)@.running_since is Some),
            final(self)@ == (if connected {
                old(self)@.with_traffic(old(self)@.traffic.connected(client_id@))
            } else {
                old(self)@
            }),
    {
        if self.running_since.is_some() {
            self.multiplexer.connect(client_id);
            true
        } else {
            false
        }
    }

    /// Lets a client go.
    pub fn disconnect(&mut self, client_id: &str)
        ensures
            final(self)@ == old(self)@.with_traffic(old(self)@.traffic.disconnected(client_id@)),
    {
        self.multiplexer.disconnect(client_id);
    }

    /// What goes to the upstream when `client_id` has sent `line`.
    pub fn forward(
        &mut self,
        client_id: &str,
        line: &str,
        at: std::time::Instant,
    ) -> (forwarded: Option<String>)
        ensures
            multiplexer::is_forwarded(
                forwarded,
                old(self)@.traffic,
                final(self)@.traffic,
                client_id@,
                line@,
                at,
            ),
            final(self)@ == old(self)@.with_traffic(final(self)@.traffic),
    {
        self.multiplexer.forward(client_id, line, at)
    }

    /// Who gets the upstream's `line`, and as what line.
    pub fn route(&mut self, line: &str) -> (routed: Option<Routed>)
        ensures
            multiplexer::is_routed(routed, old(self)@.traffic, final(self)@.traffic, line@),
            final(self)@ == old(self)@.with_traffic(final(self)@.traffic),
    {
        self.multiplexer.route(line)
    }
}

/// A server that is stopped and started again is as one that was just started:
/// no client and no request of before is left.
pub proof fn restarting_starts_afresh(state: ProxyState, now: u64)
    ensures
        state.stopped().started(now).traffic == Traffic::idle(),
        state.stopped().started(now).uptime(now) == Some(0u64),
        state.stopped().started(now).status() == ServerStatus::Running,
        state.stopped().status() == ServerStatus::Stopped,
{
}

} // verus!
