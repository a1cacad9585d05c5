//! The registry of pooled servers.

use vstd::prelude::*;

use crate::config::{copy_env, copy_strings, ServerDef};
use crate::multiplexer::Traffic;
use crate::names::{self, NameMap};
use crate::socket_proxy::{ProxyState, SocketProxy};
use crate::text;
use crate::types::{McpServerStatus, PoolStatusResponse, ServerStatus};
use crate::upstream::UpstreamSpec;

verus! {

/// The registry of pooled servers: one `SocketProxy` for each.
#[derive(Debug)]
pub struct Pool {
    proxies: NameMap<SocketProxy>,
}

/// What is known of each server in a registry.
pub open spec fn proxy_states(proxies: Map<Seq<char>, SocketProxy>) -> Map<Seq<char>, ProxyState> {
    proxies.map_values(|proxy: SocketProxy| proxy@)
}

impl View for Pool {
    type V = Map<Seq<char>, ProxyState>;

    closed spec fn view(&self) -> Map<Seq<char>, ProxyState> {
        proxy_states(self.proxies@)
    }
}

/// A server that is running since the time `now`; `owned` says whether its socket
/// is one of this process.
pub open spec fn newly_running(
    name: Seq<char>,
    endpoint: Seq<char>,
    spec: UpstreamSpec,
    owned: bool,
    now: u64,
) -> ProxyState {
    ProxyState {
        name,
        endpoint,
        spec,
        owned,
        running_since: Some(now),
        traffic: Traffic::idle(),
    }
}

/// The name of the transport by which an upstream is driven.
pub open spec fn transport_name(spec: UpstreamSpec) -> Seq<char> {
    match spec {
        UpstreamSpec::Stdio { .. } => "stdio"@,
        UpstreamSpec::Http { sse, .. } => if sse {
            "sse"@
        } else {
            "http"@
        },
    }
}

/// Whether `report` is the report on a server at the time `now`.
pub open spec fn reports(report: McpServerStatus, name: Seq<char>, state: ProxyState, now: u64) -> bool {
    &&& report.name@ == name
    &&& report.status == state.status()
    &&& report.socket_path@ == state.bound_endpoint()
    &&& report.uptime_seconds == state.uptime(now)
    &&& report.connection_count == state.connections()
    &&& report.owned == (state.owned && state.running_since is Some)
    &&& report.transport@ == transport_name(state.spec)
}

fn name_of_transport(spec: &UpstreamSpec) -> (name: &'static str)
    ensures
        name@ == transport_name(*spec),
{
    match spec {
        UpstreamSpec::Stdio { .. } => "stdio",
        UpstreamSpec::Http { sse, .. } => if *sse {
            "sse"
        } else {
            "http"
        },
    }
}

impl Pool {
    /// A registry without servers.
    pub fn new() -> (pool: Pool)
        ensures
            pool@ == Map::<Seq<char>, ProxyState>::empty(),
    {
        let pool = Pool { proxies: NameMap::new() };
        proof {
            assert(pool@ =~= Map::<Seq<char>, ProxyState>::empty());
        }
        pool
    }

    /// Whether the server `name` runs.
    pub fn is_running(&self, name: &str) -> (running: bool)
        ensures
            running == (self@.dom().contains(name@) && self@[name@].status()
                == ServerStatus::Running),
    {
        match self.proxies.get(name) {
            Some(proxy) => proxy.status() == ServerStatus::Running,
            None => false,
        }
    }

    /// The path of the socket of the server `name`; `None` where there is no such
    /// server.
    pub fn socket_path(&self, name: &str) -> (path: Option<String>)
        ensures
            match path {
                Some(found) => self@.dom().contains(name@) && found@
                    == self@[name@].bound_endpoint(),
                None => !self@.dom().contains(name@),
            },
    {
        match self.proxies.get(name) {
            Some(proxy) => Some(proxy.socket_path()),
            None => None,
        }
    }

    /// Puts in a server that is running since the time `now`.
    fn put_in(&mut self, name: &str, socket_path: &str, spec: UpstreamSpec, owned: bool, now: u64)
        ensures
            final(self)@ == old(self)@.insert(
                name@,
                newly_running(name@, socket_path@, spec, owned, now),
            ),
    {
        let ghost before = self.proxies@;
        let mut proxy = SocketProxy::new(name.to_owned(), socket_path.to_owned(), spec, owned);
        proxy.start(now);
        self.proxies.insert(name.to_owned(), proxy);
        proof {
            assert(proxy_states(before.insert(name@, proxy)) =~= proxy_states(before).insert(
                name@,
                proxy@,
            ));
        }
    }

    /// Adds the server `name`, started at the time `now` on the socket
    /// `socket_path`, and says whether it did. A server that is there already is
    /// left as it is.
    pub fn start(&mut self, name: &str, socket_path: &str, spec: UpstreamSpec, now: u64) -> (started:
        bool)
        ensures
            started == !old(self)@.dom().contains(name@),
            final(self)@ == (if started {
                old(self)@.insert(name@, newly_running(name@, socket_path@, spec, true, now))
            } else {
                old(self)@
            }),
    {
        if self.proxies.contains_key(name) {
            return false;
        }
        self.put_in(name, socket_path, spec, true, now);
        true
    }

    /// Adds the server `name`, whose socket `socket_path` was found at the time `now`
    /// and belongs to another process, and says whether it did. Only a socket that
    /// somebody listens on is adopted; a server that is there already is left as it
    /// is.
    pub fn adopt(
        &mut self,
        name: &str,
        socket_path: &str,
        spec: UpstreamSpec,
        alive: bool,
        now: u64,
    ) -> (adopted: bool)
        ensures
            adopted == (alive && !old(self)@.dom().contains(name@)),
            final(self)@ == (if adopted {
                old(self)@.insert(name@, newly_running(name@, socket_path@, spec, false, now))
            } else {
                old(self)@
            }),
    {
        if !alive || self.proxies.contains_key(name) {
            return false;
        }
        self.put_in(name, socket_path, spec, false, now);
        true
    }

    /// Takes the server `name` out, and says whether it was there.
    pub fn stop_server(&mut self, name: &str) -> (stopped: bool)
        ensures
            stopped == old(self)@.dom().contains(name@),
            final(self)@ == old(self)@.remove(name@),
    {
        let ghost before = self.proxies@;
        let removed = self.proxies.remove(name);
        proof {
            assert(proxy_states(before.remove(name@)) =~= proxy_states(before).remove(name@));
        }
        removed.is_some()
    }

    /// Notes that the server `name` was stopped and started again at the time
    /// `now`, and says whether it was there.
    pub fn restart(&mut self, name: &str, now: u64) -> (restarted: bool)
        ensures
            restarted == old(self)@.dom().contains(name@),
            final(self)@ == (if restarted {
                old(self)@.insert(name@, old(self)@[name@].stopped().started(now))
            } else {
                old(self)@
            }),
    {
        let ghost before = self.proxies@;
        match self.proxies.remove(name) {
            Some(mut proxy) => {
                proxy.restart(now);
                self.proxies.insert(name.to_owned(), proxy);
                proof {
                    assert(proxy_states(before.remove(name@).insert(name@, proxy)) =~= proxy_states(
                        before,
                    ).insert(name@, proxy@));
                }
                true
            },
            None => {
                proof {
                    assert(before.remove(name@) =~= before);
                }
                false
            },
        }
    }

    /// Takes every server out.
    pub fn shutdown(&mut self)
        ensures
            final(self)@ == Map::<Seq<char>, ProxyState>::empty(),
    {
        self.proxies = NameMap::new();
        proof {
            assert(self@ =~= Map::<Seq<char>, ProxyState>::empty());
        }
    }

    /// The report on all servers at the time `now`, in the order of their names.
    pub fn get_status(&self, now: u64) -> (status: PoolStatusResponse)
        ensures
            status.server_count == self@.dom().len(),
            status.servers@.len() == self@.dom().len(),
            forall|i: int, j: int|
                0 <= i < j < status.servers@.len() ==> text::text_less(
                    #[trigger] status.servers@[i].name@,
                    #[trigger] status.servers@[j].name@,
                ),
            forall|i: int|
                0 <= i < status.servers@.len() ==> {
                    let report = #[trigger] status.servers@[i];
                    self@.dom().contains(report.name@) && reports(
                        report,
                        report.name@,
                        self@[report.name@],
                        now,
                    )
                },
    {
        let mut servers: Vec<McpServerStatus> = Vec::new();
        let count = self.proxies.len();
        let ghost entries = self.proxies.entry_seq();
        let mut i: usize = 0;
        while i < count
            invariant
                i <= count,
                entries == self.proxies.entry_seq(),
                count == entries.len(),
                servers@.len() == i,
                forall|j: int|
                    0 <= j < i ==> reports(
                        #[trigger] servers@[j],
                        entries[j].0,
                        entries[j].1@,
                        now,
                    ),
            decreases count - i,
        {
            let proxy = self.proxies.value_at(i);
            servers.push(
                McpServerStatus {
                    name: self.proxies.name_at(i).to_owned(),
                    status: proxy.status(),
                    socket_path: proxy.socket_path(),
                    uptime_seconds: proxy.uptime_seconds(now),
                    connection_count: proxy.connection_count(),
                    owned: proxy.is_owned(),
                    transport: name_of_transport(proxy.upstream()).to_owned(),
                },
            );
            i = i + 1;
        }
        proof {
            assert forall|j: int| 0 <= j < servers@.len() implies {
                let report = #[trigger] servers@[j];
                self@.dom().contains(report.name@) && reports(
                    report,
                    report.name@,
                    self@[report.name@],
                    now,
                )
            } by {
                names::map_of_entry(entries, j);
            }
            assert(self@.dom() =~= self.proxies@.dom());
        }
        PoolStatusResponse { server_count: count, servers }
    }
}

/// Whether `spec` drives the upstream of the server that `def` defines: a remote
/// server by its URL, any other by its command.
pub open spec fn drives(spec: UpstreamSpec, def: ServerDef) -> bool {
    if def.remote() {
        spec matches UpstreamSpec::Http { url, sse } && url == def.url && sse == def.names_sse()
    } else {
        spec matches UpstreamSpec::Stdio { command, args, env } && command == def.command && args@
            == def.args@ && env@ == def.env@
    }
}

/// How the upstream of a configured server is driven.
pub fn upstream_spec_from_def(def: &ServerDef) -> (spec: UpstreamSpec)
    ensures
        drives(spec, *def),
{
    if def.is_remote() {
        UpstreamSpec::Http { url: def.url.clone(), sse: def.is_sse() }
    } else {
        UpstreamSpec::Stdio {
            command: def.command.clone(),
            args: copy_strings(&def.args),
            env: copy_env(&def.env),
        }
    }
}

/// The upstream of a configured server is driven by the transport that is listed
/// for the server.
pub proof fn upstream_follows_listed_transport(def: ServerDef, spec: UpstreamSpec)
    requires
        drives(spec, def),
    ensures
        transport_name(spec) == def.effective_transport(),
{
}

} // verus!
