//! What is known of pooled servers, and what is reported of them.

use vstd::prelude::*;

use crate::config::ServerDef;
use crate::control::{ControlRequest, ControlResponse};
use crate::json::{self, Json, JsonView};
use crate::laws::cli::transport_in_use;
use crate::laws::jsonrpc::is_line_under_id;
use crate::laws::multiplexer::{answers, asks, reaches_under_id};
use crate::multiplexer::Routed;
use crate::pool::{self, Pool};
use crate::socket_proxy::SocketProxy;
use crate::types::{McpServerStatus, PoolStatusResponse, ServerStatus};
use crate::upstream::UpstreamSpec;

verus! {

/// A remote server is driven by its URL, and by SSE where that is its transport; any other
/// by its command, with its arguments and its environment.
pub proof fn upstreams_are_driven_as_configured(def: &ServerDef, spec: UpstreamSpec)
    requires
        call_ensures(pool::upstream_spec_from_def, (def,), spec),
    ensures
        match spec {
            UpstreamSpec::Http { url, sse } => def.url@.len() > 0 && url@ == def.url@ && (sse
                <==> transport_in_use(*def) == "sse"@) && (!sse <==> transport_in_use(*def)
                == "http"@),
            UpstreamSpec::Stdio { command, args, env } => def.url@.len() == 0 && command@
                == def.command@ && args@ == def.args@ && env@ == def.env@ && transport_in_use(*def)
                == "stdio"@,
        },
{
    reveal_strlit("sse");
    reveal_strlit("http");
    assert("sse"@.len() == 3 && "http"@.len() == 4);
    crate::laws::cli::effective_transport_is_in_use(*def);
}

/// A server that was never started is stopped, has no socket, no owner, no uptime and no
/// clients.
pub proof fn new_servers_are_stopped(
    name: String,
    path: String,
    spec: UpstreamSpec,
    owned: bool,
    proxy: SocketProxy,
    status: ServerStatus,
    socket: String,
    is_owned: bool,
    now: u64,
    uptime: Option<u64>,
    connections: u32,
    driven: &UpstreamSpec,
)
    requires
        call_ensures(SocketProxy::new, (name, path, spec, owned), proxy),
        call_ensures(SocketProxy::status, (&proxy,), status),
        call_ensures(SocketProxy::socket_path, (&proxy,), socket),
        call_ensures(SocketProxy::is_owned, (&proxy,), is_owned),
        call_ensures(SocketProxy::uptime_seconds, (&proxy, now), uptime),
        call_ensures(SocketProxy::connection_count, (&proxy,), connections),
        call_ensures(SocketProxy::upstream, (&proxy,), driven),
    ensures
        status == ServerStatus::Stopped,
        socket@.len() == 0,
        !is_owned,
        uptime is None,
        connections == 0,
        *driven == spec,
        proxy@.name == name@,
        proxy@.endpoint == path@,
        proxy@.owned == owned,
{
}

/// A server that is started runs, on its socket, without clients, and its uptime counts
/// from then on. One that runs already runs on as it is.
pub proof fn started_servers_run(
    proxy: &mut SocketProxy,
    now: u64,
    started: bool,
    status: ServerStatus,
    socket: String,
    is_owned: bool,
    later: u64,
    uptime: Option<u64>,
    connections: u32,
)
    requires
        call_ensures(SocketProxy::start, (proxy, now), started),
        call_ensures(SocketProxy::status, (&*final(proxy),), status),
        call_ensures(SocketProxy::socket_path, (&*final(proxy),), socket),
        call_ensures(SocketProxy::is_owned, (&*final(proxy),), is_owned),
        call_ensures(SocketProxy::uptime_seconds, (&*final(proxy), later), uptime),
        call_ensures(SocketProxy::connection_count, (&*final(proxy),), connections),
    ensures
        status == ServerStatus::Running,
        socket@ == old(proxy)@.endpoint,
        is_owned == old(proxy)@.owned,
        started <==> old(proxy)@.running_since is None,
        !started ==> final(proxy)@ == old(proxy)@,
        started ==> connections == 0 && final(proxy)@.traffic.pending.dom() == Set::<
            Seq<char>,
        >::empty(),
        started && later >= now ==> uptime == Some((later - now) as u64),
        started && later < now ==> uptime == Some(0u64),
        final(proxy)@.name == old(proxy)@.name,
        final(proxy)@.spec == old(proxy)@.spec,
        final(proxy)@.endpoint == old(proxy)@.endpoint,
        final(proxy)@.owned == old(proxy)@.owned,
{
    if started {
        assert(final(proxy)@.traffic.pending.dom() =~= Set::<Seq<char>>::empty());
    }
}

/// A server that is stopped has no socket and no clients, and can be started again as the
/// server that it was.
pub proof fn stopped_servers_have_no_clients(
    proxy: &mut SocketProxy,
    stopped: bool,
    status: ServerStatus,
    socket: String,
    now: u64,
    uptime: Option<u64>,
    connections: u32,
)
    requires
        call_ensures(SocketProxy::stop, (proxy,), stopped),
        call_ensures(SocketProxy::status, (&*final(proxy),), status),
        call_ensures(SocketProxy::socket_path, (&*final(proxy),), socket),
        call_ensures(SocketProxy::uptime_seconds, (&*final(proxy), now), uptime),
        call_ensures(SocketProxy::connection_count, (&*final(proxy),), connections),
    ensures
        stopped <==> old(proxy)@.running_since is Some,
        status == ServerStatus::Stopped,
        socket@.len() == 0,
        uptime is None,
        connections == 0,
        final(proxy)@.traffic.pending.dom() == Set::<Seq<char>>::empty(),
        final(proxy)@.name == old(proxy)@.name,
        final(proxy)@.spec == old(proxy)@.spec,
        final(proxy)@.endpoint == old(proxy)@.endpoint,
        final(proxy)@.owned == old(proxy)@.owned,
{
    assert(final(proxy)@.traffic.pending.dom() =~= Set::<Seq<char>>::empty());
}

/// A server that is restarted runs as one that was just started: no client and no request
/// of before is left.
pub proof fn restarted_servers_start_afresh(
    proxy: &mut SocketProxy,
    now: u64,
    status: ServerStatus,
    socket: String,
    uptime: Option<u64>,
    connections: u32,
)
    requires
        call_ensures(SocketProxy::restart, (proxy, now), ()),
        call_ensures(SocketProxy::status, (&*final(proxy),), status),
        call_ensures(SocketProxy::socket_path, (&*final(proxy),), socket),
        call_ensures(SocketProxy::uptime_seconds, (&*final(proxy), now), uptime),
        call_ensures(SocketProxy::connection_count, (&*final(proxy),), connections),
    ensures
        status == ServerStatus::Running,
        socket@ == old(proxy)@.endpoint,
        uptime == Some(0u64),
        connections == 0,
        final(proxy)@.traffic.pending.dom() == Set::<Seq<char>>::empty(),
        final(proxy)@.name == old(proxy)@.name,
        final(proxy)@.spec == old(proxy)@.spec,
        final(proxy)@.owned == old(proxy)@.owned,
{
    assert(final(proxy)@.traffic.pending.dom() =~= Set::<Seq<char>>::empty());
}

/// Clients come to a server that runs, and to no other; who comes and who leaves changes
/// nothing but the clients.
pub proof fn clients_come_to_running_servers(
    joined: &mut SocketProxy,
    client: &str,
    connected: bool,
    left: &mut SocketProxy,
    gone: &str,
    count: u32,
)
    requires
        call_ensures(SocketProxy::connect, (joined, client), connected),
        call_ensures(SocketProxy::disconnect, (left, gone), ()),
        call_ensures(SocketProxy::connection_count, (&*final(joined),), count),
    ensures
        connected <==> old(joined)@.running_since is Some,
        connected ==> final(joined)@.traffic.clients.dom() == old(joined)@.traffic.clients.dom().insert(client@),
        !connected ==> final(joined)@ == old(joined)@,
        final(joined)@.running_since == old(joined)@.running_since,
        final(joined)@.endpoint == old(joined)@.endpoint,
        final(joined)@.name == old(joined)@.name,
        final(joined)@.spec == old(joined)@.spec,
        final(joined)@.owned == old(joined)@.owned,
        final(joined)@.traffic.pending == old(joined)@.traffic.pending,
        final(joined)@.traffic.next_id == old(joined)@.traffic.next_id,
        final(joined)@.traffic.last_active == old(joined)@.traffic.last_active,
        forall|other: Seq<char>| #[trigger]
            old(joined)@.traffic.clients.dom().contains(other) && other != client@ ==> final(joined)@.traffic.clients[other] == old(joined)@.traffic.clients[other],
        final(joined)@.traffic.clients.dom().len() <= u32::MAX ==> count == final(joined)@.traffic.clients.dom().len(),
        final(joined)@.traffic.clients.dom().len() > u32::MAX ==> count == u32::MAX,
        final(left)@.traffic.clients.dom() == old(left)@.traffic.clients.dom().remove(gone@),
        final(left)@.running_since == old(left)@.running_since,
        final(left)@.endpoint == old(left)@.endpoint,
        final(left)@.name == old(left)@.name,
        final(left)@.spec == old(left)@.spec,
        final(left)@.owned == old(left)@.owned,
{
    if connected {
        assert(final(joined)@.traffic.clients.dom() =~= old(joined)@.traffic.clients.dom().insert(
            client@,
        ));
    }
    assert(final(left)@.traffic.clients.dom() =~= old(left)@.traffic.clients.dom().remove(gone@));
}

/// A pooled server brings each answer back to the client that asked, under the id that the
/// client gave, and changes requests and answers in nothing but their id.
pub proof fn pooled_servers_bring_answers_back(
    sending: &mut SocketProxy,
    client: &str,
    line: &str,
    at: std::time::Instant,
    forwarded: Option<String>,
    routing: &mut SocketProxy,
    reply_line: &str,
    routed: Option<Routed>,
)
    requires
        call_ensures(SocketProxy::forward, (sending, client, line, at), forwarded),
        old(sending)@.traffic.clients.dom().contains(client@),
        json::json_parsed(line@) is Some,
        asks(json::json_parsed(line@)->0),
        *old(routing) == *final(sending),
        call_ensures(SocketProxy::route, (routing, reply_line), routed),
        json::json_parsed(reply_line@) is Some,
        answers(json::json_parsed(reply_line@)->0),
        json::json_parsed(reply_line@)->0->Object_0["id"@] == JsonView::Int(
            old(sending)@.traffic.next_id as int,
        ),
    ensures
        forwarded is Some,
        is_line_under_id(
            forwarded->0@,
            json::json_parsed(line@)->0,
            JsonView::Int(old(sending)@.traffic.next_id as int),
        ),
        reaches_under_id(
            routed,
            client@,
            json::json_parsed(reply_line@)->0,
            json::json_parsed(line@)->0->Object_0["id"@],
        ),
        final(routing)@.running_since == old(sending)@.running_since,
        final(routing)@.endpoint == old(sending)@.endpoint,
        final(routing)@.name == old(sending)@.name,
        final(routing)@.spec == old(sending)@.spec,
        final(routing)@.owned == old(sending)@.owned,
{
    let request = json::json_parsed(line@)->0;
    let reply = json::json_parsed(reply_line@)->0;
    let own_id = request->Object_0["id"@];
    let pool_id = JsonView::Int(old(sending)@.traffic.next_id as int);
    crate::laws::multiplexer::under_id_differs_in_id_only(request, pool_id);
    crate::laws::multiplexer::under_id_differs_in_id_only(reply, own_id);
}

/// A pooled server forwards and routes every line as its clients and its upstream mean it,
/// and nothing else of it changes by that.
pub proof fn pooled_servers_only_pass_messages_on(
    sending: &mut SocketProxy,
    client: &str,
    line: &str,
    at: std::time::Instant,
    forwarded: Option<String>,
    message: JsonView,
    routing: &mut SocketProxy,
    reply_line: &str,
    routed: Option<Routed>,
    reply: JsonView,
)
    requires
        call_ensures(SocketProxy::forward, (sending, client, line, at), forwarded),
        json::json_parsed(line@) == Some(message),
        call_ensures(SocketProxy::route, (routing, reply_line), routed),
        json::json_parsed(reply_line@) == Some(reply),
    ensures
        final(sending)@.traffic == old(sending)@.traffic.forwarded(client@, message, at),
        crate::multiplexer::carries(forwarded, old(sending)@.traffic, client@, line@, message),
        final(sending)@.running_since == old(sending)@.running_since,
        final(sending)@.endpoint == old(sending)@.endpoint,
        final(sending)@.name == old(sending)@.name,
        final(sending)@.spec == old(sending)@.spec,
        final(sending)@.owned == old(sending)@.owned,
        final(routing)@.traffic == old(routing)@.traffic.answered(reply),
        crate::multiplexer::reaches(routed, old(routing)@.traffic, reply_line@, reply),
        final(routing)@.running_since == old(routing)@.running_since,
        final(routing)@.endpoint == old(routing)@.endpoint,
        final(routing)@.name == old(routing)@.name,
        final(routing)@.spec == old(routing)@.spec,
        final(routing)@.owned == old(routing)@.owned,
{
}

/// A pooled server passes nothing on that is not JSON, and is not changed by it.
pub proof fn pooled_servers_pass_no_noise_on(
    sending: &mut SocketProxy,
    client: &str,
    line: &str,
    at: std::time::Instant,
    forwarded: Option<String>,
    routing: &mut SocketProxy,
    reply_line: &str,
    routed: Option<Routed>,
)
    requires
        call_ensures(SocketProxy::forward, (sending, client, line, at), forwarded),
        json::json_parsed(line@) is None,
        call_ensures(SocketProxy::route, (routing, reply_line), routed),
        json::json_parsed(reply_line@) is None,
    ensures
        forwarded is None,
        final(sending)@ == old(sending)@,
        routed is None,
        final(routing)@ == old(routing)@,
{
}

/// A client that leaves a pooled server is owed nothing there any more; what others are
/// owed stays.
pub proof fn leaving_a_pooled_server_leaves_others_alone(
    proxy: &mut SocketProxy,
    gone: &str,
    key: Seq<char>,
)
    requires
        call_ensures(SocketProxy::disconnect, (proxy, gone), ()),
    ensures
        final(proxy)@.traffic.pending.dom().contains(key) <==> old(proxy)@.traffic.pending.dom().contains(key) && old(proxy)@.traffic.pending[key].client != gone@,
        final(proxy)@.traffic.pending.dom().contains(key) ==> final(proxy)@.traffic.pending[key]
            == old(proxy)@.traffic.pending[key],
        final(proxy)@.traffic.next_id == old(proxy)@.traffic.next_id,
{
}

/// A server that is started is in the registry, runs, and has the socket that was given.
/// One that is there already is left alone, and so are all others.
pub proof fn starting_adds_one_server(
    registry: &mut Pool,
    name: &str,
    path: &str,
    spec: UpstreamSpec,
    now: u64,
    started: bool,
    running: bool,
    socket: Option<String>,
)
    requires
        call_ensures(Pool::start, (registry, name, path, spec, now), started),
        call_ensures(Pool::is_running, (&*final(registry), name), running),
        call_ensures(Pool::socket_path, (&*final(registry), name), socket),
    ensures
        started <==> !old(registry)@.dom().contains(name@),
        final(registry)@.dom() == old(registry)@.dom().insert(name@),
        forall|other: Seq<char>| #[trigger]
            old(registry)@.dom().contains(other) ==> final(registry)@[other] == old(registry)@[other],
        started ==> running && (socket matches Some(bound) && bound@ == path@),
        started ==> {
            let state = final(registry)@[name@];
            &&& state.name == name@
            &&& state.endpoint == path@
            &&& state.spec == spec
            &&& state.owned
            &&& state.running_since == Some(now)
            &&& state.traffic.clients.dom() == Set::<Seq<char>>::empty()
            &&& state.traffic.pending.dom() == Set::<Seq<char>>::empty()
        },
{
    assert(final(registry)@.dom() =~= old(registry)@.dom().insert(name@));
    if started {
        let traffic = final(registry)@[name@].traffic;
        assert(traffic.clients.dom() =~= Set::<Seq<char>>::empty());
        assert(traffic.pending.dom() =~= Set::<Seq<char>>::empty());
    }
}

/// A socket that was found is taken over where somebody listens on it and no server of
/// that name is known; it is then another process's. Nothing else changes.
pub proof fn adopting_takes_live_sockets_only(
    registry: &mut Pool,
    name: &str,
    path: &str,
    spec: UpstreamSpec,
    alive: bool,
    now: u64,
    adopted: bool,
    running: bool,
    socket: Option<String>,
)
    requires
        call_ensures(Pool::adopt, (registry, name, path, spec, alive, now), adopted),
        call_ensures(Pool::is_running, (&*final(registry), name), running),
        call_ensures(Pool::socket_path, (&*final(registry), name), socket),
    ensures
        adopted <==> alive && !old(registry)@.dom().contains(name@),
        !adopted ==> final(registry)@ == old(registry)@,
        adopted ==> running && (socket matches Some(bound) && bound@ == path@) && !final(registry)@[name@].owned && final(registry)@[name@].spec == spec && final(registry)@[name@].running_since == Some(now) && final(registry)@[name@].name == name@,
        forall|other: Seq<char>| #[trigger]
            old(registry)@.dom().contains(other) ==> final(registry)@.dom().contains(other)
                && final(registry)@[other] == old(registry)@[other],
        adopted ==> final(registry)@.dom() == old(registry)@.dom().insert(name@),
        adopted ==> final(registry)@[name@].traffic.clients.dom() == Set::<Seq<char>>::empty()
            && final(registry)@[name@].traffic.pending.dom() == Set::<Seq<char>>::empty(),
{
    if adopted {
        let traffic = final(registry)@[name@].traffic;
        assert(traffic.clients.dom() =~= Set::<Seq<char>>::empty());
        assert(traffic.pending.dom() =~= Set::<Seq<char>>::empty());
        assert(final(registry)@.dom() =~= old(registry)@.dom().insert(name@));
    }
}

/// A server that is stopped is no longer in the registry and does not run; all others are
/// as before.
pub proof fn stopping_takes_out_one_server(
    registry: &mut Pool,
    name: &str,
    stopped: bool,
    running: bool,
    socket: Option<String>,
)
    requires
        call_ensures(Pool::stop_server, (registry, name), stopped),
        call_ensures(Pool::is_running, (&*final(registry), name), running),
        call_ensures(Pool::socket_path, (&*final(registry), name), socket),
    ensures
        stopped <==> old(registry)@.dom().contains(name@),
        !running,
        socket is None,
        final(registry)@.dom() == old(registry)@.dom().remove(name@),
        forall|other: Seq<char>| #[trigger]
            old(registry)@.dom().contains(other) && other != name@ ==> final(registry)@[other]
                == old(registry)@[other],
{
    assert(final(registry)@.dom() =~= old(registry)@.dom().remove(name@));
}

/// A server that is restarted runs from now on, without clients, on its own socket; all
/// others are as before, and a server that is not known is not restarted.
pub proof fn restarting_touches_one_server(
    registry: &mut Pool,
    name: &str,
    now: u64,
    restarted: bool,
    running: bool,
)
    requires
        call_ensures(Pool::restart, (registry, name, now), restarted),
        call_ensures(Pool::is_running, (&*final(registry), name), running),
    ensures
        restarted <==> old(registry)@.dom().contains(name@),
        final(registry)@.dom() == old(registry)@.dom(),
        restarted ==> running && {
            let before = old(registry)@[name@];
            let after = final(registry)@[name@];
            &&& after.running_since == Some(now)
            &&& after.endpoint == before.endpoint
            &&& after.spec == before.spec
            &&& after.owned == before.owned
            &&& after.name == before.name
            &&& after.traffic.clients.dom() == Set::<Seq<char>>::empty()
            &&& after.traffic.pending.dom() == Set::<Seq<char>>::empty()
        },
        forall|other: Seq<char>| #[trigger]
            old(registry)@.dom().contains(other) && other != name@ ==> final(registry)@[other]
                == old(registry)@[other],
{
    assert(final(registry)@.dom() =~= old(registry)@.dom());
    if restarted {
        let traffic = final(registry)@[name@].traffic;
        assert(traffic.clients.dom() =~= Set::<Seq<char>>::empty());
        assert(traffic.pending.dom() =~= Set::<Seq<char>>::empty());
    }
}

/// A new registry is empty, and so is one after a shutdown.
pub proof fn nothing_runs_before_or_after(
    fresh: Pool,
    registry: &mut Pool,
    name: &str,
    before: bool,
    after: bool,
)
    requires
        call_ensures(Pool::new, (), fresh),
        call_ensures(Pool::is_running, (&fresh, name), before),
        call_ensures(Pool::shutdown, (registry,), ()),
        call_ensures(Pool::is_running, (&*final(registry), name), after),
    ensures
        !before,
        !after,
        fresh@.dom() == Set::<Seq<char>>::empty(),
        final(registry)@.dom() == Set::<Seq<char>>::empty(),
{
    assert(fresh@.dom() =~= Set::<Seq<char>>::empty());
    assert(final(registry)@.dom() =~= Set::<Seq<char>>::empty());
}

/// A server runs where it is known and was started, and a known server has the socket
/// that it is bound to.
pub proof fn running_is_known_and_started(
    registry: &Pool,
    name: &str,
    running: bool,
    socket: Option<String>,
)
    requires
        call_ensures(Pool::is_running, (registry, name), running),
        call_ensures(Pool::socket_path, (registry, name), socket),
    ensures
        running <==> registry@.dom().contains(name@) && registry@[name@].running_since is Some,
        socket is Some <==> registry@.dom().contains(name@),
        socket matches Some(path) ==> path@ == (if running {
            registry@[name@].endpoint
        } else {
            Seq::empty()
        }),
{
}

/// The report has one entry for each server of the registry, in the order of names, and
/// each entry says what is known of its own server.
pub proof fn reports_say_what_is_known(registry: &Pool, now: u64, status: PoolStatusResponse, i: int)
    requires
        call_ensures(Pool::get_status, (registry, now), status),
        0 <= i < status.servers@.len(),
    ensures
        status.server_count == registry@.dom().len(),
        status.servers@.len() == registry@.dom().len(),
        forall|j: int|
            0 <= j < i ==> crate::text::text_less(
                #[trigger] status.servers@[j].name@,
                status.servers@[i].name@,
            ),
        ({
            let entry = status.servers@[i];
            let known = registry@[entry.name@];
            &&& registry@.dom().contains(entry.name@)
            &&& entry.status == ServerStatus::Running <==> known.running_since is Some
            &&& entry.status == ServerStatus::Stopped <==> known.running_since is None
            &&& known.running_since is Some ==> entry.socket_path@ == known.endpoint
            &&& known.running_since is None ==> entry.socket_path@.len() == 0
            &&& entry.uptime_seconds is Some <==> known.running_since is Some
            &&& entry.uptime_seconds matches Some(seconds) ==> seconds == (if now
                >= known.running_since->0 {
                now - known.running_since->0
            } else {
                0
            })
            &&& known.traffic.clients.dom().len() <= u32::MAX ==> entry.connection_count
                == known.traffic.clients.dom().len()
            &&& entry.owned <==> known.owned && known.running_since is Some
            &&& entry.transport@ == (match known.spec {
                UpstreamSpec::Stdio { .. } => "stdio"@,
                UpstreamSpec::Http { sse, .. } => if sse {
                    "sse"@
                } else {
                    "http"@
                },
            })
        }),
{
}

/// Whether `fields` are those of the report on one server.
pub open spec fn reports_server(fields: Map<Seq<char>, JsonView>, entry: McpServerStatus) -> bool {
    &&& forall|name: Seq<char>| #[trigger]
        fields.dom().contains(name) <==> name == "name"@ || name == "status"@ || name
            == "socket_path"@ || name == "uptime_seconds"@ || name == "connection_count"@ || name
            == "owned"@ || name == "transport"@
    &&& fields["name"@] == JsonView::Str(entry.name@)
    &&& fields["status"@] == JsonView::Str(
        match entry.status {
            ServerStatus::Stopped => "stopped"@,
            ServerStatus::Starting => "starting"@,
            ServerStatus::Running => "running"@,
        },
    )
    &&& fields["socket_path"@] == JsonView::Str(entry.socket_path@)
    &&& fields["uptime_seconds"@] == (match entry.uptime_seconds {
        Some(seconds) => JsonView::Int(seconds as int),
        None => JsonView::Null,
    })
    &&& fields["connection_count"@] == JsonView::Int(entry.connection_count as int)
    &&& fields["owned"@] == JsonView::Bool(entry.owned)
    &&& fields["transport"@] == JsonView::Str(entry.transport@)
}

proof fn server_view_reports_server(entry: McpServerStatus)
    ensures
        crate::types::server_view(entry) is Object,
        reports_server(crate::types::server_view(entry)->Object_0, entry),
{
    reveal_strlit("name");
    reveal_strlit("status");
    reveal_strlit("socket_path");
    reveal_strlit("uptime_seconds");
    reveal_strlit("connection_count");
    reveal_strlit("owned");
    reveal_strlit("transport");
    assert("name"@.len() == 4 && "status"@.len() == 6 && "socket_path"@.len() == 11
        && "uptime_seconds"@.len() == 14 && "connection_count"@.len() == 16 && "owned"@.len() == 5
        && "transport"@.len() == 9);
    let fields = crate::types::server_view(entry)->Object_0;
    assert(fields["name"@] == JsonView::Str(entry.name@));
    assert(fields["socket_path"@] == JsonView::Str(entry.socket_path@));
    assert(fields["connection_count"@] == JsonView::Int(entry.connection_count as int));
    assert(fields["owned"@] == JsonView::Bool(entry.owned));
    assert(fields["transport"@] == JsonView::Str(entry.transport@));
}

/// A report has in JSON the count and, for each server in its order, all that is reported
/// of it.
pub proof fn reports_are_whole_in_json(status: &PoolStatusResponse, value: Json, i: int)
    requires
        call_ensures(PoolStatusResponse::to_json, (status,), value),
        0 <= i < status.servers@.len(),
    ensures
        value@ is Object,
        forall|name: Seq<char>| #[trigger]
            value@->Object_0.dom().contains(name) <==> name == "server_count"@ || name
                == "servers"@,
        value@->Object_0["server_count"@] == JsonView::Int(status.server_count as int),
        value@->Object_0["servers"@] matches JsonView::Array(servers) && servers.len()
            == status.servers@.len() && (servers[i] matches JsonView::Object(fields)
            && reports_server(fields, status.servers@[i])),
{
    reveal_strlit("server_count");
    reveal_strlit("servers");
    assert("server_count"@.len() == 12 && "servers"@.len() == 7);
    server_view_reports_server(status.servers@[i]);
}

/// One server's report has in JSON all that it says.
pub proof fn server_reports_are_whole_in_json(entry: &McpServerStatus, value: Json)
    requires
        call_ensures(McpServerStatus::to_json, (entry,), value),
    ensures
        value@ matches JsonView::Object(fields) && reports_server(fields, *entry),
{
    server_view_reports_server(*entry);
}

/// Each status has its word.
pub proof fn statuses_have_words(status: &ServerStatus, word: &'static str)
    requires
        call_ensures(ServerStatus::word, (status,), word),
    ensures
        status == ServerStatus::Running ==> word@ == "running"@,
        status == ServerStatus::Starting ==> word@ == "starting"@,
        status == ServerStatus::Stopped ==> word@ == "stopped"@,
{
}

/// A reply says whether the request was carried out, and carries what it was made of.
pub proof fn replies_carry_what_they_are_made_of(
    done: ControlResponse,
    message: &str,
    failed: ControlResponse,
    value: Json,
    answered: ControlResponse,
)
    requires
        call_ensures(ControlResponse::ok, (), done),
        call_ensures(ControlResponse::err, (message,), failed),
        call_ensures(ControlResponse::data, (value,), answered),
    ensures
        done.ok && done.error is None && done.data is None,
        !failed.ok && (failed.error matches Some(words) && words@ == message@) && failed.data is None,
        answered.ok && answered.error is None && answered.data == Some(value),
{
}

/// A failure is what the reply says it is, and `unknown error` where it says nothing.
pub proof fn failures_are_told_in_the_daemons_words(
    response: &ControlResponse,
    message: Option<String>,
)
    requires
        call_ensures(ControlResponse::failure_message, (response,), message),
    ensures
        message is None <==> response.ok,
        message matches Some(words) ==> words@ == (match response.error {
            Some(told) => told@,
            None => "unknown error"@,
        }),
{
}

/// A report by default is that on no server.
pub proof fn no_servers_are_reported_by_default(status: PoolStatusResponse)
    requires
        call_ensures(<PoolStatusResponse as Default>::default, (), status),
    ensures
        status.server_count == 0,
        status.servers@.len() == 0,
{
}

/// A copy of a server's report says the same.
pub proof fn copies_of_reports_say_the_same(entry: &McpServerStatus, copy: McpServerStatus)
    requires
        call_ensures(<McpServerStatus as Clone>::clone, (entry,), copy),
    ensures
        copy.name@ == entry.name@,
        copy.status == entry.status,
        copy.socket_path@ == entry.socket_path@,
        copy.uptime_seconds == entry.uptime_seconds,
        copy.connection_count == entry.connection_count,
        copy.owned == entry.owned,
        copy.transport@ == entry.transport@,
{
}

/// Copies hold the same.
pub proof fn copies_of_replies_and_requests_hold_the_same(
    request: &ControlRequest,
    request_copy: ControlRequest,
    response: &ControlResponse,
    response_copy: ControlResponse,
    status: &PoolStatusResponse,
    status_copy: PoolStatusResponse,
    spec: &UpstreamSpec,
    spec_copy: UpstreamSpec,
)
    requires
        call_ensures(<ControlRequest as Clone>::clone, (request,), request_copy),
        call_ensures(<ControlResponse as Clone>::clone, (response,), response_copy),
        call_ensures(<PoolStatusResponse as Clone>::clone, (status,), status_copy),
        call_ensures(<UpstreamSpec as Clone>::clone, (spec,), spec_copy),
    ensures
        request_copy == *request,
        response_copy.ok == response.ok,
        response_copy.error == response.error,
        json::held(response_copy.data) == json::held(response.data),
        status_copy.server_count == status.server_count,
        status_copy.servers@ == status.servers@,
        match (*spec, spec_copy) {
            (
                UpstreamSpec::Stdio { command, args, env },
                UpstreamSpec::Stdio { command: c, args: a, env: e },
            ) => command@ == c@ && args@ == a@ && env@ == e@,
            (UpstreamSpec::Http { url, sse }, UpstreamSpec::Http { url: u, sse: s }) => url@ == u@
                && sse == s,
            _ => false,
        },
{
}

} // verus!
