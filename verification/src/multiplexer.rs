//! Many clients on one upstream: which message goes where.
//!
//! Requests are forwarded under ids of the pool's own, and responses go back to the
//! client that asked, under the id it asked with. An error that has lost its id goes
//! to the client that has waited longest. Messages without an id go to every client,
//! and requests of the upstream to one that can carry them out.

use vstd::prelude::*;

use crate::json::{self, Json, JsonView};
use crate::jsonrpc::{self, with_id, IdAllocator};
use crate::mcp_session::{
    self, build_error_response, cacheable_method, is_empty_id_error, parse_client_capabilities,
    CacheableMethod, ClientCapabilities, PendingRequestInfo,
};
use crate::names::{self, NameMap};
use crate::pending::{self, OpenRequests, OwedMap};
use crate::text::{self, same_text, starts_with};

verus! {

/// The clients on an upstream with what they can do for it, the one that sent a
/// message last, the requests that the upstream owes an answer to, and the id of the
/// next request.
pub struct Traffic {
    pub clients: Map<Seq<char>, ClientCapabilities>,
    pub last_active: Option<Seq<char>>,
    pub pending: OwedMap,
    pub next_id: u64,
}

/// Where a message of the upstream goes.
pub enum Delivery {
    /// To one client, as this message.
    ToClient { client: Seq<char>, message: JsonView },
    /// To one client, as it came: the upstream asks it for something.
    Callback { client: Seq<char> },
    /// Nowhere: the upstream is answered.
    Refused { answer: JsonView },
    /// To every client, as it came.
    ToAll,
    /// To nobody.
    ToNobody,
}

/// The id of a message; an id of `null` is none.
pub open spec fn id_of(message: JsonView) -> Option<JsonView> {
    match message.get("id"@) {
        Some(JsonView::Null) => None,
        other => other,
    }
}

/// Whether a message is a request: an object with a method and an id.
pub open spec fn is_request(message: JsonView) -> bool {
    message.get("method"@) is Some && id_of(message) is Some
}

/// Whether a message is a response: an object with an id and without a method.
pub open spec fn is_response(message: JsonView) -> bool {
    message.get("method"@) is None && id_of(message) is Some
}

/// The message with another id.
pub open spec fn under_id(message: JsonView, id: JsonView) -> JsonView {
    match message {
        JsonView::Object(fields) => JsonView::Object(fields.insert("id"@, id)),
        other => other,
    }
}

/// The name of a method, where a message has one.
pub open spec fn method_of(message: JsonView) -> Option<Seq<char>> {
    match message.get("method"@) {
        Some(method) => method.as_str(),
        None => None,
    }
}

/// The error code for a request of the upstream that no client can carry out.
pub const NO_CAPABLE_CLIENT_CODE: i64 = -32001;

/// Whether a client with these capabilities can carry out a request of the upstream.
pub open spec fn can_take(capabilities: ClientCapabilities, method: Seq<char>) -> bool {
    if "sampling/"@.is_prefix_of(method) {
        capabilities.sampling
    } else if "roots/"@.is_prefix_of(method) {
        capabilities.roots
    } else {
        true
    }
}

/// Whether `name` is the first of several in their order.
pub open spec fn is_first(names: Set<Seq<char>>, name: Seq<char>) -> bool {
    &&& names.contains(name)
    &&& forall|other: Seq<char>| #[trigger]
        names.contains(other) ==> other == name || text::text_less(name, other)
}

/// The first of several names in their order.
pub open spec fn first_of(names: Set<Seq<char>>) -> Seq<char> {
    choose|name: Seq<char>| is_first(names, name)
}

/// The answer to a request of the upstream that no client can carry out.
pub open spec fn refusal(id: JsonView, method: Seq<char>) -> JsonView {
    mcp_session::error_response(
        id,
        NO_CAPABLE_CLIENT_CODE as int,
        "no capable downstream client connected for "@ + method,
    )
}

impl Traffic {
    /// Nobody is connected, and nothing is owed.
    pub open spec fn idle() -> Traffic {
        Traffic {
            clients: Map::empty(),
            last_active: None,
            pending: Map::empty(),
            next_id: 1,
        }
    }

    /// After `client` connected: it has not said yet what it can do.
    pub open spec fn connected(self, client: Seq<char>) -> Traffic {
        Traffic {
            clients: self.clients.insert(
                client,
                (ClientCapabilities { sampling: false, roots: false }),
            ),
            ..self
        }
    }

    /// After `client` left: it is owed nothing any more.
    pub open spec fn disconnected(self, client: Seq<char>) -> Traffic {
        Traffic {
            clients: self.clients.remove(client),
            last_active: if self.last_active == Some(client) {
                None
            } else {
                self.last_active
            },
            pending: pending::without_client(self.pending, client),
            ..self
        }
    }

    /// With what `client` has said in `message` about itself: an `initialize` request
    /// announces what it can do.
    pub open spec fn noted(self, client: Seq<char>, message: JsonView) -> Traffic {
        Traffic {
            clients: if is_request(message) && method_of(message) == Some("initialize"@) {
                self.clients.insert(client, mcp_session::announced_capabilities(message))
            } else {
                self.clients
            },
            last_active: Some(client),
            ..self
        }
    }

    /// After `client` sent `message` at the time `at`: a request is owed an
    /// answer.
    pub open spec fn forwarded(
        self,
        client: Seq<char>,
        message: JsonView,
        at: std::time::Instant,
    ) -> Traffic {
        if !self.clients.dom().contains(client) || message !is Object {
            self
        } else if is_request(message) {
            let request = pending::Owed {
                pool_id: self.next_id,
                client,
                id: id_of(message)->0,
                method: method_of(message),
                at,
            };
            Traffic {
                pending: self.pending.insert(
                    jsonrpc::key_of(JsonView::Int(self.next_id as int)),
                    request,
                ),
                next_id: jsonrpc::nth_id(self.next_id, 1) as u64,
                ..self.noted(client, message)
            }
        } else {
            self.noted(client, message)
        }
    }

    /// The clients that can carry out a request of the upstream.
    pub open spec fn capable(self, method: Seq<char>) -> Set<Seq<char>> {
        Set::new(
            |client: Seq<char>|
                self.clients.dom().contains(client) && can_take(self.clients[client], method),
        )
    }

    /// The client that a request of the upstream goes to: the one that sent a message
    /// last, where it can carry the request out; else the first that can.
    pub open spec fn callback_client(self, method: Seq<char>) -> Option<Seq<char>> {
        let capable = self.capable(method);
        if self.last_active is Some && capable.contains(self.last_active->0) {
            self.last_active
        } else if exists|client: Seq<char>| capable.contains(client) {
            Some(first_of(capable))
        } else {
            None
        }
    }

    /// The key of the request that a message of the upstream answers: that of the
    /// message's id. An error whose id is the empty string answers the oldest request.
    pub open spec fn answered_key(self, message: JsonView) -> Option<Seq<char>> {
        if mcp_session::has_empty_id_error(message) {
            if exists|key: Seq<char>| self.pending.dom().contains(key) {
                Some(pending::oldest_key(self.pending))
            } else {
                None
            }
        } else if is_response(message) && self.pending.dom().contains(
            jsonrpc::key_of(id_of(message)->0),
        ) {
            Some(jsonrpc::key_of(id_of(message)->0))
        } else {
            None
        }
    }

    /// Where a message of the upstream goes.
    pub open spec fn delivery(self, message: JsonView) -> Delivery {
        if message !is Object {
            Delivery::ToNobody
        } else if id_of(message) is None {
            Delivery::ToAll
        } else if is_request(message) {
            match method_of(message) {
                Some(method) => match self.callback_client(method) {
                    Some(client) => Delivery::Callback { client },
                    None => Delivery::Refused { answer: refusal(id_of(message)->0, method) },
                },
                None => Delivery::ToNobody,
            }
        } else {
            match self.answered_key(message) {
                Some(key) => Delivery::ToClient {
                    client: self.pending[key].client,
                    message: under_id(message, self.pending[key].id),
                },
                None => Delivery::ToNobody,
            }
        }
    }

    /// After the upstream sent `message`: what it answers is owed no more.
    pub open spec fn answered(self, message: JsonView) -> Traffic {
        match self.answered_key(message) {
            Some(key) => Traffic { pending: self.pending.remove(key), ..self },
            None => self,
        }
    }
}

/// Multiplexes the clients of one upstream.
#[derive(Debug)]
pub struct Multiplexer {
    ids: IdAllocator,
    clients: NameMap<ClientCapabilities>,
    last_active: Option<String>,
    pending: OpenRequests,
}

/// A message of the upstream, or the answer to one, with where it goes.
#[derive(Debug)]
pub enum Routed {
    /// The line goes to each of the clients.
    Clients { clients: Vec<String>, line: String },
    /// The line goes back to the upstream.
    Upstream { line: String },
}

impl View for Multiplexer {
    type V = Traffic;

    closed spec fn view(&self) -> Traffic {
        Traffic {
            clients: self.clients@,
            last_active: text::text_of(self.last_active),
            pending: self.pending@,
            next_id: self.ids.next_id(),
        }
    }
}

fn takes(capabilities: &ClientCapabilities, method: &str) -> (able: bool)
    ensures
        able == can_take(*capabilities, method@),
{
    if starts_with(method, "sampling/") {
        capabilities.sampling
    } else if starts_with(method, "roots/") {
        capabilities.roots
    } else {
        true
    }
}

/// The id of a message; an id of `null` is none.
fn own_id(message: &Json) -> (id: Option<Json>)
    ensures
        json::held(id) == id_of(message@),
{
    match message.get("id") {
        Some(id) => if id.is_null() {
            None
        } else {
            Some(id.clone())
        },
        None => None,
    }
}

/// The name of a method, where a message has one.
fn own_method(message: &Json) -> (method: Option<String>)
    ensures
        text::text_of(method) == method_of(message@),
{
    match message.get("method") {
        Some(method) => match method.as_str() {
            Some(name) => Some(name.to_owned()),
            None => None,
        },
        None => None,
    }
}

impl Multiplexer {
    /// A multiplexer without clients.
    pub fn new() -> (multiplexer: Multiplexer)
        ensures
            multiplexer@ == Traffic::idle(),
    {
        Multiplexer {
            ids: IdAllocator::new(),
            clients: NameMap::new(),
            last_active: None,
            pending: OpenRequests::new(),
        }
    }

    /// The number of clients.
    pub fn client_count(&self) -> (count: usize)
        ensures
            count == self@.clients.dom().len(),
    {
        self.clients.len()
    }

    /// Takes in the client `client_id`.
    pub fn connect(&mut self, client_id: &str)
        ensures
            final(self)@ == old(self)@.connected(client_id@),
    {
        self.clients.insert(client_id.to_owned(), ClientCapabilities::default());
    }

    /// Lets the client `client_id` go, with the requests that it waits for.
    pub fn disconnect(&mut self, client_id: &str)
        ensures
            final(self)@ == old(self)@.disconnected(client_id@),
    {
        self.clients.remove(client_id);
        self.pending.close_all_of(client_id);
        let was_active = match &self.last_active {
            Some(active) => same_text(active.as_str(), client_id),
            None => false,
        };
        if was_active {
            self.last_active = None;
        }
    }

    /// What goes to the upstream when `client_id` has sent `line`, which reads as
    /// `message`. Nothing does, where that is no client, or no JSON object.
    pub fn forward_message(
        &mut self,
        client_id: &str,
        line: &str,
        message: Json,
        at: std::time::Instant,
    ) -> (forwarded: Option<String>)
        ensures
            final(self)@ == old(self)@.forwarded(client_id@, message@, at),
            carries(forwarded, old(self)@, client_id@, line@, message@),
    {
        if !self.clients.contains_key(client_id) || !message.is_object() {
            return None;
        }
        let has_method = message.get("method").is_some();
        let method = own_method(&message);
        let id = own_id(&message);
        self.last_active = Some(client_id.to_owned());
        if !has_method || id.is_none() {
            return Some(line.to_owned());
        }
        let initializes = match &method {
            Some(name) => match cacheable_method(name.as_str()) {
                Some(found) => found == CacheableMethod::Initialize,
                None => false,
            },
            None => false,
        };
        if initializes {
            let announced = parse_client_capabilities(&message);
            self.clients.insert(client_id.to_owned(), announced);
        }
        match (id, message) {
            (Some(original_id), Json::Object(fields)) => {
                proof {
                    json::object_view(fields);
                }
                let pool_id = self.ids.allocate();
                let info = PendingRequestInfo {
                    client_id: client_id.to_owned(),
                    original_id,
                    method,
                    inserted_at: at,
                };
                self.pending.open(pool_id, info);
                Some(with_id(fields, Json::Unsigned(pool_id)))
            },
            _ => Some(line.to_owned()),
        }
    }

    /// What goes to the upstream when `client_id` has sent `line`. Nothing does,
    /// where that is no client, or the line is no JSON object.
    pub fn forward(
        &mut self,
        client_id: &str,
        line: &str,
        at: std::time::Instant,
    ) -> (forwarded: Option<String>)
        ensures
            is_forwarded(forwarded, old(self)@, final(self)@, client_id@, line@, at),
    {
        match Json::parse(line) {
            Some(message) => self.forward_message(client_id, line, message, at),
            None => None,
        }
    }

    /// The clients, in the order of their names.
    fn all_clients(&self) -> (clients: Vec<String>)
        ensures
            forall|client: Seq<char>| #[trigger]
                self@.clients.dom().contains(client) <==> exists|i: int|
                    0 <= i < clients@.len() && #[trigger] clients@[i]@ == client,
            clients@.len() == self@.clients.dom().len(),
    {
        let mut clients: Vec<String> = Vec::new();
        let count = self.clients.len();
        let ghost entries = self.clients.entry_seq();
        let mut i: usize = 0;
        while i < count
            invariant
                i <= count,
                count == entries.len(),
                entries == self.clients.entry_seq(),
                clients@.len() == i,
                forall|j: int| 0 <= j < i ==> (#[trigger] clients@[j])@ == entries[j].0,
            decreases count - i,
        {
            clients.push(self.clients.name_at(i).to_owned());
            i = i + 1;
        }
        proof {
            assert forall|client: Seq<char>| #[trigger]
                self@.clients.dom().contains(client) <==> exists|i: int|
                    0 <= i < clients@.len() && #[trigger] clients@[i]@ == client by {
                names::map_of_names(entries, client);
                if self@.clients.dom().contains(client) {
                    let i = choose|i: int| 0 <= i < entries.len() && #[trigger] entries[i].0 == client;
                    assert(clients@[i]@ == client);
                }
                if exists|i: int| 0 <= i < clients@.len() && #[trigger] clients@[i]@ == client {
                    let i = choose|i: int| 0 <= i < clients@.len() && #[trigger] clients@[i]@ == client;
                    assert(entries[i].0 == client);
                }
            }
        }
        clients
    }

    /// The client that a request of the upstream goes to, if there is one.
    fn client_for(&self, method: &str) -> (client: Option<String>)
        ensures
            text::text_of(client) == self@.callback_client(method@),
    {
        let ghost capable = self@.capable(method@);
        if let Some(active) = &self.last_active {
            if let Some(capabilities) = self.clients.get(active.as_str()) {
                if takes(capabilities, method) {
                    return Some(active.clone());
                }
            }
        }
        let count = self.clients.len();
        let ghost entries = self.clients.entry_seq();
        let mut i: usize = 0;
        while i < count
            invariant
                i <= count,
                count == entries.len(),
                entries == self.clients.entry_seq(),
                names::in_order(entries),
                capable == self@.capable(method@),
                !(self@.last_active is Some && capable.contains(self@.last_active->0)),
                forall|j: int| 0 <= j < i ==> !can_take((#[trigger] entries[j]).1, method@),
            decreases count - i,
        {
            if takes(self.clients.value_at(i), method) {
                let found = self.clients.name_at(i).to_owned();
                proof {
                    names::map_of_entry(entries, i as int);
                    assert forall|other: Seq<char>| #[trigger] capable.contains(other) implies other
                        == found@ || text::text_less(found@, other) by {
                        names::map_of_names(entries, other);
                        let j = choose|j: int|
                            0 <= j < entries.len() && #[trigger] entries[j].0 == other;
                        names::map_of_entry(entries, j);
                        assert(can_take(entries[j].1, method@));
                        if j > i {
                            assert(text::text_less(entries[i as int].0, entries[j].0));
                        }
                    }
                    assert(capable.contains(found@));
                    first_is_unique(capable, found@);
                    assert(exists|client: Seq<char>| capable.contains(client));
                    assert(self@.callback_client(method@) == Some(first_of(capable)));
                }
                return Some(found);
            }
            i = i + 1;
        }
        proof {
            assert forall|client: Seq<char>| !capable.contains(client) by {
                if capable.contains(client) {
                    names::map_of_names(entries, client);
                    let j = choose|j: int| 0 <= j < entries.len() && #[trigger] entries[j].0 == client;
                    names::map_of_entry(entries, j);
                    assert(!can_take(entries[j].1, method@));
                }
            }
        }
        None
    }

    /// Who gets the upstream's `line`, which reads as `message`, and as what line.
    pub fn route_message(&mut self, line: &str, message: Json) -> (routed: Option<Routed>)
        ensures
            final(self)@ == old(self)@.answered(message@),
            reaches(routed, old(self)@, line@, message@),
    {
        if !message.is_object() {
            return None;
        }
        let id = match own_id(&message) {
            Some(id) => id,
            None => {
                return Some(
                    Routed::Clients { clients: self.all_clients(), line: line.to_owned() },
                );
            },
        };
        if message.get("method").is_some() {
            return match own_method(&message) {
                Some(method) => Some(self.call_back(line, id, method.as_str())),
                None => None,
            };
        }
        let key = if is_empty_id_error(&message) {
            match self.pending.oldest() {
                Some(key) => {
                    proof {
                        assert(self@.pending.dom().contains(key@));
                    }
                    key
                },
                None => {
                    proof {
                        assert(forall|key: Seq<char>| !self@.pending.dom().contains(key));
                    }
                    return None;
                },
            }
        } else {
            jsonrpc::id_key(&id)
        };
        let ghost before = self@.pending;
        match (self.pending.close(key.as_str()), message) {
            (Some(info), Json::Object(fields)) => {
                proof {
                    json::object_view(fields);
                }
                let mut clients: Vec<String> = Vec::new();
                clients.push(info.client_id);
                Some(Routed::Clients { clients, line: with_id(fields, info.original_id) })
            },
            _ => {
                proof {
                    assert(before.remove(key@) =~= before);
                }
                None
            },
        }
    }

    /// Where a request of the upstream goes, with the line it came on, its id and its
    /// method.
    fn call_back(&self, line: &str, id: Json, method: &str) -> (routed: Routed)
        ensures
            match self@.callback_client(method@) {
                Some(client) => goes_to(routed, client, line@),
                None => answers_upstream(routed, refusal(id@, method@)),
            },
    {
        match self.client_for(method) {
            Some(client) => {
                let mut clients: Vec<String> = Vec::new();
                clients.push(client);
                Routed::Clients { clients, line: line.to_owned() }
            },
            None => {
                let message = "no capable downstream client connected for ".to_owned().concat(method);
                Routed::Upstream {
                    line: build_error_response(id, NO_CAPABLE_CLIENT_CODE, message.as_str()),
                }
            },
        }
    }

    /// Who gets the upstream's `line`, and as what line.
    pub fn route(&mut self, line: &str) -> (routed: Option<Routed>)
        ensures
            is_routed(routed, old(self)@, final(self)@, line@),
    {
        match Json::parse(line) {
            Some(message) => self.route_message(line, message),
            None => None,
        }
    }
}

/// Only one name is the first.
proof fn first_is_unique(names: Set<Seq<char>>, name: Seq<char>)
    requires
        is_first(names, name),
    ensures
        first_of(names) == name,
{
    let chosen = first_of(names);
    assert(is_first(names, chosen));
    if chosen != name {
        text::text_less_transitive(name, chosen, name);
        text::text_less_irreflexive(name);
    }
}

/// Where the client that sent a message last is not asked, the first by name of those
/// that can be asked is.
pub proof fn callback_is_first(traffic: Traffic, method: Seq<char>)
    requires
        traffic.clients.dom().finite(),
        traffic.callback_client(method) is Some,
    ensures
        traffic.callback_client(method) == traffic.last_active || is_first(
            traffic.capable(method),
            traffic.callback_client(method)->0,
        ),
        traffic.capable(method).contains(traffic.callback_client(method)->0),
{
    let capable = traffic.capable(method);
    if exists|client: Seq<char>| capable.contains(client) {
        assert(capable.subset_of(traffic.clients.dom()));
        vstd::set_lib::lemma_set_subset_finite(traffic.clients.dom(), capable);
        if capable.len() == 0 {
            assert(capable =~= Set::empty());
        }
        first_exists(capable);
    }
}

/// Of finitely many names, one is the first.
proof fn first_exists(names: Set<Seq<char>>)
    requires
        names.finite(),
        names.len() > 0,
    ensures
        is_first(names, first_of(names)),
    decreases names.len(),
{
    let some = names.choose();
    let rest = names.remove(some);
    if rest.len() == 0 {
        assert forall|other: Seq<char>| #[trigger] names.contains(other) implies other == some by {
            if other != some {
                assert(rest.contains(other));
            }
        }
        assert(is_first(names, some));
    } else {
        first_exists(rest);
        let least = first_of(rest);
        text::text_less_total(some, least);
        let first = if text::text_less(some, least) {
            some
        } else {
            least
        };
        assert forall|other: Seq<char>| #[trigger] names.contains(other) implies other == first
            || text::text_less(first, other) by {
            if other != some {
                assert(rest.contains(other));
                if first == some && other != least {
                    text::text_less_transitive(some, least, other);
                }
            }
        }
        assert(is_first(names, first));
    }
}

/// Whether the line goes to this client alone.
pub open spec fn goes_to(routed: Routed, client: Seq<char>, line: Seq<char>) -> bool {
    &&& routed matches Routed::Clients { clients, line: sent }
    &&& clients@.len() == 1
    &&& clients@[0]@ == client
    &&& sent@ == line
}

/// Whether the message goes to this client alone.
pub open spec fn brings(routed: Routed, client: Seq<char>, message: JsonView) -> bool {
    &&& routed matches Routed::Clients { clients, line }
    &&& clients@.len() == 1
    &&& clients@[0]@ == client
    &&& json::is_line_of(line@, message)
}

/// Whether the upstream is answered with this message.
pub open spec fn answers_upstream(routed: Routed, answer: JsonView) -> bool {
    routed matches Routed::Upstream { line } && json::is_line_of(line@, answer)
}

/// Whether `forwarded` takes the `line` of `client`, which reads as `message`, to
/// the upstream: a request under the next id of the pool, any other object as it
/// came, and nothing else.
pub open spec fn carries(
    forwarded: Option<String>,
    traffic: Traffic,
    client: Seq<char>,
    line: Seq<char>,
    message: JsonView,
) -> bool {
    if !traffic.clients.dom().contains(client) || message !is Object {
        forwarded is None
    } else if is_request(message) {
        forwarded is Some && json::is_line_of(
            forwarded->0@,
            under_id(message, JsonView::Int(traffic.next_id as int)),
        )
    } else {
        forwarded is Some && forwarded->0@ == line
    }
}

/// Whether `forwarded` is what goes to the upstream for a `line` of `client`.
pub open spec fn is_forwarded(
    forwarded: Option<String>,
    before: Traffic,
    after: Traffic,
    client: Seq<char>,
    line: Seq<char>,
    at: std::time::Instant,
) -> bool {
    match json::json_parsed(line) {
        Some(message) => after == before.forwarded(client, message, at) && carries(
            forwarded,
            before,
            client,
            line,
            message,
        ),
        None => after == before && forwarded is None,
    }
}

/// Whether `routed` is where a `line` of the upstream goes.
pub open spec fn is_routed(
    routed: Option<Routed>,
    before: Traffic,
    after: Traffic,
    line: Seq<char>,
) -> bool {
    match json::json_parsed(line) {
        Some(message) => after == before.answered(message) && reaches(
            routed,
            before,
            line,
            message,
        ),
        None => after == before && routed is None,
    }
}

/// Whether `routed` takes the upstream's `line`, which reads as `message`, to
/// those it is for.
pub open spec fn reaches(
    routed: Option<Routed>,
    traffic: Traffic,
    line: Seq<char>,
    message: JsonView,
) -> bool {
    match traffic.delivery(message) {
        Delivery::ToNobody => routed is None,
        Delivery::ToAll => {
            &&& routed matches Some(Routed::Clients { clients, line: sent })
            &&& sent@ == line
            &&& clients@.len() == traffic.clients.dom().len()
            &&& forall|client: Seq<char>| #[trigger]
                traffic.clients.dom().contains(client) <==> exists|i: int|
                    0 <= i < clients@.len() && #[trigger] clients@[i]@ == client
        },
        Delivery::ToClient { client, message: restored } => routed is Some && brings(
            routed->0,
            client,
            restored,
        ),
        Delivery::Callback { client } => routed is Some && goes_to(routed->0, client, line),
        Delivery::Refused { answer } => routed is Some && answers_upstream(routed->0, answer),
    }
}

/// A step in the life of an upstream.
pub enum Step {
    Connect { client: Seq<char> },
    Disconnect { client: Seq<char> },
    FromClient { client: Seq<char>, message: JsonView, at: std::time::Instant },
    FromUpstream { message: JsonView },
}

impl Traffic {
    /// After one step.
    pub open spec fn after(self, step: Step) -> Traffic {
        match step {
            Step::Connect { client } => self.connected(client),
            Step::Disconnect { client } => self.disconnected(client),
            Step::FromClient { client, message, at } => self.forwarded(client, message, at),
            Step::FromUpstream { message } => self.answered(message),
        }
    }

    /// After several steps.
    pub open spec fn after_all(self, steps: Seq<Step>) -> Traffic
        decreases steps.len(),
    {
        if steps.len() == 0 {
            self
        } else {
            self.after_all(steps.drop_last()).after(steps.last())
        }
    }

    /// Every request that is owed an answer was sent by a client that is still
    /// there.
    pub open spec fn owes_clients_only(self) -> bool {
        forall|key: Seq<char>| #[trigger]
            self.pending.dom().contains(key) ==> self.clients.dom().contains(
                self.pending[key].client,
            )
    }

    /// Every request that is owed an answer was forwarded under an earlier id, and
    /// stands under the key of that id.
    pub open spec fn owes_earlier_ids_only(self) -> bool {
        forall|key: Seq<char>| #[trigger]
            self.pending.dom().contains(key) ==> 0 < self.pending[key].pool_id < self.next_id && key
                == jsonrpc::key_of(JsonView::Int(self.pending[key].pool_id as int))
    }

    /// Whether a step neither answers the request forwarded under `id` nor takes away
    /// the client that sent it.
    pub open spec fn leaves_open(self, step: Step, id: u64, client: Seq<char>) -> bool {
        match step {
            Step::Disconnect { client: gone } => gone != client,
            Step::FromUpstream { message } => self.answered_key(message) != Some(
                jsonrpc::key_of(JsonView::Int(id as int)),
            ),
            _ => true,
        }
    }

    /// Whether none of several steps answers the request forwarded under `id`, or
    /// takes away the client that sent it.
    pub open spec fn all_leave_open(self, steps: Seq<Step>, id: u64, client: Seq<char>) -> bool
        decreases steps.len(),
    {
        steps.len() == 0 || {
            &&& self.all_leave_open(steps.drop_last(), id, client)
            &&& self.after_all(steps.drop_last()).leaves_open(steps.last(), id, client)
        }
    }
}

/// Two ids of the pool have different keys.
pub proof fn pool_id_keys_differ(a: int, b: int)
    requires
        0 <= a,
        0 <= b,
        a != b,
    ensures
        jsonrpc::key_of(JsonView::Int(a)) != jsonrpc::key_of(JsonView::Int(b)),
{
    if jsonrpc::key_of(JsonView::Int(a)) == jsonrpc::key_of(JsonView::Int(b)) {
        text::decimal_is_injective(a as nat, b as nat);
    }
}

/// A forwarded request stays owed to its client, whatever else happens, until it
/// is answered or the client leaves.
proof fn request_stays_open(
    traffic: Traffic,
    client: Seq<char>,
    request: JsonView,
    at: std::time::Instant,
    steps: Seq<Step>,
)
    requires
        traffic.clients.dom().contains(client),
        is_request(request),
        traffic.next_id + steps.len() < u64::MAX,
        traffic.forwarded(client, request, at).all_leave_open(steps, traffic.next_id, client),
    ensures
        ({
            let key = jsonrpc::key_of(JsonView::Int(traffic.next_id as int));
            let later = traffic.forwarded(client, request, at).after_all(steps);
            &&& later.pending.dom().contains(key)
            &&& later.pending[key].client == client
            &&& later.pending[key].id == id_of(request)->0
            &&& traffic.next_id < later.next_id <= traffic.next_id + 1 + steps.len()
        }),
    decreases steps.len(),
{
    if steps.len() > 0 {
        let rest = steps.drop_last();
        request_stays_open(traffic, client, request, at, rest);
        let before = traffic.forwarded(client, request, at).after_all(rest);
        pool_id_keys_differ(traffic.next_id as int, before.next_id as int);
    }
}

/// The response to a forwarded request goes to the client that sent the request,
/// under the id that the client gave it, whatever other clients send, whatever
/// the upstream answers to them, and whoever comes and goes in the meantime.
pub proof fn response_returns_to_its_client(
    traffic: Traffic,
    client: Seq<char>,
    request: JsonView,
    at: std::time::Instant,
    steps: Seq<Step>,
    response: JsonView,
)
    requires
        traffic.clients.dom().contains(client),
        is_request(request),
        traffic.next_id + steps.len() < u64::MAX,
        traffic.forwarded(client, request, at).all_leave_open(steps, traffic.next_id, client),
        is_response(response),
        id_of(response) == Some(JsonView::Int(traffic.next_id as int)),
    ensures
        traffic.forwarded(client, request, at).after_all(steps).delivery(response)
            == (Delivery::ToClient { client, message: under_id(response, id_of(request)->0) }),
{
    request_stays_open(traffic, client, request, at, steps);
}

/// The same, line by line: after `client` has sent the request on `line`, and
/// `steps` have happened, the response on `reply` goes to that client alone, as a
/// line with the client's own id, and nothing is owed for the request any more.
pub proof fn reply_line_returns_to_its_client(
    before: Traffic,
    client: Seq<char>,
    line: Seq<char>,
    at: std::time::Instant,
    forwarded: Option<String>,
    after: Traffic,
    steps: Seq<Step>,
    reply: Seq<char>,
    routed: Option<Routed>,
    end: Traffic,
)
    requires
        before.clients.dom().contains(client),
        json::json_parsed(line) is Some,
        is_request(json::json_parsed(line)->0),
        is_forwarded(forwarded, before, after, client, line, at),
        before.next_id + steps.len() < u64::MAX,
        after.all_leave_open(steps, before.next_id, client),
        json::json_parsed(reply) is Some,
        is_response(json::json_parsed(reply)->0),
        id_of(json::json_parsed(reply)->0) == Some(JsonView::Int(before.next_id as int)),
        is_routed(routed, after.after_all(steps), end, reply),
    ensures
        routed is Some,
        brings(
            routed->0,
            client,
            under_id(json::json_parsed(reply)->0, id_of(json::json_parsed(line)->0)->0),
        ),
        !end.pending.dom().contains(jsonrpc::key_of(JsonView::Int(before.next_id as int))),
{
    let request = json::json_parsed(line)->0;
    let response = json::json_parsed(reply)->0;
    request_stays_open(before, client, request, at, steps);
    response_returns_to_its_client(before, client, request, at, steps, response);
}

/// A request is answered once: the same response, sent again, goes to nobody. (An
/// error that has lost its id answers another request each time.)
pub proof fn requests_are_answered_once(traffic: Traffic, response: JsonView)
    requires
        is_response(response),
        !mcp_session::has_empty_id_error(response),
    ensures
        traffic.answered(response).delivery(response) is ToNobody,
{
}

/// An error whose id is the empty string goes to the client that has waited longest,
/// under that client's own id, and is the answer to its request. Where nothing is
/// owed, it goes to nobody.
pub proof fn errors_without_id_answer_the_oldest(traffic: Traffic, error: JsonView)
    requires
        mcp_session::has_empty_id_error(error),
    ensures
        traffic.pending == OwedMap::empty() ==> traffic.delivery(error) is ToNobody
            && traffic.answered(error) == traffic,
        traffic.pending != OwedMap::empty() ==> {
            let key = pending::oldest_key(traffic.pending);
            &&& pending::is_oldest(traffic.pending, key)
            &&& traffic.delivery(error) == (Delivery::ToClient {
                client: traffic.pending[key].client,
                message: under_id(error, traffic.pending[key].id),
            })
            &&& traffic.answered(error).pending == traffic.pending.remove(key)
        },
{
    if exists|key: Seq<char>| traffic.pending.dom().contains(key) {
        let key = choose|key: Seq<char>| traffic.pending.dom().contains(key);
        pending::oldest_exists(traffic.pending, key);
    } else {
        assert(traffic.pending =~= OwedMap::empty());
    }
}

/// A request of the upstream goes to a client that is there and can carry it out.
/// Where there is none, the upstream is answered with an error, under the id of its
/// request. Nothing that is owed changes.
pub proof fn callbacks_go_to_capable_clients(
    traffic: Traffic,
    message: JsonView,
    method: Seq<char>,
)
    requires
        traffic.clients.dom().finite(),
        is_request(message),
        method_of(message) == Some(method),
    ensures
        match traffic.delivery(message) {
            Delivery::Callback { client } => traffic.clients.dom().contains(client) && can_take(
                traffic.clients[client],
                method,
            ),
            Delivery::Refused { answer } => answer == refusal(id_of(message)->0, method)
                && forall|client: Seq<char>| #[trigger]
                traffic.clients.dom().contains(client) ==> !can_take(
                    traffic.clients[client],
                    method,
                ),
            _ => false,
        },
        traffic.answered(message) == traffic,
{
    let capable = traffic.capable(method);
    if exists|client: Seq<char>| capable.contains(client) {
        assert(capable.subset_of(traffic.clients.dom()));
        vstd::set_lib::lemma_set_subset_finite(traffic.clients.dom(), capable);
        let some = choose|client: Seq<char>| capable.contains(client);
        if capable.len() == 0 {
            assert(capable =~= Set::empty());
        }
        first_exists(capable);
    } else {
        assert forall|client: Seq<char>| #[trigger]
            traffic.clients.dom().contains(client) implies !can_take(
            traffic.clients[client],
            method,
        ) by {
            assert(!capable.contains(client));
        }
    }
}

/// An object without an id goes to every client, and changes nothing.
pub proof fn messages_without_id_go_to_all(traffic: Traffic, message: JsonView)
    requires
        message is Object,
        id_of(message) is None,
    ensures
        traffic.delivery(message) is ToAll,
        traffic.answered(message) == traffic,
{
}

/// Answers are owed only to clients that are there: no response is ever sent to
/// one that has left.
pub proof fn answers_are_owed_to_clients(steps: Seq<Step>)
    ensures
        Traffic::idle().after_all(steps).owes_clients_only(),
    decreases steps.len(),
{
    if steps.len() > 0 {
        answers_are_owed_to_clients(steps.drop_last());
    }
}

/// No two requests are owed an answer under the same id: a request is forwarded
/// under an id that none of the others has, until all ids have been used.
pub proof fn open_requests_have_different_ids(steps: Seq<Step>)
    requires
        steps.len() < u64::MAX - 1,
    ensures
        ({
            let traffic = Traffic::idle().after_all(steps);
            &&& traffic.owes_earlier_ids_only()
            &&& 1 <= traffic.next_id <= 1 + steps.len()
            &&& !traffic.pending.dom().contains(
                jsonrpc::key_of(JsonView::Int(traffic.next_id as int)),
            )
        }),
    decreases steps.len(),
{
    let traffic = Traffic::idle().after_all(steps);
    if steps.len() > 0 {
        open_requests_have_different_ids(steps.drop_last());
    }
    let next = jsonrpc::key_of(JsonView::Int(traffic.next_id as int));
    if traffic.pending.dom().contains(next) {
        pool_id_keys_differ(traffic.pending[next].pool_id as int, traffic.next_id as int);
    }
}

} // verus!
