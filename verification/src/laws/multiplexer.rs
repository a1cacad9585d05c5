//! What multiplexing is for: each client speaks with the upstream as if it were alone.

use vstd::prelude::*;

use crate::json::{self, Json, JsonView};
use crate::jsonrpc;
use crate::laws::jsonrpc::{differs_in_id_only, is_line_under_id};
use crate::multiplexer::{self, Multiplexer, Routed, Traffic};

verus! {

/// Whether a message asks for an answer: an object with a method and an id that is not
/// `null`.
pub open spec fn asks(message: JsonView) -> bool {
    &&& message is Object
    &&& message->Object_0.dom().contains("method"@)
    &&& message->Object_0.dom().contains("id"@)
    &&& message->Object_0["id"@] !is Null
}

/// Whether a message answers: an object without a method, with an id that is not `null`.
pub open spec fn answers(message: JsonView) -> bool {
    &&& message is Object
    &&& !message->Object_0.dom().contains("method"@)
    &&& message->Object_0.dom().contains("id"@)
    &&& message->Object_0["id"@] !is Null
}

/// Whether a message is an error that has lost its id.
pub open spec fn is_lost_error(message: JsonView) -> bool {
    &&& answers(message)
    &&& message->Object_0.dom().contains("error"@)
    &&& message->Object_0["id"@] == JsonView::Str(Seq::empty())
}

/// Whether a line goes to one client alone.
pub open spec fn reaches_only(routed: Option<Routed>, client: Seq<char>, line: Seq<char>) -> bool {
    routed matches Some(Routed::Clients { clients, line: sent }) && clients@.len() == 1
        && clients@[0]@ == client && sent@ == line
}

/// Whether the object `message` goes to one client alone, with `id` as its id and
/// otherwise as it is.
pub open spec fn reaches_under_id(
    routed: Option<Routed>,
    client: Seq<char>,
    message: JsonView,
    id: JsonView,
) -> bool {
    routed matches Some(Routed::Clients { clients, line }) && clients@.len() == 1
        && clients@[0]@ == client && is_line_under_id(line@, message, id)
}

/// What stands for another id in contracts is another id and nothing else.
pub proof fn under_id_differs_in_id_only(message: JsonView, id: JsonView)
    requires
        message is Object,
    ensures
        differs_in_id_only(message, multiplexer::under_id(message, id), id),
{
    let sent = multiplexer::under_id(message, id);
    assert(sent->Object_0.dom() =~= message->Object_0.dom().insert("id"@));
}

proof fn lost_errors_have_empty_ids(message: JsonView)
    ensures
        is_lost_error(message) <==> crate::mcp_session::has_empty_id_error(message),
{
    if crate::mcp_session::has_empty_id_error(message) {
        assert(message->Object_0["id"@]->Str_0 =~= Seq::<char>::empty());
    }
}

/// A request of a client is forwarded under the next id of the pool. Nothing else in it
/// changes, and the client is owed an answer under the id that it gave.
pub proof fn requests_are_forwarded_whole(
    multiplexer: &mut Multiplexer,
    client: &str,
    line: &str,
    message: Json,
    at: std::time::Instant,
    forwarded: Option<String>,
    pool_id: Json,
    key: String,
)
    requires
        call_ensures(
            Multiplexer::forward_message,
            (multiplexer, client, line, message, at),
            forwarded,
        ),
        old(multiplexer)@.clients.dom().contains(client@),
        asks(message@),
        pool_id@ == JsonView::Int(old(multiplexer)@.next_id as int),
        call_ensures(jsonrpc::id_key, (&pool_id,), key),
    ensures
        forwarded is Some,
        is_line_under_id(
            forwarded->0@,
            message@,
            JsonView::Int(old(multiplexer)@.next_id as int),
        ),
        ({
            let before = old(multiplexer)@;
            let after = final(multiplexer)@;
            &&& after.pending.dom() == before.pending.dom().insert(key@)
            &&& after.pending[key@].pool_id == before.next_id
            &&& after.pending[key@].client == client@
            &&& after.pending[key@].id == message@->Object_0["id"@]
            &&& after.pending[key@].at == at
            &&& after.pending[key@].method == (match message@->Object_0["method"@] {
                JsonView::Str(method) => Some(method),
                _ => None,
            })
            &&& forall|other: Seq<char>| #[trigger]
                before.pending.dom().contains(other) && other != key@ ==> after.pending[other]
                    == before.pending[other]
            &&& before.next_id < u64::MAX ==> after.next_id == before.next_id + 1
            &&& before.next_id == u64::MAX ==> after.next_id == 0
            &&& after.clients.dom() == before.clients.dom()
            &&& after.last_active == Some(client@)
        }),
{
    let before = old(multiplexer)@;
    let after = final(multiplexer)@;
    under_id_differs_in_id_only(message@, JsonView::Int(before.next_id as int));
    assert(after.pending.dom() =~= before.pending.dom().insert(key@));
    assert(after.clients.dom() =~= before.clients.dom());
}

/// A request on a line is forwarded as the request that the line reads as.
pub proof fn request_lines_are_forwarded_whole(
    multiplexer: &mut Multiplexer,
    client: &str,
    line: &str,
    at: std::time::Instant,
    forwarded: Option<String>,
)
    requires
        call_ensures(Multiplexer::forward, (multiplexer, client, line, at), forwarded),
        old(multiplexer)@.clients.dom().contains(client@),
        json::json_parsed(line@) is Some,
        asks(json::json_parsed(line@)->0),
    ensures
        forwarded is Some,
        is_line_under_id(
            forwarded->0@,
            json::json_parsed(line@)->0,
            JsonView::Int(old(multiplexer)@.next_id as int),
        ),
{
    under_id_differs_in_id_only(
        json::json_parsed(line@)->0,
        JsonView::Int(old(multiplexer)@.next_id as int),
    );
}

/// An object that asks for no answer is forwarded as it came, and nothing is owed for
/// it. What is no object, or comes from nobody, is not forwarded and changes nothing.
pub proof fn other_messages_are_forwarded_as_they_came(
    multiplexer: &mut Multiplexer,
    client: &str,
    line: &str,
    message: Json,
    at: std::time::Instant,
    forwarded: Option<String>,
)
    requires
        call_ensures(
            Multiplexer::forward_message,
            (multiplexer, client, line, message, at),
            forwarded,
        ),
        !asks(message@),
    ensures
        ({
            let before = old(multiplexer)@;
            let after = final(multiplexer)@;
            if message@ is Object && before.clients.dom().contains(client@) {
                &&& forwarded is Some
                &&& forwarded->0@ == line@
                &&& after.pending == before.pending
                &&& after.next_id == before.next_id
                &&& after.clients == before.clients
                &&& after.last_active == Some(client@)
            } else {
                forwarded is None && after == before
            }
        }),
{
}

/// Of somebody who is not connected nothing is forwarded, and nothing of a line that is
/// not JSON.
pub proof fn strangers_and_noise_are_not_forwarded(
    multiplexer: &mut Multiplexer,
    client: &str,
    line: &str,
    at: std::time::Instant,
    forwarded: Option<String>,
)
    requires
        call_ensures(Multiplexer::forward, (multiplexer, client, line, at), forwarded),
        !old(multiplexer)@.clients.dom().contains(client@) || json::json_parsed(line@) is None,
    ensures
        forwarded is None,
        final(multiplexer)@ == old(multiplexer)@,
{
}

/// An answer to a request goes to the client that sent the request, under the id that
/// the client gave, and otherwise as the upstream sent it.
pub proof fn answers_come_back_whole(
    sending: &mut Multiplexer,
    client: &str,
    line: &str,
    request: Json,
    at: std::time::Instant,
    forwarded: Option<String>,
    routing: &mut Multiplexer,
    reply_line: &str,
    reply: Json,
    routed: Option<Routed>,
)
    requires
        call_ensures(
            Multiplexer::forward_message,
            (sending, client, line, request, at),
            forwarded,
        ),
        old(sending)@.clients.dom().contains(client@),
        asks(request@),
        *old(routing) == *final(sending),
        call_ensures(Multiplexer::route_message, (routing, reply_line, reply), routed),
        answers(reply@),
        reply@->Object_0["id"@] == JsonView::Int(old(sending)@.next_id as int),
    ensures
        reaches_under_id(routed, client@, reply@, request@->Object_0["id"@]),
        final(routing)@.clients == old(routing)@.clients,
        final(routing)@.next_id == old(routing)@.next_id,
{
    under_id_differs_in_id_only(reply@, request@->Object_0["id"@]);
}

/// The requests of two clients do not get mixed up, though both gave the same id: each
/// answer goes to the client that asked, whichever comes first.
pub proof fn answers_are_not_mixed_up(
    first: &mut Multiplexer,
    client: &str,
    line: &str,
    request: Json,
    at: std::time::Instant,
    forwarded: Option<String>,
    second: &mut Multiplexer,
    other: &str,
    other_line: &str,
    other_request: Json,
    other_at: std::time::Instant,
    other_forwarded: Option<String>,
    routing: &mut Multiplexer,
    reply_line: &str,
    reply: Json,
    routed: Option<Routed>,
)
    requires
        call_ensures(
            Multiplexer::forward_message,
            (first, client, line, request, at),
            forwarded,
        ),
        *old(second) == *final(first),
        call_ensures(
            Multiplexer::forward_message,
            (second, other, other_line, other_request, other_at),
            other_forwarded,
        ),
        old(first)@.clients.dom().contains(client@),
        old(first)@.clients.dom().contains(other@),
        old(first)@.next_id < u64::MAX,
        asks(request@),
        asks(other_request@),
        *old(routing) == *final(second),
        call_ensures(Multiplexer::route_message, (routing, reply_line, reply), routed),
        answers(reply@),
    ensures
        reply@->Object_0["id"@] == JsonView::Int(old(first)@.next_id as int) ==> reaches_under_id(
            routed,
            client@,
            reply@,
            request@->Object_0["id"@],
        ),
        reply@->Object_0["id"@] == JsonView::Int(old(first)@.next_id + 1) ==> reaches_under_id(
            routed,
            other@,
            reply@,
            other_request@->Object_0["id"@],
        ),
{
    multiplexer::pool_id_keys_differ(
        old(first)@.next_id as int,
        old(first)@.next_id + 1,
    );
    under_id_differs_in_id_only(reply@, request@->Object_0["id"@]);
    under_id_differs_in_id_only(reply@, other_request@->Object_0["id"@]);
}

/// An answer goes to the client that is owed it, and is then owed no more; all else that
/// is owed stays. An answer that nobody waits for goes to nobody and changes nothing.
pub proof fn answers_go_to_who_is_owed_them(
    multiplexer: &mut Multiplexer,
    line: &str,
    reply: Json,
    routed: Option<Routed>,
    id: Json,
    key: String,
)
    requires
        call_ensures(Multiplexer::route_message, (multiplexer, line, reply), routed),
        answers(reply@),
        !is_lost_error(reply@),
        id@ == reply@->Object_0["id"@],
        call_ensures(jsonrpc::id_key, (&id,), key),
    ensures
        ({
            let before = old(multiplexer)@;
            let after = final(multiplexer)@;
            if before.pending.dom().contains(key@) {
                &&& reaches_under_id(
                    routed,
                    before.pending[key@].client,
                    reply@,
                    before.pending[key@].id,
                )
                &&& after.pending == before.pending.remove(key@)
                &&& after.clients == before.clients
                &&& after.next_id == before.next_id
                &&& after.last_active == before.last_active
            } else {
                routed is None && after == before
            }
        }),
{
    lost_errors_have_empty_ids(reply@);
    under_id_differs_in_id_only(reply@, old(multiplexer)@.pending[key@].id);
}

/// The same answer, sent again, goes to nobody.
pub proof fn answers_are_delivered_once(
    first: &mut Multiplexer,
    line: &str,
    reply: Json,
    routed: Option<Routed>,
    again: &mut Multiplexer,
    line_again: &str,
    reply_again: Json,
    routed_again: Option<Routed>,
)
    requires
        call_ensures(Multiplexer::route_message, (first, line, reply), routed),
        answers(reply@),
        !is_lost_error(reply@),
        *old(again) == *final(first),
        reply_again@ == reply@,
        call_ensures(Multiplexer::route_message, (again, line_again, reply_again), routed_again),
    ensures
        routed_again is None,
        final(again)@ == old(again)@,
{
    lost_errors_have_empty_ids(reply@);
}

/// The same, line by line: the answer to a request that came on a line goes back to the
/// client that sent the line.
pub proof fn answer_lines_come_back_whole(
    sending: &mut Multiplexer,
    client: &str,
    line: &str,
    at: std::time::Instant,
    forwarded: Option<String>,
    routing: &mut Multiplexer,
    reply_line: &str,
    routed: Option<Routed>,
)
    requires
        call_ensures(Multiplexer::forward, (sending, client, line, at), forwarded),
        old(sending)@.clients.dom().contains(client@),
        json::json_parsed(line@) is Some,
        asks(json::json_parsed(line@)->0),
        *old(routing) == *final(sending),
        call_ensures(Multiplexer::route, (routing, reply_line), routed),
        json::json_parsed(reply_line@) is Some,
        answers(json::json_parsed(reply_line@)->0),
        json::json_parsed(reply_line@)->0->Object_0["id"@] == JsonView::Int(
            old(sending)@.next_id as int,
        ),
    ensures
        reaches_under_id(
            routed,
            client@,
            json::json_parsed(reply_line@)->0,
            json::json_parsed(line@)->0->Object_0["id"@],
        ),
{
    under_id_differs_in_id_only(
        json::json_parsed(reply_line@)->0,
        json::json_parsed(line@)->0->Object_0["id"@],
    );
}

/// What the upstream says that is no JSON object goes to nobody, and changes nothing.
pub proof fn upstream_noise_goes_to_nobody(
    multiplexer: &mut Multiplexer,
    line: &str,
    routed: Option<Routed>,
)
    requires
        call_ensures(Multiplexer::route, (multiplexer, line), routed),
        json::json_parsed(line@) is None || json::json_parsed(line@)->0 !is Object,
    ensures
        routed is None,
        final(multiplexer)@ == old(multiplexer)@,
{
}

/// A line is forwarded as the message that it reads as, whatever that is.
pub proof fn lines_are_forwarded_as_what_they_read(
    multiplexer: &mut Multiplexer,
    client: &str,
    line: &str,
    at: std::time::Instant,
    forwarded: Option<String>,
    message: JsonView,
)
    requires
        call_ensures(Multiplexer::forward, (multiplexer, client, line, at), forwarded),
        json::json_parsed(line@) == Some(message),
    ensures
        final(multiplexer)@ == old(multiplexer)@.forwarded(client@, message, at),
        multiplexer::carries(forwarded, old(multiplexer)@, client@, line@, message),
        message is Object && !asks(message) && old(multiplexer)@.clients.dom().contains(client@)
            ==> forwarded is Some && forwarded->0@ == line@ && final(multiplexer)@.pending == old(multiplexer)@.pending && final(multiplexer)@.next_id == old(multiplexer)@.next_id && final(multiplexer)@.clients == old(multiplexer)@.clients,
        message !is Object ==> forwarded is None && final(multiplexer)@ == old(multiplexer)@,
{
}

/// A line of the upstream is routed as the message that it reads as, whatever that is.
pub proof fn lines_are_routed_as_what_they_read(
    multiplexer: &mut Multiplexer,
    line: &str,
    routed: Option<Routed>,
    message: JsonView,
)
    requires
        call_ensures(Multiplexer::route, (multiplexer, line), routed),
        json::json_parsed(line@) == Some(message),
    ensures
        final(multiplexer)@ == old(multiplexer)@.answered(message),
        multiplexer::reaches(routed, old(multiplexer)@, line@, message),
        message is Object && (message->Object_0.dom().contains("id"@)
            ==> message->Object_0["id"@] is Null) ==> final(multiplexer)@ == old(multiplexer)@ && (
        routed matches Some(Routed::Clients { clients, line: sent }) && sent@ == line@
            && clients@.len() == old(multiplexer)@.clients.dom().len() && forall|
            client: Seq<char>,
        | #[trigger]
            old(multiplexer)@.clients.dom().contains(client) <==> exists|i: int|
                0 <= i < clients@.len() && #[trigger] clients@[i]@ == client),
{
}

/// What the upstream says that is no object, and what it asks without naming a method by
/// a text, goes to nobody and changes nothing.
pub proof fn unreadable_messages_go_to_nobody(
    multiplexer: &mut Multiplexer,
    line: &str,
    message: Json,
    routed: Option<Routed>,
)
    requires
        call_ensures(Multiplexer::route_message, (multiplexer, line, message), routed),
        message@ !is Object || (asks(message@) && message@->Object_0["method"@] !is Str),
    ensures
        routed is None,
        final(multiplexer)@ == old(multiplexer)@,
{
}

/// A message without an id goes to every client once, as it came, and changes nothing.
pub proof fn messages_without_id_reach_every_client(
    multiplexer: &mut Multiplexer,
    line: &str,
    message: Json,
    routed: Option<Routed>,
)
    requires
        call_ensures(Multiplexer::route_message, (multiplexer, line, message), routed),
        message@ is Object,
        message@->Object_0.dom().contains("id"@) ==> message@->Object_0["id"@] is Null,
    ensures
        final(multiplexer)@ == old(multiplexer)@,
        routed matches Some(Routed::Clients { clients, line: sent }) && sent@ == line@
            && clients@.len() == old(multiplexer)@.clients.dom().len() && forall|
            client: Seq<char>,
        | #[trigger]
            old(multiplexer)@.clients.dom().contains(client) <==> exists|i: int|
                0 <= i < clients@.len() && #[trigger] clients@[i]@ == client,
{
}

/// An error that has lost its id answers the request that was forwarded before all
/// others: its client gets it, under its own id. Where nothing is owed, nobody does.
pub proof fn lost_errors_answer_the_oldest_request(
    multiplexer: &mut Multiplexer,
    line: &str,
    error: Json,
    routed: Option<Routed>,
)
    requires
        call_ensures(Multiplexer::route_message, (multiplexer, line, error), routed),
        is_lost_error(error@),
    ensures
        ({
            let before = old(multiplexer)@;
            let after = final(multiplexer)@;
            &&& before.pending.dom() == Set::<Seq<char>>::empty() ==> routed is None && after == before
            &&& before.pending.dom() != Set::<Seq<char>>::empty() ==> exists|key: Seq<char>| {
                &&& #[trigger] before.pending.dom().contains(key)
                &&& forall|other: Seq<char>| #[trigger]
                    before.pending.dom().contains(other) ==> before.pending[key].pool_id
                        <= before.pending[other].pool_id
                &&& reaches_under_id(
                    routed,
                    before.pending[key].client,
                    error@,
                    before.pending[key].id,
                )
                &&& after.pending == before.pending.remove(key)
                &&& after.clients == before.clients
                &&& after.next_id == before.next_id
            }
        }),
{
    let before = old(multiplexer)@;
    lost_errors_have_empty_ids(error@);
    multiplexer::errors_without_id_answer_the_oldest(before, error@);
    if before.pending.dom() == Set::<Seq<char>>::empty() {
        assert(before.pending =~= crate::pending::OwedMap::empty());
    } else {
        if before.pending == crate::pending::OwedMap::empty() {
            assert(before.pending.dom() =~= Set::<Seq<char>>::empty());
        }
        let key = crate::pending::oldest_key(before.pending);
        under_id_differs_in_id_only(error@, before.pending[key].id);
        assert(before.pending.dom().contains(key));
    }
}

/// A client that connects is one of the clients, without any capability, and nothing
/// else changes.
pub proof fn connecting_adds_one_client(
    multiplexer: &mut Multiplexer,
    client: &str,
)
    requires
        call_ensures(Multiplexer::connect, (multiplexer, client), ()),
    ensures
        ({
            let before = old(multiplexer)@;
            let after = final(multiplexer)@;
            &&& after.clients.dom() == before.clients.dom().insert(client@)
            &&& !after.clients[client@].sampling
            &&& !after.clients[client@].roots
            &&& forall|other: Seq<char>| #[trigger]
                before.clients.dom().contains(other) && other != client@ ==> after.clients[other]
                    == before.clients[other]
            &&& after.pending == before.pending
            &&& after.next_id == before.next_id
            &&& after.last_active == before.last_active
        }),
{
    assert(final(multiplexer)@.clients.dom() =~= old(multiplexer)@.clients.dom().insert(client@));
}

/// A client that leaves is gone, with all that it is owed. Other clients, and what they
/// are owed, are as before.
pub proof fn leaving_takes_away_one_client(
    multiplexer: &mut Multiplexer,
    client: &str,
)
    requires
        call_ensures(Multiplexer::disconnect, (multiplexer, client), ()),
    ensures
        ({
            let before = old(multiplexer)@;
            let after = final(multiplexer)@;
            &&& after.clients == before.clients.remove(client@)
            &&& after.next_id == before.next_id
            &&& after.last_active != Some(client@)
            &&& before.last_active != Some(client@) ==> after.last_active == before.last_active
            &&& forall|key: Seq<char>| #[trigger]
                after.pending.dom().contains(key) <==> before.pending.dom().contains(key)
                    && before.pending[key].client != client@
            &&& forall|key: Seq<char>| #[trigger]
                after.pending.dom().contains(key) ==> after.pending[key] == before.pending[key]
        }),
{
}

/// A client that has left gets no answer any more; one that stays gets its answer,
/// whoever else has left.
pub proof fn leaving_ends_answers_for_that_client_alone(
    sending: &mut Multiplexer,
    client: &str,
    line: &str,
    request: Json,
    at: std::time::Instant,
    forwarded: Option<String>,
    leaving: &mut Multiplexer,
    gone: &str,
    routing: &mut Multiplexer,
    reply_line: &str,
    reply: Json,
    routed: Option<Routed>,
)
    requires
        call_ensures(
            Multiplexer::forward_message,
            (sending, client, line, request, at),
            forwarded,
        ),
        old(sending)@.clients.dom().contains(client@),
        asks(request@),
        *old(leaving) == *final(sending),
        call_ensures(Multiplexer::disconnect, (leaving, gone), ()),
        *old(routing) == *final(leaving),
        call_ensures(Multiplexer::route_message, (routing, reply_line, reply), routed),
        answers(reply@),
        reply@->Object_0["id"@] == JsonView::Int(old(sending)@.next_id as int),
    ensures
        gone@ == client@ ==> routed is None,
        gone@ != client@ ==> reaches_under_id(
            routed,
            client@,
            reply@,
            request@->Object_0["id"@],
        ),
{
    under_id_differs_in_id_only(reply@, request@->Object_0["id"@]);
}

/// A new multiplexer has no clients, owes nothing, and forwards its first request under
/// the id 1.
pub proof fn new_multiplexers_are_idle(fresh: Multiplexer, count: usize)
    requires
        call_ensures(Multiplexer::new, (), fresh),
        call_ensures(Multiplexer::client_count, (&fresh,), count),
    ensures
        fresh@.clients.dom() == Set::<Seq<char>>::empty(),
        fresh@.pending.dom() == Set::<Seq<char>>::empty(),
        fresh@.last_active is None,
        fresh@.next_id == 1,
        count == 0,
{
    assert(fresh@.clients.dom() =~= Set::<Seq<char>>::empty());
    assert(fresh@.pending.dom() =~= Set::<Seq<char>>::empty());
}

/// The number of clients is the number of those that connected and have not left.
pub proof fn clients_are_counted(multiplexer: &Multiplexer, count: usize)
    requires
        call_ensures(Multiplexer::client_count, (multiplexer,), count),
    ensures
        count == multiplexer@.clients.dom().len(),
{
}

/// What an `initialize` request announces is known of the client afterwards: a
/// capability is there where the request has an object of its name under
/// `params.capabilities`. Other requests announce nothing.
pub proof fn initialize_announces_capabilities(
    multiplexer: &mut Multiplexer,
    client: &str,
    line: &str,
    message: Json,
    at: std::time::Instant,
    forwarded: Option<String>,
)
    requires
        call_ensures(
            Multiplexer::forward_message,
            (multiplexer, client, line, message, at),
            forwarded,
        ),
        old(multiplexer)@.clients.dom().contains(client@),
        asks(message@),
    ensures
        message@->Object_0["method"@] == JsonView::Str("initialize"@) ==> {
            &&& final(multiplexer)@.clients[client@].sampling
                == crate::laws::mcp_session::announces_object(message@, "sampling"@)
            &&& final(multiplexer)@.clients[client@].roots
                == crate::laws::mcp_session::announces_object(message@, "roots"@)
            &&& final(multiplexer)@.clients.remove(client@) == old(multiplexer)@.clients.remove(
                client@,
            )
        },
        message@->Object_0["method"@] != JsonView::Str("initialize"@) ==> final(multiplexer)@.clients
            == old(multiplexer)@.clients,
{
    let before = old(multiplexer)@.clients;
    let after = final(multiplexer)@.clients;
    assert(after.remove(client@) =~= before.remove(client@));
}

/// Whether a client of `traffic` can be asked for `method`: `sampling/` and `roots/`
/// need the capability of that name.
pub open spec fn can_be_asked(traffic: Traffic, client: Seq<char>, method: Seq<char>) -> bool {
    &&& traffic.clients.dom().contains(client)
    &&& (exists|rest: Seq<char>| method == #[trigger] ("sampling/"@ + rest))
        ==> traffic.clients[client].sampling
    &&& (exists|rest: Seq<char>| method == #[trigger] ("roots/"@ + rest))
        ==> traffic.clients[client].roots
}

proof fn capable_clients_can_be_asked(traffic: Traffic, client: Seq<char>, method: Seq<char>)
    ensures
        can_be_asked(traffic, client, method) <==> traffic.capable(method).contains(client),
{
    reveal_strlit("sampling/");
    reveal_strlit("roots/");
    let sampling = "sampling/"@;
    let roots = "roots/"@;
    if sampling.is_prefix_of(method) {
        assert(method =~= sampling + method.skip(sampling.len() as int));
        assert(method[0] == 's');
    }
    if roots.is_prefix_of(method) {
        assert(method =~= roots + method.skip(roots.len() as int));
        assert(method[0] == 'r');
    }
    if exists|rest: Seq<char>| method == #[trigger] (sampling + rest) {
        assert(method.subrange(0, sampling.len() as int) =~= sampling);
        assert(method[0] == 's');
    }
    if exists|rest: Seq<char>| method == #[trigger] (roots + rest) {
        assert(method.subrange(0, roots.len() as int) =~= roots);
        assert(method[0] == 'r');
    }
}

/// A request of the upstream goes to one client that can be asked for it, as it came:
/// the one that sent a message last, or else the first by name. Where there is none, the
/// upstream is told so under the id of its request, and no client hears of it. Nothing
/// that is owed changes.
pub proof fn upstream_requests_go_to_capable_clients(
    multiplexer: &mut Multiplexer,
    line: &str,
    message: Json,
    routed: Option<Routed>,
    method: Seq<char>,
)
    requires
        call_ensures(Multiplexer::route_message, (multiplexer, line, message), routed),
        old(multiplexer)@.clients.dom().finite(),
        asks(message@),
        message@->Object_0["method"@] == JsonView::Str(method),
    ensures
        final(multiplexer)@ == old(multiplexer)@,
        ({
            let traffic = old(multiplexer)@;
            match routed {
                Some(Routed::Clients { clients, line: sent }) => {
                    &&& clients@.len() == 1
                    &&& sent@ == line@
                    &&& can_be_asked(traffic, clients@[0]@, method)
                    &&& traffic.last_active matches Some(active) ==> can_be_asked(
                        traffic,
                        active,
                        method,
                    ) ==> clients@[0]@ == active
                    &&& forall|other: Seq<char>| #[trigger]
                        can_be_asked(traffic, other, method) ==> {
                            ||| traffic.last_active == Some(clients@[0]@)
                            ||| other == clients@[0]@
                            ||| crate::text::text_less(clients@[0]@, other)
                        }
                },
                Some(Routed::Upstream { line: answer }) => {
                    &&& forall|client: Seq<char>| !#[trigger] can_be_asked(traffic, client, method)
                    &&& exists|sent: JsonView| #[trigger]
                        crate::laws::mcp_session::is_error_answer(
                            sent,
                            message@->Object_0["id"@],
                            -32001,
                            "no capable downstream client connected for "@ + method,
                        ) && json::is_line_of(answer@, sent)
                },
                None => false,
            }
        }),
{
    let traffic = old(multiplexer)@;
    assert forall|client: Seq<char>|
        can_be_asked(traffic, client, method) <==> #[trigger] traffic.capable(method).contains(
            client,
        ) by {
        capable_clients_can_be_asked(traffic, client, method);
    }
    multiplexer::callbacks_go_to_capable_clients(traffic, message@, method);
    let capable = traffic.capable(method);
    if let Some(client) = traffic.callback_client(method) {
        multiplexer::callback_is_first(traffic, method);
        assert(capable.contains(client));
        assert(can_be_asked(traffic, client, method));
        assert forall|other: Seq<char>| #[trigger] can_be_asked(traffic, other, method) implies {
            ||| traffic.last_active == Some(client)
            ||| other == client
            ||| crate::text::text_less(client, other)
        } by {
            assert(capable.contains(other));
        }
    } else {
        let id = message@->Object_0["id"@];
        crate::laws::mcp_session::error_response_is_error_answer(
            id,
            -32001,
            "no capable downstream client connected for "@ + method,
        );
        assert forall|client: Seq<char>| !#[trigger] can_be_asked(traffic, client, method) by {
            assert(!capable.contains(client));
        }
    }
}

/// A request of the upstream that is not for certain clients goes to the client that
/// spoke last.
pub proof fn the_client_that_spoke_last_is_asked(
    sending: &mut Multiplexer,
    client: &str,
    line: &str,
    message: Json,
    at: std::time::Instant,
    forwarded: Option<String>,
    routing: &mut Multiplexer,
    request_line: &str,
    request: Json,
    routed: Option<Routed>,
    method: Seq<char>,
)
    requires
        call_ensures(
            Multiplexer::forward_message,
            (sending, client, line, message, at),
            forwarded,
        ),
        old(sending)@.clients.dom().contains(client@),
        message@ is Object,
        *old(routing) == *final(sending),
        call_ensures(Multiplexer::route_message, (routing, request_line, request), routed),
        asks(request@),
        request@->Object_0["method"@] == JsonView::Str(method),
        can_be_asked(old(routing)@, client@, method),
    ensures
        reaches_only(routed, client@, request_line@),
{
    capable_clients_can_be_asked(old(routing)@, client@, method);
}

} // verus!
