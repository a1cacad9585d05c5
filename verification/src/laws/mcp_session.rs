//! What the pool reads from session messages, and what it answers.

use vstd::prelude::*;

use crate::json::{self, Json, JsonView};
use crate::mcp_session::{
    self, CacheableMethod, ClientCapabilities, HandshakeCache, PendingRequestInfo, PendingWaiter,
    ToolsListCache,
};

verus! {

/// Whether `value` is an object that has an object under `name`.
pub open spec fn has_object(value: JsonView, name: Seq<char>) -> bool {
    &&& value is Object
    &&& value->Object_0.dom().contains(name)
    &&& value->Object_0[name] is Object
}

/// Whether a request has an object under `params`, `capabilities` and `name`.
pub open spec fn announces_object(request: JsonView, name: Seq<char>) -> bool {
    &&& has_object(request, "params"@)
    &&& has_object(request->Object_0["params"@], "capabilities"@)
    &&& has_object(request->Object_0["params"@]->Object_0["capabilities"@], name)
}

/// A client announces a capability by an object of its name under `params.capabilities`.
pub proof fn capabilities_are_announced_by_objects(request: &Json, announced: ClientCapabilities)
    requires
        call_ensures(mcp_session::parse_client_capabilities, (request,), announced),
    ensures
        announced.sampling <==> announces_object(request@, "sampling"@),
        announced.roots <==> announces_object(request@, "roots"@),
{
}

/// Exactly `initialize` and `tools/list` are cached.
pub proof fn two_methods_are_cached(method: &str, found: Option<CacheableMethod>)
    requires
        call_ensures(mcp_session::cacheable_method, (method,), found),
    ensures
        found == Some(CacheableMethod::Initialize) <==> method@ == "initialize"@,
        found == Some(CacheableMethod::ToolsList) <==> method@ == "tools/list"@,
        found is None <==> method@ != "initialize"@ && method@ != "tools/list"@,
{
    reveal_strlit("initialize");
    reveal_strlit("tools/list");
    assert("initialize"@[0] != "tools/list"@[0]);
}

/// Whether `fields` are a JSON-RPC version, the id, and one more field.
pub open spec fn is_answer_with(
    fields: Map<Seq<char>, JsonView>,
    id: JsonView,
    name: Seq<char>,
    value: JsonView,
) -> bool {
    &&& forall|other: Seq<char>| #[trigger]
        fields.dom().contains(other) <==> other == "jsonrpc"@ || other == "id"@ || other == name
    &&& fields["jsonrpc"@] == JsonView::Str("2.0"@)
    &&& fields["id"@] == id
    &&& fields[name] == value
}

/// Whether `answer` is the error with this code and message, under `id`.
pub open spec fn is_error_answer(
    answer: JsonView,
    id: JsonView,
    code: int,
    message: Seq<char>,
) -> bool {
    &&& answer is Object
    &&& answer->Object_0.dom().contains("error"@)
    &&& is_answer_with(answer->Object_0, id, "error"@, answer->Object_0["error"@])
    &&& answer->Object_0["error"@] matches JsonView::Object(error) && {
        &&& forall|other: Seq<char>| #[trigger]
            error.dom().contains(other) <==> other == "code"@ || other == "message"@
        &&& error["code"@] == JsonView::Int(code)
        &&& error["message"@] == JsonView::Str(message)
    }
}

/// What stands for an error response in contracts is one.
pub proof fn error_response_is_error_answer(id: JsonView, code: int, message: Seq<char>)
    ensures
        is_error_answer(mcp_session::error_response(id, code, message), id, code, message),
{
    reveal_strlit("jsonrpc");
    reveal_strlit("id");
    reveal_strlit("error");
    reveal_strlit("code");
    reveal_strlit("message");
    assert("jsonrpc"@.len() == 7 && "id"@.len() == 2 && "error"@.len() == 5 && "code"@.len() == 4
        && "message"@.len() == 7);
    let answer = mcp_session::error_response(id, code, message);
    let error = answer->Object_0["error"@]->Object_0;
    assert(error["code"@] == JsonView::Int(code));
    assert(error["message"@] == JsonView::Str(message));
    assert(answer->Object_0["jsonrpc"@] == JsonView::Str("2.0"@));
    assert(answer->Object_0["id"@] == id);
}

/// A success is answered with the version, the id of the request and the result, and
/// nothing else.
pub proof fn successes_carry_id_and_result(original_id: Json, result: Json, line: String)
    requires
        call_ensures(mcp_session::build_success_response, (original_id, result), line),
    ensures
        exists|sent: Map<Seq<char>, JsonView>| #[trigger]
            is_answer_with(sent, original_id@, "result"@, result@) && json::is_line_of(
                line@,
                JsonView::Object(sent),
            ),
{
    reveal_strlit("jsonrpc");
    reveal_strlit("id");
    reveal_strlit("result");
    assert("jsonrpc"@.len() == 7 && "id"@.len() == 2 && "result"@.len() == 6);
    let sent = mcp_session::success_response(original_id@, result@)->Object_0;
    assert(is_answer_with(sent, original_id@, "result"@, result@));
}

/// An error is answered with the version, the id of the request, and the code and the
/// message, and nothing else.
pub proof fn errors_carry_id_code_and_message(
    original_id: Json,
    code: i64,
    message: &str,
    line: String,
)
    requires
        call_ensures(mcp_session::build_error_response, (original_id, code, message), line),
    ensures
        exists|sent: JsonView| #[trigger]
            is_error_answer(sent, original_id@, code as int, message@) && json::is_line_of(
                line@,
                sent,
            ),
{
    error_response_is_error_answer(original_id@, code as int, message@);
}

/// A session is lost where the error has the code -32001 and a message in which
/// `Session not found` stands somewhere; both are needed.
pub proof fn lost_sessions_have_code_and_message(value: &Json, lost: bool)
    requires
        call_ensures(mcp_session::is_session_not_found_error, (value,), lost),
    ensures
        lost <==> {
            &&& has_object(value@, "error"@)
            &&& ({
                let error = value@->Object_0["error"@]->Object_0;
                &&& error.dom().contains("code"@)
                &&& error["code"@] == JsonView::Int(-32001)
                &&& error.dom().contains("message"@)
                &&& error["message"@] is Str
                &&& exists|before: Seq<char>, after: Seq<char>|
                    error["message"@]->Str_0 == #[trigger] (before + "Session not found"@ + after)
            })
        },
{
    let needle = "Session not found"@;
    if has_object(value@, "error"@) {
        let error = value@->Object_0["error"@]->Object_0;
        if error.dom().contains("message"@) && error["message"@] is Str {
            let words = error["message"@]->Str_0;
            if crate::text::occurs_in(needle, words) {
                let at = choose|at: int|
                    0 <= at <= words.len() - needle.len() && #[trigger] words.subrange(
                        at,
                        at + needle.len(),
                    ) == needle;
                assert(words =~= words.take(at) + needle + words.skip(at + needle.len()));
            }
            if exists|before: Seq<char>, after: Seq<char>|
                words == #[trigger] (before + needle + after) {
                let (before, after) = choose|before: Seq<char>, after: Seq<char>|
                    words == #[trigger] (before + needle + after);
                let at = before.len() as int;
                assert(words.subrange(at, at + needle.len()) =~= needle);
            }
        }
    }
}

/// An error has lost its id where it has no method and the empty string as its id.
pub proof fn errors_without_id_are_recognized(value: &Json, empty: bool)
    requires
        call_ensures(mcp_session::is_empty_id_error, (value,), empty),
    ensures
        empty <==> crate::laws::multiplexer::is_lost_error(value@),
{
    if crate::mcp_session::has_empty_id_error(value@) {
        assert(value@->Object_0["id"@]->Str_0 =~= Seq::<char>::empty());
    }
}

/// A client's `notifications/initialized` is kept from the upstream where the client was
/// initialized from the cache, and where it has no id; nothing else is kept.
pub proof fn only_cached_initialization_is_swallowed(
    locally_initialized: bool,
    value: &Json,
    swallow: bool,
)
    requires
        call_ensures(
            mcp_session::should_swallow_initialized,
            (locally_initialized, value),
            swallow,
        ),
    ensures
        swallow <==> {
            &&& locally_initialized
            &&& value@ is Object
            &&& value@->Object_0.dom().contains("method"@)
            &&& value@->Object_0["method"@] == JsonView::Str("notifications/initialized"@)
            &&& value@->Object_0.dom().contains("id"@) ==> value@->Object_0["id"@] is Null
        },
{
}

/// What was stored for a cached method is found for it, and for no other; what is stored
/// for another method is not kept.
pub proof fn what_is_stored_is_found(
    cache: &mut HandshakeCache,
    method: &str,
    result: Json,
    asked: &str,
    before: Option<Json>,
    after: Option<Json>,
)
    requires
        call_ensures(HandshakeCache::store, (cache, method, result), ()),
        call_ensures(HandshakeCache::get, (&*old(cache), asked), before),
        call_ensures(HandshakeCache::get, (&*final(cache), asked), after),
    ensures
        asked@ == method@ && (method@ == "initialize"@ || method@ == "tools/list"@) ==> after is Some
            && after->0@ == result@,
        asked@ != method@ ==> json::held(after) == json::held(before),
        asked@ != "initialize"@ && asked@ != "tools/list"@ ==> after is None,
        method@ == "tools/list"@ ==> json::held(final(cache).tools_list.last_good_result) == Some(
            result@,
        ),
        method@ != "tools/list"@ ==> json::held(final(cache).tools_list.last_good_result)
            == json::held(old(cache).tools_list.last_good_result),
        final(cache).tools_list.waiters == old(cache).tools_list.waiters,
        final(cache).tools_list.in_flight == old(cache).tools_list.in_flight,
{
    reveal_strlit("initialize");
    reveal_strlit("tools/list");
    assert("initialize"@[0] != "tools/list"@[0]);
}

/// Forgetting the tools forgets nothing else, and the last good ones stay known.
pub proof fn forgetting_tools_keeps_the_rest(
    cache: &mut HandshakeCache,
    asked: &str,
    before: Option<Json>,
    after: Option<Json>,
)
    requires
        call_ensures(HandshakeCache::invalidate_tools_list, (cache,), ()),
        call_ensures(HandshakeCache::get, (&*old(cache), asked), before),
        call_ensures(HandshakeCache::get, (&*final(cache), asked), after),
    ensures
        asked@ == "tools/list"@ ==> after is None,
        asked@ != "tools/list"@ ==> json::held(after) == json::held(before),
        json::held(final(cache).tools_list.last_good_result) == json::held(
            old(cache).tools_list.last_good_result,
        ),
        final(cache).tools_list.waiters == old(cache).tools_list.waiters,
        final(cache).tools_list.in_flight == old(cache).tools_list.in_flight,
{
    reveal_strlit("initialize");
    reveal_strlit("tools/list");
    assert("initialize"@[0] != "tools/list"@[0]);
}

/// Clearing forgets all answers and all who wait, but not the last good tools.
pub proof fn clearing_keeps_the_last_good_tools(
    cache: &mut HandshakeCache,
    asked: &str,
    after: Option<Json>,
)
    requires
        call_ensures(HandshakeCache::clear_all, (cache,), ()),
        call_ensures(HandshakeCache::get, (&*final(cache), asked), after),
    ensures
        after is None,
        final(cache).tools_list.waiters@.len() == 0,
        !final(cache).tools_list.in_flight,
        json::held(final(cache).tools_list.last_good_result) == json::held(
            old(cache).tools_list.last_good_result,
        ),
{
}

/// A new cache knows nothing.
pub proof fn new_caches_are_empty(
    cache: HandshakeCache,
    method: &str,
    found: Option<Json>,
    tools: ToolsListCache,
    capabilities: ClientCapabilities,
)
    requires
        call_ensures(<HandshakeCache as Default>::default, (), cache),
        call_ensures(HandshakeCache::get, (&cache, method), found),
        call_ensures(<ToolsListCache as Default>::default, (), tools),
        call_ensures(<ClientCapabilities as Default>::default, (), capabilities),
    ensures
        found is None,
        cache.tools_list.last_good_result is None,
        cache.tools_list.waiters@.len() == 0,
        !cache.tools_list.in_flight,
        tools.cached_result is None,
        tools.last_good_result is None,
        tools.waiters@.len() == 0,
        !tools.in_flight,
        !capabilities.sampling,
        !capabilities.roots,
{
}

/// Copies of what is pending are the same.
pub proof fn copies_of_pending_requests_are_the_same(
    info: &PendingRequestInfo,
    info_copy: PendingRequestInfo,
    waiter: &PendingWaiter,
    waiter_copy: PendingWaiter,
    capabilities: &ClientCapabilities,
    capabilities_copy: ClientCapabilities,
)
    requires
        call_ensures(<PendingRequestInfo as Clone>::clone, (info,), info_copy),
        call_ensures(<PendingWaiter as Clone>::clone, (waiter,), waiter_copy),
        call_ensures(<ClientCapabilities as Clone>::clone, (capabilities,), capabilities_copy),
    ensures
        info_copy.client_id@ == info.client_id@,
        info_copy.original_id@ == info.original_id@,
        info_copy.method == info.method,
        info_copy.inserted_at == info.inserted_at,
        waiter_copy.client_id@ == waiter.client_id@,
        waiter_copy.original_id@ == waiter.original_id@,
        waiter_copy.inserted_at == waiter.inserted_at,
        capabilities_copy.sampling == capabilities.sampling,
        capabilities_copy.roots == capabilities.roots,
{
}

} // verus!
