//! What the pool knows of MCP sessions: which answers it caches, how it answers
//! for the upstream, and how it reads the messages that steer a session.

use vstd::prelude::*;

use crate::json::{self, Json, JsonView};
use crate::text::{self, same_text};

verus! {

/// The clock reading type of the standard library, which is carried along.
#[verifier::external_type_specification]
#[verifier::external_body]
pub struct ExInstant(std::time::Instant);

/// The handshake methods whose results are cached.
#[derive(Debug, Clone, Copy, PartialEq, Eq, Structural)]
pub enum CacheableMethod {
    Initialize,
    ToolsList,
}

/// What a client announced that it can do for the server.
#[derive(Debug, PartialEq, Eq, Structural)]
pub struct ClientCapabilities {
    pub sampling: bool,
    pub roots: bool,
}

/// A request that was forwarded and not answered yet.
#[derive(Debug)]
pub struct PendingRequestInfo {
    pub client_id: String,
    pub original_id: Json,
    pub method: Option<String>,
    pub inserted_at: std::time::Instant,
}

/// A client that waits for the answer to another client's `tools/list`.
#[derive(Debug)]
pub struct PendingWaiter {
    pub client_id: String,
    pub original_id: Json,
    pub inserted_at: std::time::Instant,
}

/// What is known of the upstream's tools.
#[derive(Debug)]
pub struct ToolsListCache {
    pub cached_result: Option<Json>,
    pub last_good_result: Option<Json>,
    pub waiters: Vec<PendingWaiter>,
    pub in_flight: bool,
}

/// The cached answers of the handshake.
#[derive(Debug)]
pub struct HandshakeCache {
    pub initialize: Option<Json>,
    pub tools_list: ToolsListCache,
}

/// Why an upstream has to be started again.
#[derive(Debug, Clone, Copy, PartialEq, Eq, Structural)]
pub enum RecoveryReason {
    SessionNotFound,
}

impl Default for ClientCapabilities {
    fn default() -> (capabilities: ClientCapabilities)
        ensures
            !capabilities.sampling,
            !capabilities.roots,
    {
        ClientCapabilities { sampling: false, roots: false }
    }
}

impl Clone for ClientCapabilities {
    fn clone(&self) -> (copy: ClientCapabilities)
        ensures
            copy == *self,
    {
        ClientCapabilities { sampling: self.sampling, roots: self.roots }
    }
}

impl Clone for PendingRequestInfo {
    fn clone(&self) -> (copy: PendingRequestInfo)
        ensures
            copy.client_id == self.client_id,
            copy.original_id@ == self.original_id@,
            copy.method == self.method,
            copy.inserted_at == self.inserted_at,
    {
        PendingRequestInfo {
            client_id: self.client_id.clone(),
            original_id: self.original_id.clone(),
            method: match &self.method {
                Some(method) => Some(method.clone()),
                None => None,
            },
            inserted_at: self.inserted_at,
        }
    }
}

impl Clone for PendingWaiter {
    fn clone(&self) -> (copy: PendingWaiter)
        ensures
            copy.client_id == self.client_id,
            copy.original_id@ == self.original_id@,
            copy.inserted_at == self.inserted_at,
    {
        PendingWaiter {
            client_id: self.client_id.clone(),
            original_id: self.original_id.clone(),
            inserted_at: self.inserted_at,
        }
    }
}

impl Default for ToolsListCache {
    fn default() -> (cache: ToolsListCache)
        ensures
            cache.cached_result is None,
            cache.last_good_result is None,
            cache.waiters@.len() == 0,
            !cache.in_flight,
    {
        ToolsListCache {
            cached_result: None,
            last_good_result: None,
            waiters: Vec::new(),
            in_flight: false,
        }
    }
}

impl Default for HandshakeCache {
    fn default() -> (cache: HandshakeCache)
        ensures
            cache.initialize is None,
            cache.tools_list.cached_result is None,
            cache.tools_list.last_good_result is None,
            cache.tools_list.waiters@.len() == 0,
            !cache.tools_list.in_flight,
    {
        HandshakeCache { initialize: None, tools_list: ToolsListCache::default() }
    }
}

/// The cacheable method with the given name; `None` for any other name.
pub open spec fn method_named(method: Seq<char>) -> Option<CacheableMethod> {
    if method == "initialize"@ {
        Some(CacheableMethod::Initialize)
    } else if method == "tools/list"@ {
        Some(CacheableMethod::ToolsList)
    } else {
        None
    }
}

/// The cacheable method with the given name; `None` for any other name.
pub fn cacheable_method(method: &str) -> (found: Option<CacheableMethod>)
    ensures
        found == method_named(method@),
{
    if same_text(method, "initialize") {
        Some(CacheableMethod::Initialize)
    } else if same_text(method, "tools/list") {
        Some(CacheableMethod::ToolsList)
    } else {
        None
    }
}

/// The JSON-RPC answer with the given result.
pub open spec fn success_response(id: JsonView, result: JsonView) -> JsonView {
    JsonView::Object(
        Map::<Seq<char>, JsonView>::empty().insert("jsonrpc"@, JsonView::Str("2.0"@)).insert(
            "id"@,
            id,
        ).insert("result"@, result),
    )
}

/// The JSON-RPC answer with the given error.
pub open spec fn error_response(id: JsonView, code: int, message: Seq<char>) -> JsonView {
    let error = JsonView::Object(
        Map::<Seq<char>, JsonView>::empty().insert("code"@, JsonView::Int(code)).insert(
            "message"@,
            JsonView::Str(message),
        ),
    );
    JsonView::Object(
        Map::<Seq<char>, JsonView>::empty().insert("jsonrpc"@, JsonView::Str("2.0"@)).insert(
            "id"@,
            id,
        ).insert("error"@, error),
    )
}

/// The line that answers the request `original_id` with `result`.
pub fn build_success_response(original_id: Json, result: Json) -> (line: String)
    ensures
        json::is_line_of(line@, success_response(original_id@, result@)),
{
    let mut object = json::no_fields();
    json::put(&mut object, "jsonrpc", Json::string("2.0"));
    json::put(&mut object, "id", original_id);
    json::put(&mut object, "result", result);
    proof {
        json::object_view(object);
    }
    Json::Object(object).to_line()
}

/// The line that answers the request `original_id` with an error.
pub fn build_error_response(original_id: Json, code: i64, message: &str) -> (line: String)
    ensures
        json::is_line_of(line@, error_response(original_id@, code as int, message@)),
{
    let mut error = json::no_fields();
    json::put(&mut error, "code", Json::integer(code));
    json::put(&mut error, "message", Json::string(message));
    proof {
        json::object_view(error);
    }
    let mut object = json::no_fields();
    json::put(&mut object, "jsonrpc", Json::string("2.0"));
    json::put(&mut object, "id", original_id);
    json::put(&mut object, "error", Json::Object(error));
    proof {
        json::object_view(object);
    }
    Json::Object(object).to_line()
}

/// The field `key` of `value`, where there is a value.
pub open spec fn field_of(value: Option<JsonView>, key: Seq<char>) -> Option<JsonView> {
    match value {
        Some(found) => found.get(key),
        None => None,
    }
}

fn field<'a>(value: Option<&'a Json>, key: &str) -> (found: Option<&'a Json>)
    ensures
        match found {
            Some(child) => value is Some && field_of(Some(value->0@), key@) == Some(child@),
            None => value is Some ==> field_of(Some(value->0@), key@) is None,
        },
{
    match value {
        Some(parent) => parent.get(key),
        None => None,
    }
}

/// Whether `request` announces the capability `name`: an object of that name
/// under `params.capabilities`.
pub open spec fn announces(request: JsonView, name: Seq<char>) -> bool {
    field_of(field_of(request.get("params"@), "capabilities"@), name) matches Some(
        JsonView::Object(_),
    )
}

/// The capabilities that an `initialize` request announces.
pub open spec fn announced_capabilities(request: JsonView) -> ClientCapabilities {
    ClientCapabilities {
        sampling: announces(request, "sampling"@),
        roots: announces(request, "roots"@),
    }
}

/// The capabilities that an `initialize` request announces.
pub fn parse_client_capabilities(initialize_request: &Json) -> (announced: ClientCapabilities)
    ensures
        announced == announced_capabilities(initialize_request@),
{
    let capabilities = field(initialize_request.get("params"), "capabilities");
    let sampling = match field(capabilities, "sampling") {
        Some(value) => value.is_object(),
        None => false,
    };
    let roots = match field(capabilities, "roots") {
        Some(value) => value.is_object(),
        None => false,
    };
    ClientCapabilities { sampling, roots }
}

/// The error code of a lost session.
pub const SESSION_NOT_FOUND_CODE: i64 = -32001;

/// Whether a response reports that the upstream has lost the session: the code
/// and the message have to say so, both.
pub open spec fn reports_lost_session(response: JsonView) -> bool {
    let error = response.get("error"@);
    let code = field_of(error, "code"@);
    let message = field_of(error, "message"@);
    &&& code is Some
    &&& code->0.as_i64() == Some(SESSION_NOT_FOUND_CODE as int)
    &&& message is Some
    &&& message->0.as_str() matches Some(words)
    &&& text::occurs_in("Session not found"@, words)
}

/// Whether a response reports that the upstream has lost the session.
pub fn is_session_not_found_error(value: &Json) -> (lost: bool)
    ensures
        lost == reports_lost_session(value@),
{
    let error = match value.get("error") {
        Some(error) => error,
        None => return false,
    };
    let code_matches = match error.get("code") {
        Some(code) => match code.as_i64() {
            Some(number) => number == SESSION_NOT_FOUND_CODE,
            None => false,
        },
        None => false,
    };
    let message_matches = match error.get("message") {
        Some(message) => match message.as_str() {
            Some(words) => text::contains(words, "Session not found"),
            None => false,
        },
        None => false,
    };
    code_matches && message_matches
}

/// Whether a message is an error response whose id is the empty string.
pub open spec fn has_empty_id_error(message: JsonView) -> bool {
    &&& message.get("method"@) is None
    &&& message.get("error"@) is Some
    &&& message.get("id"@) matches Some(JsonView::Str(id))
    &&& id.len() == 0
}

/// Whether a message is an error response whose id is the empty string.
pub fn is_empty_id_error(value: &Json) -> (empty: bool)
    ensures
        empty == has_empty_id_error(value@),
{
    let id_is_empty = match value.get("id") {
        Some(id) => match id.as_str() {
            Some(text) => text.is_empty(),
            None => false,
        },
        None => false,
    };
    value.get("method").is_none() && value.get("error").is_some() && id_is_empty
}

/// Whether a message is the notification that a client is initialized.
pub open spec fn is_initialized_notification(message: JsonView) -> bool {
    &&& message.get("method"@) == Some(JsonView::Str("notifications/initialized"@))
    &&& match message.get("id"@) {
        Some(id) => id is Null,
        None => true,
    }
}

/// Whether a client's message is kept from the upstream: the `initialized`
/// notification of a client whose `initialize` was answered from the cache.
pub fn should_swallow_initialized(locally_initialized: bool, value: &Json) -> (swallow: bool)
    ensures
        swallow == (locally_initialized && is_initialized_notification(value@)),
{
    let method_matches = match value.get("method") {
        Some(method) => match method.as_str() {
            Some(name) => same_text(name, "notifications/initialized"),
            None => false,
        },
        None => false,
    };
    let has_no_id = match value.get("id") {
        Some(id) => id.is_null(),
        None => true,
    };
    locally_initialized && method_matches && has_no_id
}

fn copy_held(value: &Option<Json>) -> (copy: Option<Json>)
    ensures
        json::held(copy) == json::held(*value),
{
    match value {
        Some(json) => Some(json.clone()),
        None => None,
    }
}

impl HandshakeCache {
    /// The result cached for a method; `None` where none is, or where results of
    /// the method are not cached.
    pub open spec fn cached(self, method: Option<CacheableMethod>) -> Option<JsonView> {
        match method {
            Some(CacheableMethod::Initialize) => json::held(self.initialize),
            Some(CacheableMethod::ToolsList) => json::held(self.tools_list.cached_result),
            None => None,
        }
    }

    /// The result cached for `method`.
    pub fn get(&self, method: &str) -> (result: Option<Json>)
        ensures
            json::held(result) == self.cached(method_named(method@)),
    {
        match cacheable_method(method) {
            Some(CacheableMethod::Initialize) => copy_held(&self.initialize),
            Some(CacheableMethod::ToolsList) => copy_held(&self.tools_list.cached_result),
            None => None,
        }
    }

    /// Caches the result of `method`, where results of that method are cached. The
    /// tools stored last stay known as the last good ones.
    pub fn store(&mut self, method: &str, result: Json)
        ensures
            method_named(method@) is Some ==> final(self).cached(method_named(method@)) == Some(
                result@,
            ),
            forall|other: Option<CacheableMethod>|
                other != method_named(method@) ==> final(self).cached(other) == old(self).cached(
                    other,
                ),
            json::held(final(self).tools_list.last_good_result) == (if method_named(method@) == Some(
                CacheableMethod::ToolsList,
            ) {
                Some(result@)
            } else {
                json::held(old(self).tools_list.last_good_result)
            }),
            final(self).tools_list.waiters == old(self).tools_list.waiters,
            final(self).tools_list.in_flight == old(self).tools_list.in_flight,
    {
        match cacheable_method(method) {
            Some(CacheableMethod::Initialize) => {
                self.initialize = Some(result);
            },
            Some(CacheableMethod::ToolsList) => {
                self.tools_list.cached_result = Some(result.clone());
                self.tools_list.last_good_result = Some(result);
            },
            None => {},
        }
    }

    /// Forgets the cached tools, but not the last good ones.
    pub fn invalidate_tools_list(&mut self)
        ensures
            final(self).tools_list.cached_result is None,
            final(self).initialize == old(self).initialize,
            final(self).tools_list.last_good_result == old(self).tools_list.last_good_result,
            final(self).tools_list.waiters == old(self).tools_list.waiters,
            final(self).tools_list.in_flight == old(self).tools_list.in_flight,
    {
        self.tools_list.cached_result = None;
    }

    /// Forgets everything but the last good tools.
    pub fn clear_all(&mut self)
        ensures
            final(self).initialize is None,
            final(self).tools_list.cached_result is None,
            final(self).tools_list.waiters@.len() == 0,
            !final(self).tools_list.in_flight,
            final(self).tools_list.last_good_result == old(self).tools_list.last_good_result,
    {
        self.initialize = None;
        self.tools_list.cached_result = None;
        self.tools_list.waiters.clear();
        self.tools_list.in_flight = false;
    }
}

} // verus!
