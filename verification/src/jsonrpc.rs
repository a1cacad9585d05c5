//! Request ids of JSON-RPC messages: where the pool's own ids come from, and how
//! an id is replaced in a message.

use vstd::prelude::*;

use crate::json::{self, Json, JsonView};
use crate::names::NameMap;

verus! {

/// Monotonic source of pool-unique JSON-RPC request ids.
///
/// Each pooled upstream multiplexes many clients onto one connection. Clients
/// number their requests independently, so their ids collide. The pool gives
/// every client request a pool id before forwarding it, and puts the client's
/// own id back into the matching response.
#[derive(Debug)]
pub struct IdAllocator {
    next: u64,
}

/// The id that comes `steps` allocations after `first`; past the largest id the
/// numbers start again at zero.
pub open spec fn nth_id(first: u64, steps: nat) -> int {
    (first + steps) % 0x1_0000_0000_0000_0000
}

impl IdAllocator {
    /// The id that the next allocation hands out.
    pub closed spec fn next_id(self) -> u64 {
        self.next
    }

    /// An allocator whose first id is 1: 0 is legal JSON-RPC, but logs and tools
    /// that look at ids expect counting to start at 1.
    pub fn new() -> (allocator: IdAllocator)
        ensures
            allocator.next_id() == 1,
    {
        IdAllocator { next: 1 }
    }

    /// Hands out the next id.
    pub fn allocate(&mut self) -> (id: u64)
        ensures
            id == old(self).next_id(),
            final(self).next_id() == nth_id(old(self).next_id(), 1),
    {
        let id = self.next;
        self.next = id.wrapping_add(1);
        id
    }
}

impl Default for IdAllocator {
    fn default() -> (allocator: IdAllocator)
        ensures
            allocator.next_id() == 1,
    {
        IdAllocator::new()
    }
}

/// Allocating step by step counts the ids one by one.
pub proof fn ids_count_up(first: u64, second: u64, steps: nat)
    requires
        second == nth_id(first, 1),
    ensures
        nth_id(second, steps) == nth_id(first, steps + 1),
{
}

/// Ids are unique: two allocations of one allocator never hand out the same id,
/// unless all ids have been handed out between them.
pub proof fn ids_are_unique(first: u64, earlier: nat, later: nat)
    requires
        earlier < later < earlier + 0x1_0000_0000_0000_0000,
    ensures
        nth_id(first, earlier) != nth_id(first, later),
{
}

/// Ids grow: a later allocation hands out a larger id, until the largest id has
/// been handed out.
pub proof fn ids_are_monotonic(first: u64, earlier: nat, later: nat)
    requires
        earlier < later,
        first + later <= u64::MAX,
    ensures
        nth_id(first, earlier) < nth_id(first, later),
{
}

/// The key of a JSON-RPC id in the map of pending requests: its JSON text, which
/// for an integer is its decimal form.
pub open spec fn key_of(id: JsonView) -> Seq<char> {
    match id {
        JsonView::Int(number) => json::signed_decimal(number),
        _ => json::json_text(id),
    }
}

/// The key of a JSON-RPC id in the map of pending requests: its JSON text, in
/// which the number `1` and the string `"1"` differ.
pub fn id_key(id: &Json) -> (key: String)
    ensures
        json::is_line_of(key@, id@),
        key@ == key_of(id@),
{
    id.to_line()
}

/// The line for the message `object` with `new_id` as its `id`.
pub fn with_id(object: NameMap<Json>, new_id: Json) -> (line: String)
    ensures
        json::is_line_of(
            line@,
            JsonView::Object(json::field_map(object@).insert("id"@, new_id@)),
        ),
{
    let mut fields = object;
    proof {
        json::field_map_insert(fields@, "id"@, new_id);
    }
    fields.insert("id".to_owned(), new_id);
    proof {
        json::object_view(fields);
    }
    Json::Object(fields).to_line()
}

/// The keys of a numeric id and of a string id never collide.
pub proof fn number_and_string_keys_differ(
    number: JsonView,
    string: JsonView,
    number_key: Seq<char>,
    string_key: Seq<char>,
)
    requires
        number is Int || number is Float,
        string is Str,
        json::is_line_of(number_key, number),
        json::is_line_of(string_key, string),
    ensures
        number_key != string_key,
{
    if let JsonView::Int(value) = number {
        reveal_strlit("-");
        if value < 0 {
            assert(number_key[0] == '-');
        } else {
            decimal_starts_with_digit(value as nat);
        }
    }
}

proof fn decimal_starts_with_digit(value: nat)
    ensures
        crate::text::decimal(value).len() > 0,
        '0' <= crate::text::decimal(value)[0] <= '9',
    decreases value,
{
    if value >= 10 {
        decimal_starts_with_digit(value / 10);
    }
}

/// Two ids with the same key are the same id, where they hold no float and are not
/// nested deeper than a reader follows.
pub proof fn equal_keys_mean_equal_ids(a: JsonView, b: JsonView, key: Seq<char>)
    requires
        json::is_line_of(key, a),
        json::is_line_of(key, b),
        a.reads_back(json::NESTING_LIMIT as nat),
        b.reads_back(json::NESTING_LIMIT as nat),
    ensures
        a == b,
{
}

/// Replacing the id of a message leaves its other fields as they are: so does a
/// reader of the line find them, where message and id hold no float and are not nested
/// too deep.
pub proof fn other_fields_are_kept(
    fields: Map<Seq<char>, JsonView>,
    new_id: JsonView,
    line: Seq<char>,
    name: Seq<char>,
)
    requires
        json::is_line_of(line, JsonView::Object(fields.insert("id"@, new_id))),
        JsonView::Object(fields).reads_back(json::NESTING_LIMIT as nat),
        new_id.reads_back((json::NESTING_LIMIT - 1) as nat),
    ensures
        json::json_parsed(line) matches Some(read) && read.get("id"@) == Some(new_id) && (name
            != "id"@ ==> read.get(name) == JsonView::Object(fields).get(name)),
{
    json::reads_back_with_field(fields, "id"@, new_id, json::NESTING_LIMIT as nat);
}

/// A message whose id was replaced by a pool id, sent as a line, read, and given
/// its own id back is the message that it was, where it holds no float and is not
/// nested too deep.
pub proof fn own_id_is_restored(
    fields: Map<Seq<char>, JsonView>,
    own_id: JsonView,
    pool_id: u64,
    line: Seq<char>,
)
    requires
        fields.dom().contains("id"@),
        fields["id"@] == own_id,
        json::is_line_of(
            line,
            JsonView::Object(fields.insert("id"@, JsonView::Int(pool_id as int))),
        ),
        JsonView::Object(fields).reads_back(json::NESTING_LIMIT as nat),
    ensures
        json::json_parsed(line) matches Some(JsonView::Object(read)) && read.insert("id"@, own_id)
            == fields,
{
    let pooled = JsonView::Int(pool_id as int);
    json::reads_back_with_field(fields, "id"@, pooled, json::NESTING_LIMIT as nat);
    assert(fields.insert("id"@, pooled).insert("id"@, own_id) =~= fields);
}

} // verus!
