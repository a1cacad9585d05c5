//! What request ids are for.

use vstd::prelude::*;

use crate::json::{self, Json, JsonView};
use crate::jsonrpc::{self, IdAllocator};
use crate::names::NameMap;

verus! {

/// Whether `sent` is the object `received` with `id` as its id: it has the same fields,
/// with the same values, and the id.
pub open spec fn differs_in_id_only(received: JsonView, sent: JsonView, id: JsonView) -> bool {
    &&& received is Object
    &&& sent is Object
    &&& sent->Object_0.dom() == received->Object_0.dom().insert("id"@)
    &&& sent->Object_0["id"@] == id
    &&& forall|name: Seq<char>| #[trigger]
        received->Object_0.dom().contains(name) && name != "id"@ ==> sent->Object_0[name]
            == received->Object_0[name]
}

/// Whether `line` is the text of the object `received` with `id` as its id.
pub open spec fn is_line_under_id(line: Seq<char>, received: JsonView, id: JsonView) -> bool {
    exists|sent: JsonView| #[trigger]
        differs_in_id_only(received, sent, id) && json::is_line_of(line, sent)
}

/// A line for an object under another id, once read, has every other field as it was,
/// where object and id hold no float and are not nested too deep.
pub proof fn lines_under_an_id_keep_all_fields(
    line: Seq<char>,
    received: JsonView,
    id: JsonView,
    name: Seq<char>,
)
    requires
        is_line_under_id(line, received, id),
        received.reads_back(json::NESTING_LIMIT as nat),
        id.reads_back((json::NESTING_LIMIT - 1) as nat),
    ensures
        json::json_parsed(line) matches Some(JsonView::Object(read)) && read["id"@] == id
            && read.dom() == received->Object_0.dom().insert("id"@) && (name != "id"@
            && received->Object_0.dom().contains(name) ==> read[name] == received->Object_0[name]),
{
    let sent = choose|sent: JsonView| #[trigger]
        differs_in_id_only(received, sent, id) && json::is_line_of(line, sent);
    let fields = received->Object_0;
    assert(sent->Object_0 =~= fields.insert("id"@, id));
    json::reads_back_with_field(fields, "id"@, id, json::NESTING_LIMIT as nat);
}

/// Giving a message another id changes nothing else in it.
pub proof fn only_the_id_is_replaced(object: NameMap<Json>, new_id: Json, line: String)
    requires
        call_ensures(jsonrpc::with_id, (object, new_id), line),
    ensures
        is_line_under_id(line@, Json::Object(object)@, new_id@),
{
    json::object_view(object);
    let received = Json::Object(object)@;
    let sent = JsonView::Object(json::field_map(object@).insert("id"@, new_id@));
    assert(sent->Object_0.dom() =~= received->Object_0.dom().insert("id"@));
    assert(differs_in_id_only(received, sent, new_id@));
}

/// The first id is 1, and each id is one more than the one before it; after the largest
/// comes 0.
pub proof fn ids_are_handed_out_one_by_one(
    fresh: IdAllocator,
    initial: &mut IdAllocator,
    first: u64,
    any: &mut IdAllocator,
    earlier: u64,
    next: &mut IdAllocator,
    later: u64,
)
    requires
        call_ensures(IdAllocator::new, (), fresh),
        *old(initial) == fresh,
        call_ensures(IdAllocator::allocate, (initial,), first),
        call_ensures(IdAllocator::allocate, (any,), earlier),
        *old(next) == *final(any),
        call_ensures(IdAllocator::allocate, (next,), later),
    ensures
        first == 1,
        earlier < u64::MAX ==> later == earlier + 1,
        earlier == u64::MAX ==> later == 0,
{
}

/// An allocator by default starts where a new one does.
pub proof fn default_allocators_are_new(
    standard: IdAllocator,
    initial: &mut IdAllocator,
    first: u64,
)
    requires
        call_ensures(<IdAllocator as Default>::default, (), standard),
        *old(initial) == standard,
        call_ensures(IdAllocator::allocate, (initial,), first),
    ensures
        first == 1,
{
}

/// The same id has always the same key; a number and a string never have the same; and
/// ids that hold no float and are not nested too deep have the same key only where they
/// are the same.
pub proof fn keys_tell_ids_apart(a: &Json, b: &Json, key_a: String, key_b: String)
    requires
        call_ensures(jsonrpc::id_key, (a,), key_a),
        call_ensures(jsonrpc::id_key, (b,), key_b),
    ensures
        a@ == b@ ==> key_a@ == key_b@,
        (a@ is Int || a@ is Float) && b@ is Str ==> key_a@ != key_b@,
        a@.reads_back(json::NESTING_LIMIT as nat) && b@.reads_back(json::NESTING_LIMIT as nat)
            && key_a@ == key_b@ ==> a@ == b@,
        a@ matches JsonView::Int(number) ==> (number >= 0 ==> crate::laws::text::writes_number(
            key_a@,
            number,
        )),
{
    if (a@ is Int || a@ is Float) && b@ is Str {
        jsonrpc::number_and_string_keys_differ(a@, b@, key_a@, key_b@);
    }
    if let JsonView::Int(number) = a@ {
        if number >= 0 {
            crate::laws::text::decimal_writes_the_number(number as nat);
        }
    }
}

} // verus!
