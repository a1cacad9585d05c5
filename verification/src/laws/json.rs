//! What JSON values hold, and what their text keeps.

use vstd::prelude::*;

use crate::json::{self, Json, JsonView};

verus! {

/// A value is read from its own line as it was, where it holds no float and is not
/// nested too deep.
pub proof fn lines_are_read_as_they_were_written(
    value: &Json,
    line: String,
    text: &str,
    read: Option<Json>,
)
    requires
        value@.reads_back(json::NESTING_LIMIT as nat),
        call_ensures(Json::to_line, (value,), line),
        text@ == line@,
        call_ensures(Json::parse, (text,), read),
    ensures
        read is Some,
        read->0@ == value@,
        forall|i: int| 0 <= i < line@.len() ==> #[trigger] line@[i] != '\n' && line@[i] != '\r',
{
}

/// Two values with the same line hold the same, where they hold no float and are not
/// nested too deep.
pub proof fn different_values_have_different_lines(a: &Json, b: &Json, of_a: String, of_b: String)
    requires
        a@.reads_back(json::NESTING_LIMIT as nat),
        b@.reads_back(json::NESTING_LIMIT as nat),
        call_ensures(Json::to_line, (a,), of_a),
        call_ensures(Json::to_line, (b,), of_b),
        of_a@ == of_b@,
    ensures
        a@ == b@,
{
}

/// A simple value holds what it was made of.
pub proof fn simple_values_hold_what_they_are_made_of(
    number: i64,
    integer: Json,
    text: &str,
    string: Json,
    flag: bool,
    unsigned: u64,
)
    requires
        call_ensures(Json::integer, (number,), integer),
        call_ensures(Json::string, (text,), string),
    ensures
        integer@ == JsonView::Int(number as int),
        string@ == JsonView::Str(text@),
        Json::Null@ == JsonView::Null,
        Json::Bool(flag)@ == JsonView::Bool(flag),
        Json::Unsigned(unsigned)@ == JsonView::Int(unsigned as int),
{
}

/// An array holds what each of its items holds, in their order.
pub proof fn arrays_hold_their_items(items: Vec<Json>, i: int)
    requires
        0 <= i < items@.len(),
    ensures
        Json::Array(items)@ matches JsonView::Array(held) && held.len() == items@.len() && held[i]
            == items@[i]@,
{
    json::items_view_index(items@);
}

/// An object holds, under each name, what its field of that name holds.
pub proof fn objects_hold_their_fields(fields: crate::names::NameMap<Json>)
    ensures
        Json::Object(fields)@ matches JsonView::Object(held) && held.dom() == fields@.dom()
            && forall|name: Seq<char>| #[trigger]
            fields@.dom().contains(name) ==> held[name] == fields@[name]@,
{
    json::object_view(fields);
    assert(json::field_map(fields@).dom() =~= fields@.dom());
}

/// A field is found under its own name, and only in an object.
pub proof fn fields_are_found_by_name(value: &Json, key: &str, field: Option<&Json>)
    requires
        call_ensures(Json::get, (value, key), field),
    ensures
        field is Some <==> value@ is Object && value@->Object_0.dom().contains(key@),
        field matches Some(found) ==> found@ == value@->Object_0[key@],
{
}

/// A value is read as text, as a number or as an array only where it is one.
pub proof fn values_are_read_as_what_they_are(
    value: &Json,
    text: Option<&str>,
    signed: Option<i64>,
    unsigned: Option<u64>,
    is_object: bool,
    is_null: bool,
)
    requires
        call_ensures(Json::as_str, (value,), text),
        call_ensures(Json::as_i64, (value,), signed),
        call_ensures(Json::as_u64, (value,), unsigned),
        call_ensures(Json::is_object, (value,), is_object),
        call_ensures(Json::is_null, (value,), is_null),
    ensures
        match text {
            Some(string) => value@ == JsonView::Str(string@),
            None => value@ !is Str,
        },
        match signed {
            Some(number) => value@ == JsonView::Int(number as int),
            None => value@ is Int ==> !(i64::MIN <= value@->Int_0 <= i64::MAX),
        },
        match unsigned {
            Some(number) => value@ == JsonView::Int(number as int),
            None => value@ is Int ==> !(0 <= value@->Int_0 <= u64::MAX),
        },
        is_object == (value@ is Object),
        is_null == (value@ is Null),
{
}

/// Putting a field into an object under construction changes that field alone.
pub proof fn putting_changes_one_field(
    fields: &mut crate::names::NameMap<Json>,
    name: &str,
    value: Json,
)
    requires
        call_ensures(json::put, (fields, name, value), ()),
    ensures
        ({
            let before = Json::Object(*old(fields))@->Object_0;
            let after = Json::Object(*final(fields))@->Object_0;
            &&& after.dom() == before.dom().insert(name@)
            &&& after[name@] == value@
            &&& forall|other: Seq<char>| #[trigger]
                before.dom().contains(other) && other != name@ ==> after[other] == before[other]
        }),
{
    json::object_view(*old(fields));
    json::object_view(*final(fields));
    let before = json::field_map(old(fields)@);
    assert(before.insert(name@, value@).dom() =~= before.dom().insert(name@));
}

/// An array is read as its items, in their order, and nothing else is.
pub proof fn arrays_are_read_as_their_items(value: &Json, items: Option<&Vec<Json>>)
    requires
        call_ensures(Json::as_array, (value,), items),
    ensures
        items is Some <==> value@ is Array,
        items matches Some(found) ==> found@.len() == value@->Array_0.len() && forall|i: int|
            0 <= i < found@.len() ==> (#[trigger] found@[i])@ == value@->Array_0[i],
{
    if let Some(found) = items {
        json::items_view_index(found@);
    }
}

/// The pretty text is always there, and is that of the value; a text is read where
/// `serde_json` reads it, as what it reads.
pub proof fn texts_are_those_of_serde_json(
    value: &Json,
    pretty: Option<String>,
    text: &str,
    read: Option<Json>,
    empty: crate::names::NameMap<Json>,
)
    requires
        call_ensures(Json::to_pretty, (value,), pretty),
        call_ensures(Json::parse, (text,), read),
        call_ensures(json::no_fields, (), empty),
    ensures
        pretty matches Some(written) && written@ == json::json_pretty_text(value@),
        read is Some <==> json::json_parsed(text@) is Some,
        read matches Some(found) ==> found@ == json::json_parsed(text@)->0,
        Json::Object(empty)@->Object_0.dom() == Set::<Seq<char>>::empty(),
{
    json::object_view(empty);
    assert(json::field_map(empty@).dom() =~= Set::<Seq<char>>::empty());
}

/// A copy holds what was copied.
pub proof fn copies_hold_the_same(value: &Json, copy: Json)
    requires
        call_ensures(<Json as Clone>::clone, (value,), copy),
    ensures
        copy@ == value@,
{
}

} // verus!
