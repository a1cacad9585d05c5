//! JSON values as the library reads and builds them, and their JSON text, which
//! `serde_json` writes and reads.

use vstd::prelude::*;

use crate::names::{self, NameMap};
use crate::text;

verus! {

/// What a JSON value holds. An object is a map: the order of its fields carries
/// no meaning. A number that is no integer is known by its JSON text.
pub enum JsonView {
    Null,
    Bool(bool),
    Int(int),
    Float(Seq<char>),
    Str(Seq<char>),
    Array(Seq<JsonView>),
    Object(Map<Seq<char>, JsonView>),
}

/// The JSON value type of `serde_json`.
#[verifier::external_type_specification]
#[verifier::external_body]
pub struct ExValue(serde_json::Value);

/// What a `serde_json::Value` holds.
pub uninterp spec fn value_view(value: serde_json::Value) -> JsonView;

/// The text that `serde_json` writes for a value in its compact form.
pub uninterp spec fn json_text(value: JsonView) -> Seq<char>;

/// The text that `serde_json` writes for a value in its pretty form.
pub uninterp spec fn json_pretty_text(value: JsonView) -> Seq<char>;

/// What `serde_json` reads from a text; `None` where it refuses the text.
pub uninterp spec fn json_parsed(text: Seq<char>) -> Option<JsonView>;

impl JsonView {
    /// The field `key` of an object; `None` where there is none, or no object.
    pub open spec fn get(self, key: Seq<char>) -> Option<JsonView> {
        match self {
            JsonView::Object(fields) => if fields.dom().contains(key) {
                Some(fields[key])
            } else {
                None
            },
            _ => None,
        }
    }

    /// The text of a string; `None` for any other value.
    pub open spec fn as_str(self) -> Option<Seq<char>> {
        match self {
            JsonView::Str(string) => Some(string),
            _ => None,
        }
    }

    /// An integer that an `i64` can hold; `None` for any other value.
    pub open spec fn as_i64(self) -> Option<int> {
        match self {
            JsonView::Int(number) => if i64::MIN <= number <= i64::MAX {
                Some(number)
            } else {
                None
            },
            _ => None,
        }
    }

    /// An integer that a `u64` can hold; `None` for any other value.
    pub open spec fn as_u64(self) -> Option<int> {
        match self {
            JsonView::Int(number) => if 0 <= number <= u64::MAX {
                Some(number)
            } else {
                None
            },
            _ => None,
        }
    }

    /// The items of an array; `None` for any other value.
    pub open spec fn as_array(self) -> Option<Seq<JsonView>> {
        match self {
            JsonView::Array(items) => Some(items),
            _ => None,
        }
    }

    /// Whether the value holds no float, and objects and arrays inside each other
    /// at most `levels` deep.
    pub open spec fn reads_back(self, levels: nat) -> bool
        decreases levels,
    {
        match self {
            JsonView::Float(_) => false,
            JsonView::Array(items) => levels > 0 && forall|i: int|
                0 <= i < items.len() ==> (#[trigger] items[i]).reads_back((levels - 1) as nat),
            JsonView::Object(fields) => levels > 0 && forall|name: Seq<char>| #[trigger]
                fields.dom().contains(name) ==> fields[name].reads_back((levels - 1) as nat),
            _ => true,
        }
    }
}

/// A field of an object that reads back does so too, one level below.
pub proof fn field_reads_back(object: JsonView, name: Seq<char>, levels: nat)
    requires
        object.reads_back(levels),
        object.get(name) is Some,
    ensures
        levels > 0,
        object.get(name)->0.reads_back((levels - 1) as nat),
{
    assert(object->Object_0.dom().contains(name));
}

/// An item of an array that reads back does so too, one level below.
pub proof fn item_reads_back(array: JsonView, index: int, levels: nat)
    requires
        array.reads_back(levels),
        array is Array,
        0 <= index < array->Array_0.len(),
    ensures
        levels > 0,
        array->Array_0[index].reads_back((levels - 1) as nat),
{
}

/// An object that reads back still does with another field put in, where what is put
/// in reads back one level below.
pub proof fn reads_back_with_field(
    fields: Map<Seq<char>, JsonView>,
    name: Seq<char>,
    value: JsonView,
    levels: nat,
)
    requires
        JsonView::Object(fields).reads_back(levels),
        value.reads_back((levels - 1) as nat),
    ensures
        JsonView::Object(fields.insert(name, value)).reads_back(levels),
{
    let grown = fields.insert(name, value);
    assert forall|other: Seq<char>| #[trigger]
        grown.dom().contains(other) implies grown[other].reads_back((levels - 1) as nat) by {
        if other != name {
            field_reads_back(JsonView::Object(fields), other, levels);
        }
    }
}

/// How deep objects and arrays may stand inside each other in a text that is
/// read.
pub const NESTING_LIMIT: usize = 127;

/// An integer in decimal, with a minus sign where it is below zero.
pub open spec fn signed_decimal(number: int) -> Seq<char> {
    if number < 0 {
        "-"@ + text::decimal((-number) as nat)
    } else {
        text::decimal(number as nat)
    }
}

/// Whether JSON writes every character of `string` as it is.
pub open spec fn needs_no_escape(string: Seq<char>) -> bool {
    forall|i: int|
        0 <= i < string.len() ==> {
            let ch = #[trigger] string[i];
            ' ' <= ch && ch != '"' && ch != '\\'
        }
}

/// What the compact text of a value is like: one line without control
/// characters; known for `null`, for a `bool`, for an integer and for a string
/// that needs no escape; with a first character that tells strings and numbers
/// apart; and read back as the value, unless there is a float in it or it is
/// nested too deep.
pub open spec fn line_fits(line: Seq<char>, value: JsonView) -> bool {
    &&& forall|i: int| 0 <= i < line.len() ==> ' ' <= #[trigger] line[i]
    &&& value is Null ==> line == "null"@
    &&& value matches JsonView::Bool(flag) ==> line == (if flag {
        "true"@
    } else {
        "false"@
    })
    &&& value matches JsonView::Int(number) ==> line == signed_decimal(number)
    &&& value matches JsonView::Float(number) ==> line == number && number.len() > 0 && number[0]
        != '"'
    &&& value matches JsonView::Str(string) ==> {
        &&& line.len() > 0
        &&& line[0] == '"'
        &&& needs_no_escape(string) ==> line == "\""@ + string + "\""@
    }
    &&& value.reads_back(NESTING_LIMIT as nat) ==> json_parsed(line) == Some(value)
}

/// Whether `line` is the compact text of `value`.
pub open spec fn is_line_of(line: Seq<char>, value: JsonView) -> bool {
    line == json_text(value) && line_fits(line, value)
}

/// `<serde_json::Value as ToString>::to_string`, which writes the compact text
/// of the value: no control character is left unescaped in it, and reading it
/// gives the value back where the value holds no float and is not nested deeper
/// than the reader follows.
#[verifier::external_body]
fn value_text(value: &serde_json::Value) -> (line: String)
    ensures
        line@ == json_text(value_view(*value)),
        line_fits(line@, value_view(*value)),
{
    value.to_string()
}

/// `serde_json::to_string_pretty`, which for a `serde_json::Value` always
/// succeeds.
#[verifier::external_body]
fn value_pretty_text(value: &serde_json::Value) -> (pretty: Option<String>)
    ensures
        pretty is Some,
        pretty->0@ == json_pretty_text(value_view(*value)),
{
    serde_json::to_string_pretty(value).ok()
}

/// `serde_json::from_str`, read into a `serde_json::Value`.
#[verifier::external_body]
fn parse_value(text: &str) -> (value: Option<serde_json::Value>)
    ensures
        match value {
            Some(read) => json_parsed(text@) == Some(value_view(read)),
            None => json_parsed(text@) is None,
        },
{
    serde_json::from_str(text).ok()
}

/// A JSON number that is no integer.
#[derive(Debug, PartialEq)]
pub struct JsonFloat {
    value: serde_json::Value,
}

impl JsonFloat {
    #[verifier::type_invariant]
    spec fn holds_float(self) -> bool {
        value_view(self.value) is Float
    }

    /// The JSON text of the number.
    pub closed spec fn float_text(self) -> Seq<char> {
        value_view(self.value)->Float_0
    }
}

/// An integer below zero.
#[derive(Debug, Clone, Copy, PartialEq, Eq)]
pub struct NegativeInt {
    value: i64,
}

impl NegativeInt {
    #[verifier::type_invariant]
    spec fn is_negative(self) -> bool {
        self.value < 0
    }

    /// The integer.
    pub closed spec fn number(self) -> int {
        self.value as int
    }
}

/// A JSON value. An integer from zero up is always `Unsigned`, so that equal integers
/// are equal values.
#[derive(Debug, PartialEq)]
pub enum Json {
    Null,
    Bool(bool),
    Unsigned(u64),
    Negative(NegativeInt),
    Float(JsonFloat),
    Str(String),
    Array(Vec<Json>),
    Object(NameMap<Json>),
}

impl View for Json {
    type V = JsonView;

    open spec fn view(&self) -> JsonView {
        json_view(*self)
    }
}

/// What `json` holds.
pub open spec fn json_view(json: Json) -> JsonView
    decreases json, 0nat,
{
    match json {
        Json::Null => JsonView::Null,
        Json::Bool(flag) => JsonView::Bool(flag),
        Json::Unsigned(number) => JsonView::Int(number as int),
        Json::Negative(negative) => JsonView::Int(negative.number()),
        Json::Float(float) => JsonView::Float(float.float_text()),
        Json::Str(string) => JsonView::Str(string@),
        Json::Array(items) => JsonView::Array(items_view(items@)),
        Json::Object(fields) => JsonView::Object(
            fields_view(fields, fields.entry_seq().len()),
        ),
    }
}

/// What the items of an array hold.
pub open spec fn items_view(items: Seq<Json>) -> Seq<JsonView>
    decreases items, 0nat,
{
    if items.len() == 0 {
        Seq::empty()
    } else {
        items_view(items.drop_last()).push(json_view(items.last()))
    }
}

/// What the first `count` fields of an object hold.
pub open spec fn fields_view(fields: NameMap<Json>, count: nat) -> Map<Seq<char>, JsonView>
    decreases fields, count,
{
    if count == 0 || count > fields.entry_seq().len() {
        Map::empty()
    } else {
        let (name, value) = fields.entry_seq()[count - 1];
        proof {
            fields.value_is_part(count - 1);
        }
        fields_view(fields, (count - 1) as nat).insert(name, json_view(value))
    }
}

/// One level of a JSON value, with the values below it as `serde_json` has them.
enum JsonLevel {
    Null,
    Bool(bool),
    Unsigned(u64),
    Signed(i64),
    Float(serde_json::Value),
    Str(String),
    Array(Vec<serde_json::Value>),
    Object(Vec<(String, serde_json::Value)>),
}

impl JsonLevel {
    /// What the value with this top level holds.
    spec fn level_view(self) -> JsonView {
        match self {
            JsonLevel::Null => JsonView::Null,
            JsonLevel::Bool(flag) => JsonView::Bool(flag),
            JsonLevel::Unsigned(number) => JsonView::Int(number as int),
            JsonLevel::Signed(number) => JsonView::Int(number as int),
            JsonLevel::Float(value) => value_view(value),
            JsonLevel::Str(string) => JsonView::Str(string@),
            JsonLevel::Array(items) => JsonView::Array(
                items@.map_values(|item: serde_json::Value| value_view(item)),
            ),
            JsonLevel::Object(fields) => JsonView::Object(
                names::map_of(names::named(fields@)).map_values(
                    |field: serde_json::Value| value_view(field),
                ),
            ),
        }
    }

    /// Field names stand in order, none of them twice, and a number taken for a
    /// float is no integer.
    spec fn well_formed(self) -> bool {
        match self {
            JsonLevel::Float(value) => value_view(value) is Float,
            JsonLevel::Object(fields) => names::in_order(names::named(fields@)),
            _ => true,
        }
    }
}

/// The constructors of `serde_json::Value`: the value with the given top level
/// holds what that level and the values below it hold.
#[verifier::external_body]
fn assemble(level: JsonLevel) -> (value: serde_json::Value)
    requires
        level.well_formed(),
    ensures
        value_view(value) == level.level_view(),
{
    match level {
        JsonLevel::Null => serde_json::Value::Null,
        JsonLevel::Bool(flag) => serde_json::Value::from(flag),
        JsonLevel::Unsigned(number) => serde_json::Value::from(number),
        JsonLevel::Signed(number) => serde_json::Value::from(number),
        JsonLevel::Float(value) => value,
        JsonLevel::Str(string) => serde_json::Value::from(string),
        JsonLevel::Array(items) => serde_json::Value::Array(items),
        JsonLevel::Object(fields) => serde_json::Value::Object(fields.into_iter().collect()),
    }
}

/// The variants of `serde_json::Value`, told apart: the level that comes out
/// holds what the value held. The fields of an object come in the order of their
/// names.
#[verifier::external_body]
fn take_apart(value: serde_json::Value) -> (level: JsonLevel)
    ensures
        level.level_view() == value_view(value),
        level.well_formed(),
{
    match value {
        serde_json::Value::Null => JsonLevel::Null,
        serde_json::Value::Bool(flag) => JsonLevel::Bool(flag),
        serde_json::Value::Number(number) => match (number.as_u64(), number.as_i64()) {
            (Some(unsigned), _) => JsonLevel::Unsigned(unsigned),
            (None, Some(signed)) => JsonLevel::Signed(signed),
            (None, None) => JsonLevel::Float(serde_json::Value::Number(number)),
        },
        serde_json::Value::String(string) => JsonLevel::Str(string),
        serde_json::Value::Array(items) => JsonLevel::Array(items),
        serde_json::Value::Object(fields) => JsonLevel::Object(fields.into_iter().collect()),
    }
}

/// `<serde_json::Value as Clone>::clone`: the copy holds what the value holds.
#[verifier::external_body]
fn copy_value(value: &serde_json::Value) -> (copy: serde_json::Value)
    ensures
        value_view(copy) == value_view(*value),
{
    value.clone()
}

/// An array holds what its items hold, item by item.
pub proof fn items_view_index(items: Seq<Json>)
    ensures
        items_view(items).len() == items.len(),
        forall|i: int| 0 <= i < items.len() ==> #[trigger] items_view(items)[i] == json_view(items[i]),
    decreases items.len(),
{
    if items.len() > 0 {
        items_view_index(items.drop_last());
    }
}

/// What the values of a map hold, name by name.
pub open spec fn field_map(fields: Map<Seq<char>, Json>) -> Map<Seq<char>, JsonView> {
    fields.map_values(|field: Json| json_view(field))
}

/// A field put into a map is put into what the map holds.
pub proof fn field_map_insert(fields: Map<Seq<char>, Json>, name: Seq<char>, field: Json)
    ensures
        field_map(fields.insert(name, field)) == field_map(fields).insert(name, json_view(field)),
{
    assert(field_map(fields.insert(name, field)) =~= field_map(fields).insert(
        name,
        json_view(field),
    ));
}

/// An object holds what its fields hold, name by name.
pub proof fn object_view(fields: NameMap<Json>)
    ensures
        json_view(Json::Object(fields)) == JsonView::Object(field_map(fields@)),
{
    fields_view_map(fields, fields.entry_seq().len());
    assert(fields.entry_seq().take(fields.entry_seq().len() as int) =~= fields.entry_seq());
}

proof fn fields_view_map(fields: NameMap<Json>, count: nat)
    requires
        count <= fields.entry_seq().len(),
    ensures
        fields_view(fields, count) == field_map(
            names::map_of(fields.entry_seq().take(count as int)),
        ),
    decreases count,
{
    let entries = fields.entry_seq();
    if count == 0 {
        assert(fields_view(fields, count) =~= field_map(names::map_of(entries.take(0))));
    } else {
        fields_view_map(fields, (count - 1) as nat);
        assert(entries.take(count as int).drop_last() =~= entries.take(count - 1));
        assert(fields_view(fields, count) =~= field_map(names::map_of(entries.take(count as int))));
    }
}

impl Clone for JsonFloat {
    fn clone(&self) -> (copy: Self)
        ensures
            copy.float_text() == self.float_text(),
    {
        proof {
            use_type_invariant(&*self);
        }
        JsonFloat { value: copy_value(&self.value) }
    }
}

impl Clone for Json {
    fn clone(&self) -> (copy: Self)
        ensures
            copy@ == self@,
        decreases self, 1nat,
    {
        match self {
            Json::Null => Json::Null,
            Json::Bool(flag) => Json::Bool(*flag),
            Json::Unsigned(number) => Json::Unsigned(*number),
            Json::Negative(negative) => Json::Negative(*negative),
            Json::Float(float) => Json::Float(float.clone()),
            Json::Str(string) => Json::Str(string.clone()),
            Json::Array(items) => {
                let copies = copy_items(items);
                Json::Array(copies)
            },
            Json::Object(fields) => {
                let copies = copy_fields(fields);
                proof {
                    object_view(*fields);
                    object_view(copies);
                }
                Json::Object(copies)
            },
        }
    }
}

/// A copy of the items of an array.
fn copy_items(items: &Vec<Json>) -> (copies: Vec<Json>)
    ensures
        items_view(copies@) == items_view(items@),
    decreases items, 0nat,
{
    let mut copies: Vec<Json> = Vec::new();
    let mut i: usize = 0;
    while i < items.len()
        invariant
            i <= items.len(),
            copies.len() == i,
            forall|j: int| 0 <= j < i ==> json_view(#[trigger] copies@[j]) == json_view(items@[j]),
        decreases items.len() - i,
    {
        proof {
            assert(decreases_to!(items => items@));
            assert(decreases_to!(items@ => items@[i as int]));
        }
        let copy = items[i].clone();
        proof {
            assert(json_view(copy) == json_view(items@[i as int]));
        }
        copies.push(copy);
        i = i + 1;
    }
    proof {
        items_view_index(items@);
        items_view_index(copies@);
        assert(items_view(copies@) =~= items_view(items@));
    }
    copies
}

/// A copy of the fields of an object.
fn copy_fields(fields: &NameMap<Json>) -> (copies: NameMap<Json>)
    ensures
        field_map(copies@) == field_map(fields@),
    decreases fields, 0nat,
{
    let mut copies: NameMap<Json> = NameMap::new();
    let mut i: usize = 0;
    let count = fields.len();
    let ghost entries = fields.entry_seq();
    proof {
        assert(field_map(copies@) =~= field_map(names::map_of(entries.take(0))));
    }
    while i < count
        invariant
            i <= count,
            count == entries.len(),
            entries == fields.entry_seq(),
            field_map(copies@) == field_map(names::map_of(entries.take(i as int))),
        decreases count - i,
    {
        proof {
            fields.value_is_part(i as int);
        }
        let copy = fields.value_at(i).clone();
        proof {
            assert(json_view(copy) == json_view(entries[i as int].1));
        }
        proof {
            let (name, field) = entries[i as int];
            assert(entries.take(i + 1).drop_last() =~= entries.take(i as int));
            field_map_insert(names::map_of(entries.take(i as int)), name, field);
            field_map_insert(copies@, name, copy);
        }
        copies.insert(fields.name_at(i).to_owned(), copy);
        i = i + 1;
    }
    proof {
        assert(entries.take(i as int) =~= entries);
    }
    copies
}

/// Two field sequences with the same names, whose values hold the same, describe
/// objects that hold the same.
proof fn same_fields(values: Seq<(Seq<char>, serde_json::Value)>, fields: Seq<(Seq<char>, Json)>)
    requires
        values.len() == fields.len(),
        forall|i: int|
            0 <= i < fields.len() ==> (#[trigger] values[i]).0 == fields[i].0 && value_view(values[i].1)
                == json_view(fields[i].1),
    ensures
        names::map_of(values).map_values(|value: serde_json::Value| value_view(value))
            == field_map(names::map_of(fields)),
    decreases values.len(),
{
    let view = |value: serde_json::Value| value_view(value);
    if values.len() == 0 {
        assert(names::map_of(values).map_values(view) =~= field_map(names::map_of(fields)));
    } else {
        same_fields(values.drop_last(), fields.drop_last());
        assert(values[values.len() - 1].0 == fields[fields.len() - 1].0);
        field_map_insert(names::map_of(fields.drop_last()), fields.last().0, fields.last().1);
        assert(names::map_of(values).map_values(view) =~= names::map_of(
            values.drop_last(),
        ).map_values(view).insert(values.last().0, value_view(values.last().1)));
    }
}

impl Json {
    /// The value as `serde_json` has it.
    fn to_value(&self) -> (value: serde_json::Value)
        ensures
            value_view(value) == self@,
        decreases self, 1nat,
    {
        match self {
            Json::Null => assemble(JsonLevel::Null),
            Json::Bool(flag) => assemble(JsonLevel::Bool(*flag)),
            Json::Unsigned(number) => assemble(JsonLevel::Unsigned(*number)),
            Json::Negative(negative) => assemble(JsonLevel::Signed(negative.value)),
            Json::Float(float) => {
                proof {
                    use_type_invariant(float);
                }
                assemble(JsonLevel::Float(copy_value(&float.value)))
            },
            Json::Str(string) => assemble(JsonLevel::Str(string.clone())),
            Json::Array(items) => Self::items_to_value(items),
            Json::Object(fields) => Self::fields_to_value(fields),
        }
    }

    fn items_to_value(items: &Vec<Json>) -> (value: serde_json::Value)
        ensures
            value_view(value) == JsonView::Array(items_view(items@)),
        decreases items, 0nat,
    {
        let mut values: Vec<serde_json::Value> = Vec::new();
        let mut i: usize = 0;
        while i < items.len()
            invariant
                i <= items.len(),
                values.len() == i,
                forall|j: int| 0 <= j < i ==> value_view(#[trigger] values@[j]) == json_view(items@[j]),
            decreases items.len() - i,
        {
            proof {
                assert(decreases_to!(items => items@));
                assert(decreases_to!(items@ => items@[i as int]));
            }
            let value = items[i].to_value();
            proof {
                assert(value_view(value) == json_view(items@[i as int]));
            }
            values.push(value);
            i = i + 1;
        }
        proof {
            items_view_index(items@);
            assert(values@.map_values(|item: serde_json::Value| value_view(item)) =~= items_view(
                items@,
            ));
        }
        assemble(JsonLevel::Array(values))
    }

    fn fields_to_value(fields: &NameMap<Json>) -> (value: serde_json::Value)
        ensures
            value_view(value) == json_view(Json::Object(*fields)),
        decreases fields, 0nat,
    {
        let mut values: Vec<(String, serde_json::Value)> = Vec::new();
        let count = fields.len();
        let ghost entries = fields.entry_seq();
        let mut i: usize = 0;
        while i < count
            invariant
                i <= count,
                count == entries.len(),
                entries == fields.entry_seq(),
                values.len() == i,
                forall|j: int|
                    0 <= j < i ==> (#[trigger] values@[j]).0@ == entries[j].0 && value_view(
                        values@[j].1,
                    ) == json_view(entries[j].1),
            decreases count - i,
        {
            proof {
                fields.value_is_part(i as int);
            }
            let value = fields.value_at(i).to_value();
            proof {
                assert(value_view(value) == json_view(entries[i as int].1));
            }
            values.push((fields.name_at(i).to_owned(), value));
            i = i + 1;
        }
        proof {
            let named_values = names::named(values@);
            assert forall|a: int, b: int| 0 <= a < b < named_values.len() implies text::text_less(
                #[trigger] named_values[a].0,
                #[trigger] named_values[b].0,
            ) by {
                assert(text::text_less(entries[a].0, entries[b].0));
            }
            same_fields(named_values, entries);
            object_view(*fields);
        }
        assemble(JsonLevel::Object(values))
    }

    /// The value that `serde_json` has as `value`.
    fn from_value(value: serde_json::Value) -> (json: Json)
        ensures
            json@ == value_view(value),
        decreases value_view(value), 1nat,
    {
        match take_apart(value) {
            JsonLevel::Null => Json::Null,
            JsonLevel::Bool(flag) => Json::Bool(flag),
            JsonLevel::Unsigned(number) => Json::Unsigned(number),
            JsonLevel::Signed(number) => Json::integer(number),
            JsonLevel::Float(float) => Json::Float(JsonFloat { value: float }),
            JsonLevel::Str(string) => Json::Str(string),
            JsonLevel::Array(items) => {
                let ghost view = value_view(value);
                let ghost values = items@;
                let mut converted: Vec<Json> = Vec::new();
                for item in iter: items
                    invariant
                        view == JsonView::Array(
                            values.map_values(|item: serde_json::Value| value_view(item)),
                        ),
                        view == value_view(value),
                        iter.seq() == values,
                        converted.len() == iter.index(),
                        forall|j: int|
                            0 <= j < iter.index() ==> json_view(#[trigger] converted@[j])
                                == value_view(values[j]),
                {
                    proof {
                        let i = iter.index() as int;
                        assert(decreases_to!(view => view->Array_0));
                        assert(decreases_to!(view->Array_0 => view->Array_0[i]));
                    }
                    let json = Self::from_value(item);
                    proof {
                        assert(json_view(json) == value_view(item));
                    }
                    converted.push(json);
                }
                proof {
                    items_view_index(converted@);
                    assert(items_view(converted@) =~= view->Array_0);
                }
                Json::Array(converted)
            },
            JsonLevel::Object(fields) => {
                let ghost view = value_view(value);
                let ghost values = names::named(fields@);
                let ghost raw = fields@;
                let mut converted: NameMap<Json> = NameMap::new();
                let ghost mut done: Seq<(Seq<char>, Json)> = Seq::empty();
                proof {
                    assert(names::map_of(done) =~= Map::empty());
                }
                for field in iter: fields
                    invariant
                        view == JsonView::Object(
                            names::map_of(values).map_values(
                                |field: serde_json::Value| value_view(field),
                            ),
                        ),
                        view == value_view(value),
                        values == names::named(raw),
                        names::in_order(values),
                        iter.seq() == raw,
                        done.len() == iter.index(),
                        converted@ == names::map_of(done),
                        forall|j: int|
                            0 <= j < iter.index() ==> values[j].0 == (#[trigger] done[j]).0
                                && value_view(values[j].1) == json_view(done[j].1),
                {
                    proof {
                        let i = iter.index() as int;
                        names::map_of_entry(values, i);
                        names::map_of_finite(values);
                        assert(view->Object_0.dom() =~= names::map_of(values).dom());
                        assert(decreases_to!(view => view->Object_0));
                        assert(view->Object_0[values[i].0] == value_view(values[i].1));
                        assert(decreases_to!(view->Object_0 => view->Object_0[values[i].0]));
                    }
                    let (name, item) = field;
                    let json = Self::from_value(item);
                    proof {
                        assert(json_view(json) == value_view(item));
                        let grown = done.push((name@, json));
                        assert(grown.drop_last() =~= done);
                        done = grown;
                    }
                    converted.insert(name, json);
                }
                proof {
                    same_fields(values, done);
                    object_view(converted);
                }
                Json::Object(converted)
            },
        }
    }
}

impl Json {
    /// A JSON string.
    pub fn string(text: &str) -> (json: Json)
        ensures
            json@ == JsonView::Str(text@),
    {
        Json::Str(text.to_owned())
    }

    /// A JSON integer.
    pub fn integer(number: i64) -> (json: Json)
        ensures
            json@ == JsonView::Int(number as int),
    {
        if number >= 0 {
            Json::Unsigned(number as u64)
        } else {
            Json::Negative(NegativeInt { value: number })
        }
    }

    /// The compact JSON text of the value.
    pub fn to_line(&self) -> (line: String)
        ensures
            is_line_of(line@, self@),
    {
        value_text(&self.to_value())
    }

    /// The pretty JSON text of the value.
    pub fn to_pretty(&self) -> (pretty: Option<String>)
        ensures
            pretty is Some,
            pretty->0@ == json_pretty_text(self@),
    {
        value_pretty_text(&self.to_value())
    }

    /// The value that `text` describes; `None` where it is not JSON.
    pub fn parse(text: &str) -> (json: Option<Json>)
        ensures
            match json {
                Some(read) => json_parsed(text@) == Some(read@),
                None => json_parsed(text@) is None,
            },
    {
        match parse_value(text) {
            Some(value) => Some(Self::from_value(value)),
            None => None,
        }
    }

    /// The field `key` of an object; `None` where there is none, or no object.
    pub fn get(&self, key: &str) -> (field: Option<&Json>)
        ensures
            match field {
                Some(found) => self@.get(key@) == Some(found@),
                None => self@.get(key@) is None,
            },
    {
        match self {
            Json::Object(fields) => {
                proof {
                    object_view(*fields);
                }
                fields.get(key)
            },
            _ => None,
        }
    }

    /// The text of a string; `None` for any other value.
    pub fn as_str(&self) -> (string: Option<&str>)
        ensures
            match string {
                Some(text) => self@.as_str() == Some(text@),
                None => self@.as_str() is None,
            },
    {
        match self {
            Json::Str(string) => Some(string.as_str()),
            _ => None,
        }
    }

    /// An integer that an `i64` can hold; `None` for any other value.
    pub fn as_i64(&self) -> (number: Option<i64>)
        ensures
            match number {
                Some(found) => self@.as_i64() == Some(found as int),
                None => self@.as_i64() is None,
            },
    {
        match self {
            Json::Unsigned(number) => if *number <= i64::MAX as u64 {
                Some(*number as i64)
            } else {
                None
            },
            Json::Negative(negative) => Some(negative.value),
            _ => None,
        }
    }

    /// An integer that a `u64` can hold; `None` for any other value.
    pub fn as_u64(&self) -> (number: Option<u64>)
        ensures
            match number {
                Some(found) => self@.as_u64() == Some(found as int),
                None => self@.as_u64() is None,
            },
    {
        match self {
            Json::Unsigned(number) => Some(*number),
            Json::Negative(negative) => {
                proof {
                    use_type_invariant(negative);
                }
                None
            },
            _ => None,
        }
    }

    /// The items of an array; `None` for any other value.
    pub fn as_array(&self) -> (items: Option<&Vec<Json>>)
        ensures
            match items {
                Some(found) => self@.as_array() == Some(items_view(found@)),
                None => self@.as_array() is None,
            },
    {
        match self {
            Json::Array(items) => Some(items),
            _ => None,
        }
    }

    /// Whether the value is an object.
    pub fn is_object(&self) -> (object: bool)
        ensures
            object == (self@ is Object),
    {
        matches!(self, Json::Object(_))
    }

    /// Whether the value is `null`.
    pub fn is_null(&self) -> (null: bool)
        ensures
            null == (self@ is Null),
    {
        matches!(self, Json::Null)
    }
}

/// Puts a field into an object under construction.
pub fn put(fields: &mut NameMap<Json>, name: &str, value: Json)
    ensures
        field_map(final(fields)@) == field_map(old(fields)@).insert(name@, value@),
{
    proof {
        field_map_insert(fields@, name@, value);
    }
    fields.insert(name.to_owned(), value);
}

/// An object without fields.
pub fn no_fields() -> (fields: NameMap<Json>)
    ensures
        field_map(fields@) == Map::<Seq<char>, JsonView>::empty(),
{
    let fields: NameMap<Json> = NameMap::new();
    proof {
        assert(field_map(fields@) =~= Map::<Seq<char>, JsonView>::empty());
    }
    fields
}

/// What an optional value holds.
pub open spec fn held(value: Option<Json>) -> Option<JsonView> {
    match value {
        Some(json) => Some(json@),
        None => None,
    }
}

} // verus!
