//! Text as sequences of characters: the string operations that the rest of the
//! library builds its messages and its decisions from.

use vstd::prelude::*;

verus! {

/// `String::push`, which appends one character at the end.
pub assume_specification[ String::push ](string: &mut String, ch: char)
    ensures
        final(string)@ == old(string)@.push(ch),
;

/// The characters of `text`, in order.
pub fn chars_of(text: &str) -> (chars: Vec<char>)
    ensures
        chars@ == text@,
{
    let mut chars: Vec<char> = Vec::new();
    for ch in iter: text.chars()
        invariant
            chars@ == text@.take(iter.index() as int),
            iter.seq() == text@,
    {
        chars.push(ch);
        proof {
            assert(text@.take(iter.index() as int + 1) =~= text@.take(iter.index() as int).push(ch));
        }
    }
    proof {
        assert(text@.take(text@.len() as int) =~= text@);
    }
    chars
}

/// The text of an optional string.
pub open spec fn text_of(value: Option<String>) -> Option<Seq<char>> {
    match value {
        Some(string) => Some(string@),
        None => None,
    }
}

/// Whether two texts hold the same characters.
pub fn same_text(left: &str, right: &str) -> (same: bool)
    ensures
        same == (left@ == right@),
{
    let left_chars = chars_of(left);
    let right_chars = chars_of(right);
    same_chars(&left_chars, &right_chars)
}

/// Whether two character vectors are equal.
fn same_chars(left: &Vec<char>, right: &Vec<char>) -> (same: bool)
    ensures
        same == (left@ == right@),
{
    if left.len() != right.len() {
        return false;
    }
    let mut i: usize = 0;
    while i < left.len()
        invariant
            i <= left.len(),
            left.len() == right.len(),
            left@.take(i as int) == right@.take(i as int),
        decreases left.len() - i,
    {
        if left[i] != right[i] {
            return false;
        }
        i = i + 1;
        proof {
            assert(left@.take(i as int) =~= left@.take(i - 1).push(left@[i - 1]));
            assert(right@.take(i as int) =~= right@.take(i - 1).push(right@[i - 1]));
        }
    }
    proof {
        assert(left@.take(i as int) =~= left@);
        assert(right@.take(i as int) =~= right@);
    }
    true
}

/// The lexicographic order of texts by code point, in which names are kept.
pub open spec fn text_less(left: Seq<char>, right: Seq<char>) -> bool
    decreases left.len(),
{
    if right.len() == 0 {
        false
    } else if left.len() == 0 {
        true
    } else if left[0] != right[0] {
        left[0] < right[0]
    } else {
        text_less(left.drop_first(), right.drop_first())
    }
}

/// No text is before itself.
pub proof fn text_less_irreflexive(text: Seq<char>)
    ensures
        !text_less(text, text),
    decreases text.len(),
{
    if text.len() > 0 {
        text_less_irreflexive(text.drop_first());
    }
}

/// `text_less` is transitive.
pub proof fn text_less_transitive(a: Seq<char>, b: Seq<char>, c: Seq<char>)
    requires
        text_less(a, b),
        text_less(b, c),
    ensures
        text_less(a, c),
    decreases a.len(),
{
    if a.len() > 0 && a[0] == b[0] && b[0] == c[0] {
        text_less_transitive(a.drop_first(), b.drop_first(), c.drop_first());
    }
}

/// Of two different texts one is before the other.
pub proof fn text_less_total(a: Seq<char>, b: Seq<char>)
    ensures
        a == b || text_less(a, b) || text_less(b, a),
    decreases a.len(),
{
    if a.len() == 0 && b.len() == 0 {
        assert(a =~= b);
    } else if a.len() > 0 && b.len() > 0 && a[0] == b[0] {
        text_less_total(a.drop_first(), b.drop_first());
        if a.drop_first() == b.drop_first() {
            assert(a =~= seq![a[0]] + a.drop_first());
            assert(b =~= seq![b[0]] + b.drop_first());
        }
    }
}

/// Whether `left` is before `right` in the order of names.
pub fn is_before(left: &str, right: &str) -> (before: bool)
    ensures
        before == text_less(left@, right@),
{
    let left_chars = chars_of(left);
    let right_chars = chars_of(right);
    let mut i: usize = 0;
    proof {
        assert(left@.skip(0) =~= left@);
        assert(right@.skip(0) =~= right@);
    }
    while i < left_chars.len() && i < right_chars.len()
        invariant
            i <= left_chars.len(),
            i <= right_chars.len(),
            left_chars@ == left@,
            right_chars@ == right@,
            text_less(left@, right@) == text_less(left@.skip(i as int), right@.skip(i as int)),
        decreases left_chars.len() - i,
    {
        if left_chars[i] != right_chars[i] {
            return left_chars[i] < right_chars[i];
        }
        proof {
            assert(left@.skip(i as int).drop_first() =~= left@.skip(i + 1));
            assert(right@.skip(i as int).drop_first() =~= right@.skip(i + 1));
        }
        i = i + 1;
    }
    i < right_chars.len()
}

/// The lower-case form of an ASCII capital letter; any other character as it is.
pub open spec fn ascii_lower(ch: char) -> char {
    if 'A' <= ch && ch <= 'Z' {
        (ch as u32 + 32) as char
    } else {
        ch
    }
}

/// `text` with its ASCII capital letters in lower case.
pub open spec fn ascii_lowered(text: Seq<char>) -> Seq<char> {
    text.map_values(|ch: char| ascii_lower(ch))
}

fn lower_char(ch: char) -> (lower: char)
    ensures
        lower == ascii_lower(ch),
{
    if 'A' <= ch && ch <= 'Z' {
        (ch as u8 + 32) as char
    } else {
        ch
    }
}

/// A copy of `text` with its ASCII capital letters in lower case.
pub fn to_ascii_lower(text: &str) -> (lowered: String)
    ensures
        lowered@ == ascii_lowered(text@),
{
    let chars = chars_of(text);
    let mut lowered = String::new();
    let mut i: usize = 0;
    while i < chars.len()
        invariant
            i <= chars.len(),
            chars@ == text@,
            lowered@ == ascii_lowered(text@.take(i as int)),
        decreases chars.len() - i,
    {
        lowered.push(lower_char(chars[i]));
        i = i + 1;
        proof {
            assert(ascii_lowered(text@.take(i as int)) =~= ascii_lowered(text@.take(i - 1)).push(
                ascii_lower(text@[i - 1]),
            ));
        }
    }
    proof {
        assert(text@.take(i as int) =~= text@);
    }
    lowered
}

/// Whether two texts are equal once ASCII letters are compared without case.
pub fn same_ignoring_ascii_case(left: &str, right: &str) -> (same: bool)
    ensures
        same == (ascii_lowered(left@) == ascii_lowered(right@)),
{
    let left_lower = to_ascii_lower(left);
    let right_lower = to_ascii_lower(right);
    left_lower == right_lower
}

/// The characters with the Unicode property White_Space.
pub open spec fn is_white_space(ch: char) -> bool {
    let code = ch as u32;
    ||| 0x9 <= code <= 0xd
    ||| code == 0x20
    ||| code == 0x85
    ||| code == 0xa0
    ||| code == 0x1680
    ||| 0x2000 <= code <= 0x200a
    ||| code == 0x2028
    ||| code == 0x2029
    ||| code == 0x202f
    ||| code == 0x205f
    ||| code == 0x3000
}

fn char_is_white_space(ch: char) -> (white: bool)
    ensures
        white == is_white_space(ch),
{
    let code: u32 = ch as u32;
    (0x9 <= code && code <= 0xd) || code == 0x20 || code == 0x85 || code == 0xa0 || code == 0x1680
        || (0x2000 <= code && code <= 0x200a) || code == 0x2028 || code == 0x2029 || code == 0x202f
        || code == 0x205f || code == 0x3000
}

/// `text` without the white space at its start.
pub open spec fn trimmed_start(text: Seq<char>) -> Seq<char>
    decreases text.len(),
{
    if text.len() > 0 && is_white_space(text[0]) {
        trimmed_start(text.drop_first())
    } else {
        text
    }
}

/// `text` without the white space at its end.
pub open spec fn trimmed_end(text: Seq<char>) -> Seq<char>
    decreases text.len(),
{
    if text.len() > 0 && is_white_space(text.last()) {
        trimmed_end(text.drop_last())
    } else {
        text
    }
}

/// `text` without the white space at its two ends.
pub open spec fn trimmed(text: Seq<char>) -> Seq<char> {
    trimmed_end(trimmed_start(text))
}

/// A copy of `text` without the white space at its two ends.
pub fn trim(text: &str) -> (result: String)
    ensures
        result@ == trimmed(text@),
{
    let chars = chars_of(text);
    let mut start: usize = 0;
    proof {
        assert(text@.skip(0) =~= text@);
    }
    while start < chars.len() && char_is_white_space(chars[start])
        invariant
            start <= chars.len(),
            chars@ == text@,
            trimmed_start(text@) == trimmed_start(text@.skip(start as int)),
        decreases chars.len() - start,
    {
        proof {
            assert(text@.skip(start as int).drop_first() =~= text@.skip(start + 1));
        }
        start = start + 1;
    }
    let ghost rest = text@.skip(start as int);
    assert(trimmed_start(text@) == rest);
    let mut end: usize = chars.len();
    proof {
        assert(text@.subrange(start as int, end as int) =~= rest);
    }
    while start < end && char_is_white_space(chars[end - 1])
        invariant
            start <= end <= chars.len(),
            chars@ == text@,
            trimmed_end(rest) == trimmed_end(text@.subrange(start as int, end as int)),
        decreases end,
    {
        proof {
            assert(text@.subrange(start as int, end as int).drop_last() =~= text@.subrange(
                start as int,
                end - 1,
            ));
        }
        end = end - 1;
    }
    let ghost kept = text@.subrange(start as int, end as int);
    assert(trimmed_end(rest) == kept);
    let mut result = String::new();
    let mut i: usize = start;
    while i < end
        invariant
            start <= i <= end <= chars.len(),
            chars@ == text@,
            result@ == text@.subrange(start as int, i as int),
        decreases end - i,
    {
        result.push(chars[i]);
        i = i + 1;
        proof {
            assert(text@.subrange(start as int, i as int) =~= text@.subrange(
                start as int,
                i - 1,
            ).push(text@[i - 1]));
        }
    }
    result
}

/// Whether `needle` stands somewhere inside `text`.
pub open spec fn occurs_in(needle: Seq<char>, text: Seq<char>) -> bool {
    exists|at: int|
        0 <= at <= text.len() - needle.len() && #[trigger] text.subrange(at, at + needle.len())
            == needle
}

/// Whether `needle` stands somewhere inside `text`.
pub fn contains(text: &str, needle: &str) -> (found: bool)
    ensures
        found == occurs_in(needle@, text@),
{
    let text_chars = chars_of(text);
    let needle_chars = chars_of(needle);
    if needle_chars.len() > text_chars.len() {
        return false;
    }
    let last: usize = text_chars.len() - needle_chars.len();
    let mut at: usize = 0;
    while at <= last
        invariant
            text_chars@ == text@,
            needle_chars@ == needle@,
            last == text@.len() - needle@.len(),
            0 <= at <= last + 1,
            forall|earlier: int|
                0 <= earlier < at ==> #[trigger] text@.subrange(earlier, earlier + needle@.len())
                    != needle@,
        decreases last + 1 - at,
    {
        if stands_at(&text_chars, &needle_chars, at) {
            return true;
        }
        if at == last {
            proof {
                assert forall|any: int|
                    0 <= any <= text@.len() - needle@.len() implies #[trigger] text@.subrange(
                    any,
                    any + needle@.len(),
                ) != needle@ by {}
            }
            return false;
        }
        at = at + 1;
    }
    false
}

fn stands_at(text: &Vec<char>, needle: &Vec<char>, at: usize) -> (found: bool)
    requires
        at + needle.len() <= text.len(),
    ensures
        found == (text@.subrange(at as int, at + needle@.len()) == needle@),
{
    let mut i: usize = 0;
    while i < needle.len()
        invariant
            i <= needle.len(),
            at + needle.len() <= text.len(),
            forall|j: int| 0 <= j < i ==> text@[at + j] == needle@[j],
        decreases needle.len() - i,
    {
        if text[at + i] != needle[i] {
            proof {
                assert(text@.subrange(at as int, at + needle@.len())[i as int] != needle@[i as int]);
            }
            return false;
        }
        i = i + 1;
    }
    proof {
        assert(text@.subrange(at as int, at + needle@.len()) =~= needle@);
    }
    true
}

/// Whether `text` starts with `prefix`.
pub fn starts_with(text: &str, prefix: &str) -> (starts: bool)
    ensures
        starts == prefix@.is_prefix_of(text@),
{
    let chars = chars_of(text);
    let start = chars_of(prefix);
    if start.len() > chars.len() {
        return false;
    }
    let mut i: usize = 0;
    while i < start.len()
        invariant
            i <= start.len() <= chars.len(),
            chars@ == text@,
            start@ == prefix@,
            forall|j: int| 0 <= j < i ==> start@[j] == chars@[j],
        decreases start.len() - i,
    {
        if start[i] != chars[i] {
            proof {
                assert(text@.subrange(0, prefix@.len() as int)[i as int] != prefix@[i as int]);
            }
            return false;
        }
        i = i + 1;
    }
    true
}

/// The decimal digit of `value`, which is below ten.
pub open spec fn digit_char(value: nat) -> char {
    (48 + value) as char
}

/// `value` written in decimal, without leading zeros.
pub open spec fn decimal(value: nat) -> Seq<char>
    decreases value,
{
    if value < 10 {
        seq![digit_char(value)]
    } else {
        decimal(value / 10).push(digit_char(value % 10))
    }
}

/// Different numbers have different decimal forms.
pub proof fn decimal_is_injective(a: nat, b: nat)
    requires
        decimal(a) == decimal(b),
    ensures
        a == b,
    decreases a,
{
    decimal_length(a);
    decimal_length(b);
    assert(decimal(a).last() == digit_char(a % 10));
    assert(decimal(b).last() == digit_char(b % 10));
    assert(digit_char(a % 10) as u32 == 48 + a % 10);
    assert(digit_char(b % 10) as u32 == 48 + b % 10);
    if a >= 10 {
        assert(decimal(a).drop_last() =~= decimal(a / 10));
        assert(decimal(b).drop_last() =~= decimal(b / 10));
        decimal_is_injective(a / 10, b / 10);
    }
}

/// A decimal form has one digit if and only if the number is below ten.
proof fn decimal_length(value: nat)
    ensures
        decimal(value).len() >= 1,
        decimal(value).len() == 1 <==> value < 10,
    decreases value,
{
    if value >= 10 {
        decimal_length(value / 10);
    }
}

/// `value` written in decimal, without leading zeros.
pub fn to_decimal(value: u64) -> (text: String)
    ensures
        text@ == decimal(value as nat),
    decreases value,
{
    let mut text = if value < 10 {
        String::new()
    } else {
        to_decimal(value / 10)
    };
    let digit: u8 = (value % 10) as u8;
    text.push((48 + digit) as char);
    proof {
        if value < 10 {
            assert(text@ =~= seq![digit_char(value as nat)]);
        }
    }
    text
}

/// `count` spaces.
pub open spec fn spaces(count: nat) -> Seq<char> {
    Seq::new(count, |i: int| ' ')
}

/// `text` filled up with spaces on the right to `width` characters; a longer
/// text as it is.
pub open spec fn padded(text: Seq<char>, width: nat) -> Seq<char> {
    if text.len() >= width {
        text
    } else {
        text + spaces((width - text.len()) as nat)
    }
}

/// `text` filled up with spaces on the right to `width` characters; a longer
/// text as it is.
pub fn pad_right(text: &str, width: usize) -> (result: String)
    ensures
        result@ == padded(text@, width as nat),
{
    let length: usize = chars_of(text).len();
    let mut result = text.to_owned();
    let mut filled: usize = length;
    proof {
        assert(text@ + spaces(0) =~= text@);
    }
    while filled < width
        invariant
            length == text@.len(),
            length <= filled,
            filled <= width || filled == length,
            result@ == text@ + spaces((filled - length) as nat),
        decreases width - filled,
    {
        result.push(' ');
        filled = filled + 1;
        proof {
            assert(text@ + spaces((filled - length) as nat) =~= (text@ + spaces(
                (filled - length - 1) as nat,
            )).push(' '));
        }
    }
    result
}

} // verus!
