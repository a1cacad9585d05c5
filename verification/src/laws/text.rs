//! What the string operations do.

use vstd::prelude::*;

verus! {

/// The order of names is that of a dictionary: one text is before another where it is
/// a part of the other's start, or where the first character in which they differ is
/// smaller.
pub proof fn names_stand_as_in_a_dictionary(left: &str, right: &str, before: bool)
    requires
        call_ensures(crate::text::is_before, (left, right), before),
    ensures
        before <==> exists|at: int|
            #![trigger left@.take(at)]
            shows_before(left@, right@, at),
{
    order_is_that_of_a_dictionary(left@, right@);
}

/// A place that shows that `left` is before `right`.
pub open spec fn shows_before(left: Seq<char>, right: Seq<char>, at: int) -> bool {
    &&& 0 <= at <= left.len()
    &&& at < right.len()
    &&& left.take(at) == right.take(at)
    &&& at == left.len() || left[at] < right[at]
}

proof fn order_is_that_of_a_dictionary(left: Seq<char>, right: Seq<char>)
    ensures
        crate::text::text_less(left, right) <==> exists|at: int|
            #![trigger left.take(at)]
            shows_before(left, right, at),
    decreases left.len(),
{
    if left.len() > 0 && right.len() > 0 && left[0] == right[0] {
        let l = left.drop_first();
        let r = right.drop_first();
        order_is_that_of_a_dictionary(l, r);
        if crate::text::text_less(left, right) {
            let at = choose|at: int| #![trigger l.take(at)] shows_before(l, r, at);
            assert(left.take(at + 1) =~= seq![left[0]] + l.take(at));
            assert(right.take(at + 1) =~= seq![right[0]] + r.take(at));
            assert(shows_before(left, right, at + 1));
        }
        if exists|at: int| #![trigger left.take(at)] shows_before(left, right, at) {
            let at = choose|at: int| #![trigger left.take(at)] shows_before(left, right, at);
            assert(l.take(at - 1) =~= left.take(at).drop_first());
            assert(r.take(at - 1) =~= right.take(at).drop_first());
            assert(shows_before(l, r, at - 1));
        }
    } else if right.len() > 0 {
        assert(left.take(0) =~= right.take(0));
        if crate::text::text_less(left, right) {
            assert(shows_before(left, right, 0));
        }
        if exists|at: int| #![trigger left.take(at)] shows_before(left, right, at) {
            let at = choose|at: int| #![trigger left.take(at)] shows_before(left, right, at);
            if at > 0 {
                assert(left.take(at)[0] == right.take(at)[0]);
            }
        }
    }
}

/// Lowering leaves the number of characters as it is. It takes `A` to `Z` to the
/// letters that stand 32 places after them, and keeps every other character.
pub proof fn lowering_changes_capitals_only(text: &str, lowered: String)
    requires
        call_ensures(crate::text::to_ascii_lower, (text,), lowered),
    ensures
        is_lowered(text@, lowered@),
{
    lowered_is_pointwise(text@);
}

/// Whether `lowered` is `text` with its ASCII capitals in lower case.
pub open spec fn is_lowered(text: Seq<char>, lowered: Seq<char>) -> bool {
    &&& lowered.len() == text.len()
    &&& forall|i: int|
        0 <= i < text.len() ==> #[trigger] lowered[i] as int == (if 'A' <= text[i] && text[i] <= 'Z' {
            text[i] as int + 32
        } else {
            text[i] as int
        })
}

/// What stands for lowering in contracts is lowering.
pub proof fn lowered_is_pointwise(text: Seq<char>)
    ensures
        is_lowered(text, crate::text::ascii_lowered(text)),
{
    let lowered = crate::text::ascii_lowered(text);
    assert forall|i: int| 0 <= i < text.len() implies #[trigger] lowered[i] as int == (if 'A'
        <= text[i] && text[i] <= 'Z' {
        text[i] as int + 32
    } else {
        text[i] as int
    }) by {
        assert(lowered[i] == crate::text::ascii_lower(text[i]));
    }
}

/// Only one text is another in lower case.
pub proof fn lowered_is_one(text: Seq<char>, a: Seq<char>, b: Seq<char>)
    requires
        is_lowered(text, a),
        is_lowered(text, b),
    ensures
        a == b,
{
    assert forall|i: int| 0 <= i < a.len() implies a[i] == b[i] by {
        assert(a[i] as int == b[i] as int);
    }
    assert(a =~= b);
}

/// Two texts are the same but for case where they are equally long and differ, place
/// by place, at most as a capital letter and its small one.
pub proof fn case_is_all_that_is_ignored(left: &str, right: &str, same: bool)
    requires
        call_ensures(crate::text::same_ignoring_ascii_case, (left, right), same),
    ensures
        same ==> left@.len() == right@.len(),
        left@ == right@ ==> same,
        forall|i: int|
            0 <= i < left@.len() && i < right@.len() && same ==> {
                ||| #[trigger] left@[i] == right@[i]
                ||| ('A' <= left@[i] <= 'Z' && right@[i] as int == left@[i] as int + 32)
                ||| ('A' <= right@[i] <= 'Z' && left@[i] as int == right@[i] as int + 32)
            },
        forall|lowered: Seq<char>|
            is_lowered(left@, lowered) ==> (same <==> #[trigger] is_lowered(right@, lowered)),
{
    lowered_is_pointwise(left@);
    lowered_is_pointwise(right@);
    let a = crate::text::ascii_lowered(left@);
    let b = crate::text::ascii_lowered(right@);
    if same {
        assert forall|i: int| 0 <= i < left@.len() && i < right@.len() implies {
            ||| #[trigger] left@[i] == right@[i]
            ||| ('A' <= left@[i] <= 'Z' && right@[i] as int == left@[i] as int + 32)
            ||| ('A' <= right@[i] <= 'Z' && left@[i] as int == right@[i] as int + 32)
        } by {
            assert(a[i] as int == b[i] as int);
            if left@[i] as int == right@[i] as int {
                assert(left@[i] == right@[i]);
            }
        }
    }
    assert forall|lowered: Seq<char>| is_lowered(left@, lowered) implies (same
        <==> #[trigger] is_lowered(right@, lowered)) by {
        lowered_is_one(left@, lowered, a);
        if is_lowered(right@, lowered) {
            lowered_is_one(right@, lowered, b);
        }
    }
}

/// Whether a character is white space, by its code point.
pub open spec fn is_blank(ch: char) -> bool {
    let code = ch as u32;
    ||| code == 0x9 || code == 0xa || code == 0xb || code == 0xc || code == 0xd || code == 0x20
    ||| code == 0x85 || code == 0xa0 || code == 0x1680
    ||| 0x2000 <= code <= 0x200a
    ||| code == 0x2028 || code == 0x2029 || code == 0x202f || code == 0x205f || code == 0x3000
}

/// Whether `inner` is `text` without the blanks around it: what is left out is blank,
/// and `inner` neither starts nor ends with a blank.
pub open spec fn is_trimmed(text: Seq<char>, inner: Seq<char>) -> bool {
    exists|start: int, end: int| is_trimmed_at(text, inner, start, end)
}

/// The same, with the place where `inner` stands.
pub open spec fn is_trimmed_at(text: Seq<char>, inner: Seq<char>, start: int, end: int) -> bool {
    &&& 0 <= start <= end <= text.len()
    &&& inner == text.subrange(start, end)
    &&& forall|i: int| 0 <= i < start ==> is_blank(#[trigger] text[i])
    &&& forall|i: int| end <= i < text.len() ==> is_blank(#[trigger] text[i])
    &&& inner.len() > 0 ==> !is_blank(inner[0]) && !is_blank(inner.last())
}

/// Trimming takes away the blanks at both ends, all of them and nothing else.
pub proof fn trimming_takes_blanks_at_the_ends(text: &str, trimmed: String)
    requires
        call_ensures(crate::text::trim, (text,), trimmed),
    ensures
        is_trimmed(text@, trimmed@),
{
    trimmed_is_trimmed(text@);
}

/// What stands for trimming in contracts is trimming.
pub proof fn trimmed_is_trimmed(text: Seq<char>)
    ensures
        is_trimmed(text, crate::text::trimmed(text)),
{
    let start = trimmed_start_is_suffix(text);
    let rest = crate::text::trimmed_start(text);
    let end = trimmed_end_is_prefix(rest);
    let inner = crate::text::trimmed(text);
    assert(inner =~= text.subrange(start, start + end));
    assert forall|i: int| start + end <= i < text.len() implies is_blank(#[trigger] text[i]) by {
        assert(rest[i - start] == text[i]);
    }
    if inner.len() > 0 {
        assert(inner[0] == rest[0]);
    }
    assert(is_trimmed_at(text, inner, start, start + end));
}

proof fn trimmed_start_is_suffix(text: Seq<char>) -> (start: int)
    ensures
        0 <= start <= text.len(),
        crate::text::trimmed_start(text) == text.skip(start),
        forall|i: int| 0 <= i < start ==> is_blank(#[trigger] text[i]),
        start < text.len() ==> !is_blank(text[start]),
    decreases text.len(),
{
    if text.len() > 0 && crate::text::is_white_space(text[0]) {
        let rest = text.drop_first();
        let start = trimmed_start_is_suffix(rest);
        assert(rest.skip(start) =~= text.skip(start + 1));
        assert forall|i: int| 0 <= i < start + 1 implies is_blank(#[trigger] text[i]) by {
            if i > 0 {
                assert(rest[i - 1] == text[i]);
            }
        }
        start + 1
    } else {
        assert(text.skip(0) =~= text);
        0
    }
}

proof fn trimmed_end_is_prefix(text: Seq<char>) -> (end: int)
    ensures
        0 <= end <= text.len(),
        crate::text::trimmed_end(text) == text.take(end),
        forall|i: int| end <= i < text.len() ==> is_blank(#[trigger] text[i]),
        end > 0 ==> !is_blank(text[end - 1]),
    decreases text.len(),
{
    if text.len() > 0 && crate::text::is_white_space(text.last()) {
        let rest = text.drop_last();
        let end = trimmed_end_is_prefix(rest);
        assert(rest.take(end) =~= text.take(end));
        assert forall|i: int| end <= i < text.len() implies is_blank(#[trigger] text[i]) by {
            if i < rest.len() {
                assert(rest[i] == text[i]);
            }
        }
        end
    } else {
        assert(text.take(text.len() as int) =~= text);
        text.len() as int
    }
}

/// A text is found in another where some stretch of the other equals it, character
/// for character.
pub proof fn finding_is_by_characters(text: &str, needle: &str, found: bool)
    requires
        call_ensures(crate::text::contains, (text, needle), found),
    ensures
        found ==> exists|at: int|
            0 <= at && #[trigger] (at + needle@.len()) <= text@.len() && forall|i: int|
                0 <= i < needle@.len() ==> #[trigger] needle@[i] == text@[at + i],
        forall|before: Seq<char>, after: Seq<char>|
            text@ == #[trigger] (before + needle@ + after) ==> found,
{
    if found {
        let at = choose|at: int|
            0 <= at <= text@.len() - needle@.len() && #[trigger] text@.subrange(
                at,
                at + needle@.len(),
            ) == needle@;
        assert(at + needle@.len() <= text@.len());
        assert forall|i: int| 0 <= i < needle@.len() implies #[trigger] needle@[i] == text@[at
            + i] by {
            assert(text@.subrange(at, at + needle@.len())[i] == text@[at + i]);
        }
    }
    assert forall|before: Seq<char>, after: Seq<char>|
        text@ == #[trigger] (before + needle@ + after) implies found by {
        let at = before.len() as int;
        assert(text@.subrange(at, at + needle@.len()) =~= needle@);
    }
}

/// A text starts with another where it is the other with something behind it.
pub proof fn starting_is_by_characters(text: &str, prefix: &str, starts: bool)
    requires
        call_ensures(crate::text::starts_with, (text, prefix), starts),
    ensures
        starts <==> exists|rest: Seq<char>| text@ == #[trigger] (prefix@ + rest),
{
    if starts {
        let rest = text@.skip(prefix@.len() as int);
        assert(text@ =~= prefix@ + rest);
    }
    if exists|rest: Seq<char>| text@ == #[trigger] (prefix@ + rest) {
        let rest = choose|rest: Seq<char>| text@ == #[trigger] (prefix@ + rest);
        assert(text@.subrange(0, prefix@.len() as int) =~= prefix@);
    }
}

/// The number that a text of decimal digits stands for.
pub open spec fn digits_value(digits: Seq<char>) -> int
    decreases digits.len(),
{
    if digits.len() == 0 {
        0
    } else {
        10 * digits_value(digits.drop_last()) + (digits.last() as int - '0' as int)
    }
}

/// Whether a text writes a number in decimal: digits only, the first of them not zero
/// but in `0` itself, which together stand for the number.
pub open spec fn writes_number(text: Seq<char>, number: int) -> bool {
    &&& text.len() > 0
    &&& forall|i: int| 0 <= i < text.len() ==> '0' <= #[trigger] text[i] <= '9'
    &&& text[0] == '0' ==> text.len() == 1
    &&& digits_value(text) == number
}

/// A number in decimal reads as the number.
pub proof fn decimal_digits_stand_for_the_number(value: u64, text: String)
    requires
        call_ensures(crate::text::to_decimal, (value,), text),
    ensures
        writes_number(text@, value as int),
{
    decimal_writes_the_number(value as nat);
}

/// What stands for decimal form in contracts is decimal form.
pub proof fn decimal_writes_the_number(value: nat)
    ensures
        writes_number(crate::text::decimal(value), value as int),
        value > 0 ==> crate::text::decimal(value)[0] != '0',
    decreases value,
{
    let text = crate::text::decimal(value);
    if value < 10 {
        assert(text.drop_last() =~= Seq::empty());
        assert(text.last() == crate::text::digit_char(value));
        assert(digits_value(text.drop_last()) == 0);
    } else {
        decimal_writes_the_number(value / 10);
        assert(text.drop_last() =~= crate::text::decimal(value / 10));
        assert(text.last() == crate::text::digit_char(value % 10));
        assert(text[0] == text.drop_last()[0]);
        assert forall|i: int| 0 <= i < text.len() implies '0' <= #[trigger] text[i] <= '9' by {
            if i < text.len() - 1 {
                assert(text.drop_last()[i] == text[i]);
            }
        }
    }
}

/// A text in a column: as wide as the column, or as the text where that is wider; the
/// text first, and blanks behind it.
pub open spec fn in_column(text: Seq<char>, width: nat) -> Seq<char> {
    Seq::new(
        if text.len() < width {
            width
        } else {
            text.len()
        },
        |i: int|
            if i < text.len() {
                text[i]
            } else {
                ' '
            },
    )
}

/// Padding puts a text into a column.
pub proof fn padding_fills_the_column(text: &str, width: usize, padded: String)
    requires
        call_ensures(crate::text::pad_right, (text, width), padded),
    ensures
        padded@ == in_column(text@, width as nat),
{
    padded_is_in_column(text@, width as nat);
}

/// What stands for padding in contracts is padding.
pub proof fn padded_is_in_column(text: Seq<char>, width: nat)
    ensures
        crate::text::padded(text, width) == in_column(text, width),
{
    assert(crate::text::padded(text, width) =~= in_column(text, width));
}

/// Texts are the same where they have the same characters, and so are equally long.
pub proof fn sameness_is_by_characters(left: &str, right: &str, same: bool)
    requires
        call_ensures(crate::text::same_text, (left, right), same),
    ensures
        same <==> (left@.len() == right@.len() && forall|i: int|
            0 <= i < left@.len() ==> #[trigger] left@[i] == right@[i]),
{
    if left@.len() == right@.len() && forall|i: int|
        0 <= i < left@.len() ==> #[trigger] left@[i] == right@[i] {
        assert(left@ =~= right@);
    }
}

} // verus!
