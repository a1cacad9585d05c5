use mcp_pool::text::{
    contains, is_before, pad_right, same_ignoring_ascii_case, same_text, starts_with, to_ascii_lower,
    to_decimal, trim,
};

#[test]
fn texts_are_compared_like_the_standard_library_does() {
    let texts = ["", "a", "ab", "b", "A", "\u{e9}", "\u{ffff}", "\u{10000}", "a\u{10000}"];
    for left in texts {
        for right in texts {
            assert_eq!(is_before(left, right), left < right, "{left:?} {right:?}");
            assert_eq!(same_text(left, right), left == right);
            assert_eq!(contains(left, right), left.contains(right));
            assert_eq!(starts_with(left, right), left.starts_with(right));
            assert_eq!(same_ignoring_ascii_case(left, right), left.eq_ignore_ascii_case(right));
        }
    }
}

#[test]
fn lower_case_is_ascii_only() {
    assert_eq!(to_ascii_lower("AzZ[@\u{c9}1"), "azz[@\u{c9}1");
}

#[test]
fn white_space_is_trimmed() {
    for text in [
        "",
        " ",
        "\t\u{b} a b \r\n",
        "\u{a0}x\u{3000}",
        "\u{85}\u{1680}\u{2003}y\u{2028}\u{2029}\u{202f}\u{205f}",
        "\u{200b}z\u{feff}",
    ] {
        assert_eq!(trim(text), text.trim());
    }
    for code in 0..0x3100u32 {
        if let Some(ch) = char::from_u32(code) {
            let text = format!("{ch}a{ch}");
            assert_eq!(trim(&text), text.trim(), "{code:x}");
        }
    }
}

#[test]
fn numbers_are_written_in_decimal() {
    for number in [0u64, 7, 10, 99, 100, 12345, u64::MAX] {
        assert_eq!(to_decimal(number), number.to_string());
    }
}

#[test]
fn padding_counts_characters() {
    for text in ["", "ab", "\u{e9}\u{e9}", "abcdef", "abcdefgh"] {
        assert_eq!(pad_right(text, 6), format!("{text:<6}"));
    }
}
