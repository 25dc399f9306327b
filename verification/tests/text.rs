use thunderbird_mcp::text::{is_whitespace, trim};

#[test]
fn whitespace_agrees_with_the_standard_library() {
    let mut c = '\0';
    loop {
        assert_eq!(is_whitespace(c), c.is_whitespace(), "U+{:04X}", c as u32);
        if c == char::MAX {
            break;
        }
        c = char::from_u32(c as u32 + 1).unwrap_or('\u{e000}');
    }
}

#[test]
fn trim_removes_whitespace_at_both_ends_only() {
    assert_eq!(trim("  token-xyz\n"), "token-xyz");
    assert_eq!(trim("a b"), "a b");
    assert_eq!(trim(" \t a \u{a0} b \u{3000}\r\n"), "a \u{a0} b");
    assert_eq!(trim(""), "");
    assert_eq!(trim(" \n\t "), "");
    assert_eq!(trim("x"), "x");
    assert_eq!(trim("\u{200b}x "), "\u{200b}x");
}

#[test]
fn trim_agrees_with_the_standard_library() {
    let samples = [
        "",
        " ",
        "token",
        " token",
        "token ",
        "\n\ntoken\n\n",
        "\u{2028}to ken\u{2029}",
        "\u{85}\u{1680}é\u{205f}\u{202f}",
        "\u{feff}x\u{feff}",
        "\u{1f}x\u{1f}",
    ];
    for s in samples {
        assert_eq!(trim(s), s.trim(), "{:?}", s);
    }
}
