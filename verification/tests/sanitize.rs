use thunderbird_mcp::sanitize::{keeps, sanitize_str};

#[test]
fn strips_control_chars() {
    // 0x00-0x08, 0x0b, 0x0c, 0x0e-0x1f, 0x7f should be removed
    let input = "hello\x00world\x07foo\x7fbar";
    assert_eq!(sanitize_str(input), "helloworldfoobar");
}

#[test]
fn preserves_tab_and_newline() {
    let input = "line1\nline2\ttabbed\r\n";
    // These are allowed: they appear in normal email text
    assert!(sanitize_str(input).contains('\n'));
    assert!(sanitize_str(input).contains('\t'));
}

#[test]
fn handles_empty_string() {
    assert_eq!(sanitize_str(""), "");
}

#[test]
fn preserves_unicode() {
    let input = "Héllo wörld 日本語";
    assert_eq!(sanitize_str(input), input);
}

#[test]
fn handles_only_control_chars() {
    let input = "\x00\x01\x02\x03";
    assert_eq!(sanitize_str(input), "");
}

#[test]
fn sanitizing_twice_changes_nothing_more() {
    for input in ["", "plain", "hello\x00world\x07foo\x7fbar", "\x00\x01\x02\x03", "a\tb\nc\rd"] {
        let once = sanitize_str(input);
        assert_eq!(sanitize_str(&once), once);
    }
}

#[test]
fn preserves_carriage_return() {
    assert_eq!(sanitize_str("a\r\nb\r"), "a\r\nb\r");
    assert_eq!(sanitize_str("\n"), "\n");
    assert_eq!(sanitize_str("\t"), "\t");
    assert_eq!(sanitize_str("\r"), "\r");
}

#[test]
fn drops_each_control_character_but_three() {
    for n in 0u32..0x20 {
        let c = char::from_u32(n).unwrap();
        let input = format!("a{}b", c);
        if n == 0x09 || n == 0x0a || n == 0x0d {
            assert_eq!(sanitize_str(&input), input, "U+{:04X}", n);
            assert!(keeps(c), "U+{:04X}", n);
        } else {
            assert_eq!(sanitize_str(&input), "ab", "U+{:04X}", n);
            assert!(!keeps(c), "U+{:04X}", n);
        }
    }
}

#[test]
fn drops_delete_and_keeps_its_neighbours() {
    assert_eq!(sanitize_str("~\x7f\u{80}"), "~\u{80}");
    assert!(keeps(' '));
    assert!(keeps('~'));
    assert!(!keeps('\x7f'));
    assert!(keeps('\u{80}'));
    assert!(keeps('\u{9f}'));
    assert!(keeps(char::MAX));
}

#[test]
fn keeps_the_order_of_what_remains() {
    assert_eq!(sanitize_str("\x01c\x02b\x03a\x04"), "cba");
    assert_eq!(sanitize_str("日\x00本\x1f語"), "日本語");
}
