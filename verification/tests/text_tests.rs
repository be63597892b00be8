use hl7_send_receive::text::{correct_newlines, display_text, lower_ascii, str_eq, trim_trailing_cr};

#[test]
fn newlines_become_carriage_returns() {
    assert_eq!(correct_newlines("a\r\nb\nc\rd"), "a\rb\rc\rd");
    assert_eq!(correct_newlines(""), "");
    assert_eq!(correct_newlines("\n\n"), "\r\r");
    assert_eq!(correct_newlines("\r\n"), "\r");
    assert_eq!(correct_newlines("no separators"), "no separators");
}

#[test]
fn correcting_newlines_is_idempotent() {
    let samples = ["a\r\nb\nc", "", "\n", "\r\r\n", "MSH|x\nPID|y\r\n"];
    for s in samples {
        let once = correct_newlines(s);
        let twice = correct_newlines(&once);
        assert_eq!(once, twice);
    }
}

#[test]
fn display_swaps_cr_for_lf() {
    assert_eq!(display_text("MSH|a\rPID|b\r"), "MSH|a\nPID|b\n");
    assert_eq!(display_text(""), "");
}

#[test]
fn trailing_cr_is_trimmed_once() {
    assert_eq!(trim_trailing_cr("abc\r"), "abc");
    assert_eq!(trim_trailing_cr("abc\r\r"), "abc\r");
    assert_eq!(trim_trailing_cr("abc"), "abc");
    assert_eq!(trim_trailing_cr(""), "");
}

#[test]
fn string_equality_by_value() {
    assert!(str_eq("abc", "abc"));
    assert!(!str_eq("abc", "abd"));
    assert!(!str_eq("abc", "ab"));
    assert!(str_eq("", ""));
}

#[test]
fn ascii_lowercasing() {
    assert_eq!(lower_ascii("HL7"), "hl7");
    assert_eq!(lower_ascii("MiXeD-42"), "mixed-42");
    assert_eq!(lower_ascii(""), "");
}
