use microhub::page::{js_string, set_status, show_error};

#[test]
fn escapes_line_feeds_and_quotes() {
    assert_eq!(js_string("a\nb"), "\"a\\nb\"");
    assert_eq!(js_string("say \"hi\" \\ bye"), "\"say \\\"hi\\\" \\\\ bye\"");
    assert_eq!(js_string(""), "\"\"");
}

#[test]
fn escapes_every_control_character() {
    assert_eq!(
        js_string("\u{8}\t\u{c}\r\u{0}\u{1f}\u{7f}"),
        "\"\\b\\t\\f\\r\\u0000\\u001f\u{7f}\""
    );
    for code in 0..0x20u32 {
        let c = char::from_u32(code).unwrap();
        let literal = js_string(&c.to_string());
        assert!(literal.chars().all(|c| c >= ' '));
        assert_eq!(serde_json::from_str::<String>(&literal).unwrap(), c.to_string());
    }
}

#[test]
fn literals_read_back() {
    for s in ["plain", "two\r\nlines", "\u{2026}\u{2028}\u{1f600}", "</script>", "'`${x}`'"] {
        assert_eq!(serde_json::from_str::<String>(&js_string(s)).unwrap(), s);
    }
    assert_eq!(js_string("\u{2026}"), "\"\u{2026}\"");
}

#[test]
fn scripts_call_the_page() {
    assert_eq!(show_error("R failed\n\"x\""), "window.showError(\"R failed\\n\\\"x\\\"\")");
    assert_eq!(
        set_status("Preparing the runtime\u{2026}"),
        "window.setStatus(\"Preparing the runtime\u{2026}\")"
    );
}
