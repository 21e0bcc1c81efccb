use microhub::session_log::{log_tail, printed_lines_of, CapturedLog};
use microhub::text::{decimal_text, is_blank, is_white_space, lines_of, replace_char, trimmed};

#[test]
fn white_space_is_that_of_unicode() {
    for code in 0..=0x10ffffu32 {
        if let Some(c) = char::from_u32(code) {
            assert_eq!(is_white_space(c), c.is_whitespace(), "{:x}", code);
        }
    }
}

const SAMPLES: [&str; 16] = [
    "",
    " ",
    "a",
    " a ",
    "\t a b \u{3000}\u{a0}",
    "\n",
    "\r\n",
    "a\n",
    "a\r\n",
    "a\r",
    "a\nb",
    "a\r\nb\r\n\r\nc",
    "\n\na\r\r\nb\n\n",
    "\u{1680}\u{200b}\u{2007}",
    "h\u{e9}llo\n w\u{f6}rld \n",
    "one\u{85}two\u{2028}three\rfour\n",
];

#[test]
fn trims_as_std_does() {
    for s in SAMPLES {
        assert_eq!(trimmed(s), s.trim());
        assert_eq!(trimmed(&trimmed(s)), s.trim());
        assert_eq!(is_blank(s), s.trim().is_empty());
    }
}

#[test]
fn splits_lines_as_std_does() {
    for s in SAMPLES {
        assert_eq!(lines_of(s), s.lines().collect::<Vec<&str>>());
    }
}

#[test]
fn writes_decimal_numbers() {
    for n in [0u128, 1, 9, 10, 11, 99, 100, 65535, 4294967295, u64::MAX as u128, u128::MAX] {
        assert_eq!(decimal_text(n), n.to_string());
    }
}

#[test]
fn replaces_characters() {
    assert_eq!(replace_char("C:\\a\\b", '\\', '/'), "C:/a/b");
    assert_eq!(replace_char("", '\\', '/'), "");
    assert_eq!(replace_char("/x/\u{e9}", '\\', '/'), "/x/\u{e9}");
}

fn log(content: Option<&str>) -> Option<CapturedLog> {
    Some(CapturedLog { path: "/logs/r.log".to_string(), content: content.map(|c| c.to_string()) })
}

#[test]
fn log_tail_shows_the_last_lines() {
    assert_eq!(
        log_tail(&log(Some("one\ntwo\n\n  \nthree\r\nfour\n")), 3),
        "\n\nLast output from R (/logs/r.log):\ntwo\nthree\nfour"
    );
    assert_eq!(
        log_tail(&log(Some("  indented \nlast")), 25),
        "\n\nLast output from R (/logs/r.log):\n  indented \nlast"
    );
    assert_eq!(
        log_tail(&log(Some("a\nb\nc")), 1),
        "\n\nLast output from R (/logs/r.log):\nc"
    );
}

#[test]
fn log_tail_is_empty_without_text() {
    assert_eq!(log_tail(&None, 25), "");
    assert_eq!(log_tail(&log(None), 25), "");
    assert_eq!(log_tail(&log(Some("")), 25), "");
    assert_eq!(log_tail(&log(Some("\n \t\r\n\n")), 25), "");
    assert_eq!(log_tail(&log(Some("a\nb")), 0), "");
}

#[test]
fn log_tail_keeps_to_its_limit() {
    let content = (1..=40).map(|i| format!("line {}\n\n", i)).collect::<Vec<String>>().concat();
    let kept = printed_lines_of(&content);
    assert_eq!(kept.len(), 40);
    let note = log_tail(&log(Some(&content)), 25);
    let shown: Vec<&str> = note.lines().skip(3).collect();
    assert_eq!(shown.len(), 25);
    assert_eq!(shown[0], "line 16");
    assert_eq!(shown[24], "line 40");
}
