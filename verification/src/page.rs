//! Scripts for the splash page.

use vstd::prelude::*;

verus! {

/// The error of `serde_json`.
#[verifier::external_type_specification]
#[verifier::external_body]
pub struct ExJsonError(serde_json::Error);

/// A hexadecimal digit, in lower case.
pub open spec fn hex_digit(n: int) -> char {
    if n < 10 {
        ('0' as int + n) as char
    } else {
        ('a' as int + n - 10) as char
    }
}

/// How a character stands inside a JSON string.
pub open spec fn json_escape(c: char) -> Seq<char> {
    if c == '"' {
        seq!['\\', '"']
    } else if c == '\\' {
        seq!['\\', '\\']
    } else if c == '\u{8}' {
        seq!['\\', 'b']
    } else if c == '\t' {
        seq!['\\', 't']
    } else if c == '\n' {
        seq!['\\', 'n']
    } else if c == '\u{c}' {
        seq!['\\', 'f']
    } else if c == '\r' {
        seq!['\\', 'r']
    } else if (c as int) < 0x20 {
        seq!['\\', 'u', '0', '0', hex_digit(c as int / 16), hex_digit(c as int % 16)]
    } else {
        seq![c]
    }
}

/// What stands between the quotes of a JSON string.
pub open spec fn json_body(s: Seq<char>) -> Seq<char>
    decreases s.len(),
{
    if s.len() == 0 {
        Seq::empty()
    } else {
        json_escape(s[0]) + json_body(s.drop_first())
    }
}

/// A text as a JSON string.
pub open spec fn json_literal(s: Seq<char>) -> Seq<char> {
    seq!['"'] + json_body(s) + seq!['"']
}

/// `serde_json::to_string` on a string: it succeeds, and gives the string between
/// quotes, with quotes, backslashes and the control characters below the space
/// escaped and every other character as it is.
#[verifier::external_body]
fn json_to_string(value: &str) -> (text: Result<String, serde_json::Error>)
    ensures
        text is Ok,
        text->Ok_0@ == json_literal(value@),
{
    serde_json::to_string(value)
}

/// Encodes a string as a JavaScript literal. Line feeds are escaped like every
/// other control character, so the output of R cannot end a script early.
pub fn js_string(value: &str) -> (literal: String)
    ensures
        literal@ == json_literal(value@),
{
    match json_to_string(value) {
        Ok(literal) => literal,
        Err(_) => "\"\"".to_owned(),
    }
}

/// The script that calls `function` with one string.
pub open spec fn page_call(function: Seq<char>, message: Seq<char>) -> Seq<char> {
    "window."@ + function + "("@ + json_literal(message) + ")"@
}

/// Writes the script that calls `function` with one string.
fn page_script(function: &str, message: &str) -> (script: String)
    ensures
        script@ == page_call(function@, message@),
{
    let mut script = "window.".to_owned();
    script.append(function);
    script.append("(");
    script.append(js_string(message).as_str());
    script.append(")");
    script
}

/// The script that reports a startup failure on the splash page.
pub fn show_error(message: &str) -> (script: String)
    ensures
        script@ == page_call("showError"@, message@),
{
    page_script("showError", message)
}

/// The script that updates the splash text while a slow step runs.
pub fn set_status(message: &str) -> (script: String)
    ensures
        script@ == page_call("setStatus"@, message@),
{
    page_script("setStatus", message)
}

/// The value of a hexadecimal digit in lower case.
pub open spec fn hex_value(c: char) -> int {
    if c <= '9' {
        c as int - '0' as int
    } else {
        c as int - 'a' as int + 10
    }
}

/// What a JavaScript engine reads behind a backslash that no `u` follows.
pub open spec fn simple_escape(c: char) -> char {
    if c == 'b' {
        '\u{8}'
    } else if c == 't' {
        '\t'
    } else if c == 'n' {
        '\n'
    } else if c == 'f' {
        '\u{c}'
    } else if c == 'r' {
        '\r'
    } else {
        c
    }
}

/// What a JavaScript engine reads between the quotes of a literal.
pub open spec fn js_read(t: Seq<char>) -> Seq<char>
    decreases t.len(),
{
    if t.len() == 0 {
        Seq::empty()
    } else if t[0] != '\\' {
        seq![t[0]] + js_read(t.skip(1))
    } else if t.len() >= 6 && t[1] == 'u' {
        let code = 4096 * hex_value(t[2]) + 256 * hex_value(t[3]) + 16 * hex_value(t[4])
            + hex_value(t[5]);
        seq![code as char] + js_read(t.skip(6))
    } else if t.len() >= 2 {
        seq![simple_escape(t[1])] + js_read(t.skip(2))
    } else {
        Seq::empty()
    }
}

proof fn lemma_code_point(c: char)
    ensures
        0 <= c as int <= 0x10ffff,
{
}

/// What is written inside a literal reads back as the text it was made from.
pub proof fn literal_reads_back(s: Seq<char>)
    ensures
        js_read(json_body(s)) == s,
    decreases s.len(),
{
    if s.len() > 0 {
        let c = s[0];
        let rest = s.drop_first();
        let head = json_escape(c);
        let t = json_body(s);
        literal_reads_back(rest);
        assert(t.skip(head.len() as int) =~= json_body(rest));
        assert(t[0] == head[0]);
        assert(head.len() > 1 ==> t[1] == head[1]);
        if head.len() == 6 {
            assert(t[2] == head[2] && t[3] == head[3] && t[4] == head[4] && t[5] == head[5]);
            let n = c as int;
            lemma_code_point(c);
            assert(0 <= n / 16 < 2 && 0 <= n % 16 < 16);
            assert(hex_value(hex_digit(n / 16)) == n / 16);
            assert(hex_value(hex_digit(n % 16)) == n % 16);
        }
        assert(js_read(t) =~= seq![c] + js_read(json_body(rest)));
        assert(seq![c] + rest =~= s);
    } else {
        assert(json_body(s) =~= s);
    }
}

/// No literal holds a control character, a line feed least of all: a script with
/// the literal in it stays on one line.
pub proof fn literal_has_no_control_character(s: Seq<char>)
    ensures
        forall|i: int| 0 <= i < json_literal(s).len() ==> #[trigger] json_literal(s)[i] >= ' ',
{
    lemma_body_has_no_control_character(s);
}

proof fn lemma_body_has_no_control_character(s: Seq<char>)
    ensures
        forall|i: int| 0 <= i < json_body(s).len() ==> #[trigger] json_body(s)[i] >= ' ',
    decreases s.len(),
{
    if s.len() > 0 {
        let head = json_escape(s[0]);
        let rest = json_body(s.drop_first());
        lemma_body_has_no_control_character(s.drop_first());
        let n = s[0] as int;
        assert forall|i: int| 0 <= i < head.len() implies #[trigger] head[i] >= ' ' by {
            if head.len() == 6 {
                lemma_code_point(s[0]);
                assert(hex_digit(n / 16) >= ' ');
                assert(hex_digit(n % 16) >= ' ');
            } else if head.len() == 2 {
                assert(head[0] == '\\');
                assert(head[1] >= ' ');
            } else {
                assert(head[0] >= ' ');
            }
        }
        assert forall|i: int| 0 <= i < json_body(s).len() implies #[trigger] json_body(s)[i]
            >= ' ' by {
            if i < head.len() {
                assert(json_body(s)[i] == head[i]);
            } else {
                assert(json_body(s)[i] == rest[i - head.len()]);
            }
        }
    }
}

/// How far a JavaScript engine reads behind the opening quote of a literal: to the
/// first quote that no backslash takes.
pub open spec fn js_end(t: Seq<char>) -> int
    decreases t.len(),
{
    if t.len() == 0 || t[0] == '"' {
        0
    } else if t[0] == '\\' && t.len() >= 2 {
        2 + js_end(t.skip(2))
    } else {
        1 + js_end(t.skip(1))
    }
}

/// A literal ends at its last quote, whatever the text holds and whatever follows
/// in the script.
pub proof fn literal_ends_at_its_last_quote(s: Seq<char>, more: Seq<char>)
    ensures
        js_end(json_body(s) + seq!['"'] + more) == json_body(s).len(),
    decreases s.len(),
{
    let tail = seq!['"'] + more;
    let t = json_body(s) + seq!['"'] + more;
    assert(t =~= json_body(s) + tail);
    if s.len() > 0 {
        let head = json_escape(s[0]);
        let rest = json_body(s.drop_first()) + seq!['"'] + more;
        literal_ends_at_its_last_quote(s.drop_first(), more);
        assert(t =~= head + rest);
        assert(t.skip(head.len() as int) =~= rest);
        assert(t[0] == head[0]);
        if head.len() == 6 {
            let n = s[0] as int;
            lemma_code_point(s[0]);
            let t2 = t.skip(2);
            let t3 = t2.skip(1);
            let t4 = t3.skip(1);
            let t5 = t4.skip(1);
            assert(t2[0] == head[2] && t3[0] == head[3] && t4[0] == head[4] && t5[0] == head[5]);
            assert(t5.skip(1) =~= rest);
            assert(0 <= n / 16 < 2 && 0 <= n % 16 < 16);
            assert(js_end(t5) == 1 + js_end(rest));
            assert(js_end(t4) == 1 + js_end(t5));
            assert(js_end(t3) == 1 + js_end(t4));
            assert(js_end(t2) == 1 + js_end(t3));
        }
    } else {
        assert(t[0] == '"');
    }
}

/// A script is one call of a function of the page, with one literal, and the literal reads
/// back as the whole message, whatever the message is.
pub proof fn script_hands_the_message_over(function: Seq<char>, message: Seq<char>) -> (literal:
    Seq<char>)
    ensures
        page_call(function, message) == "window."@ + function + "("@ + seq!['"'] + literal + seq![
            '"',
        ] + ")"@,
        js_read(literal) == message,
        js_end(literal + seq!['"'] + ")"@) == literal.len(),
{
    literal_reads_back(message);
    literal_ends_at_its_last_quote(message, ")"@);
    let literal = json_body(message);
    assert(page_call(function, message) =~= "window."@ + function + "("@ + seq!['"'] + literal
        + seq!['"'] + ")"@);
    literal
}

} // verus!
