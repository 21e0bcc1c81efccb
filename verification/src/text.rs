//! Text: white space, lines, trimming, decimal numbers and building strings.

use vstd::prelude::*;

verus! {

/// `String::push` appends one character to the end of the string.
pub assume_specification[ String::push ](s: &mut String, c: char)
    ensures
        final(s)@ == old(s)@.push(c),
;

/// The characters with the Unicode property White_Space.
pub open spec fn white_space(c: char) -> bool {
    ||| '\u{9}' <= c <= '\u{d}'
    ||| c == '\u{20}'
    ||| c == '\u{85}'
    ||| c == '\u{a0}'
    ||| c == '\u{1680}'
    ||| '\u{2000}' <= c <= '\u{200a}'
    ||| c == '\u{2028}'
    ||| c == '\u{2029}'
    ||| c == '\u{202f}'
    ||| c == '\u{205f}'
    ||| c == '\u{3000}'
}

/// Whether a character is white space.
pub fn is_white_space(c: char) -> (yes: bool)
    ensures
        yes == white_space(c),
{
    ('\u{9}' <= c && c <= '\u{d}') || c == '\u{20}' || c == '\u{85}' || c == '\u{a0}' || c
        == '\u{1680}' || ('\u{2000}' <= c && c <= '\u{200a}') || c == '\u{2028}' || c == '\u{2029}'
        || c == '\u{202f}' || c == '\u{205f}' || c == '\u{3000}'
}

/// Text without the white space at its start.
pub open spec fn trim_start(s: Seq<char>) -> Seq<char>
    decreases s.len(),
{
    if s.len() > 0 && white_space(s[0]) {
        trim_start(s.drop_first())
    } else {
        s
    }
}

/// Text without the white space at its end.
pub open spec fn trim_end(s: Seq<char>) -> Seq<char>
    decreases s.len(),
{
    if s.len() > 0 && white_space(s.last()) {
        trim_end(s.drop_last())
    } else {
        s
    }
}

/// Text without the white space at its two ends.
pub open spec fn trim(s: Seq<char>) -> Seq<char> {
    trim_end(trim_start(s))
}

/// Text that is white space alone, or empty.
pub open spec fn blank(s: Seq<char>) -> bool {
    forall|i: int| 0 <= i < s.len() ==> white_space(#[trigger] s[i])
}

/// The characters of a string.
pub fn chars_of(s: &str) -> (chars: Vec<char>)
    ensures
        chars@ == s@,
{
    let mut chars: Vec<char> = Vec::new();
    for c in it: s.chars()
        invariant
            it.seq() == s@,
            chars@ == s@.take(it.index()),
    {
        proof {
            assert(s@.take(it.index() + 1) =~= s@.take(it.index()).push(s@[it.index()]));
        }
        chars.push(c);
    }
    proof {
        assert(s@.take(s@.len() as int) =~= s@);
    }
    chars
}

/// The string of the characters from `from` to `to`.
pub fn text_of(chars: &Vec<char>, from: usize, to: usize) -> (text: String)
    requires
        from <= to <= chars@.len(),
    ensures
        text@ == chars@.subrange(from as int, to as int),
{
    let mut text = String::new();
    let mut i: usize = from;
    proof {
        assert(chars@.subrange(from as int, from as int) =~= Seq::empty());
    }
    while i < to
        invariant
            from <= i <= to <= chars@.len(),
            text@ == chars@.subrange(from as int, i as int),
        decreases to - i,
    {
        proof {
            assert(chars@.subrange(from as int, i + 1) =~= chars@.subrange(
                from as int,
                i as int,
            ).push(chars@[i as int]));
        }
        text.push(chars[i]);
        i = i + 1;
    }
    text
}

/// The text with the white space taken off its two ends.
pub fn trimmed(s: &str) -> (text: String)
    ensures
        text@ == trim(s@),
{
    let chars = chars_of(s);
    let mut from: usize = 0;
    let mut to: usize = chars.len();
    proof {
        assert(s@.skip(0) =~= s@);
    }
    while from < to && is_white_space(chars[from])
        invariant_except_break
            trim_start(s@) == trim_start(s@.skip(from as int)),
        invariant
            from <= to,
            to == chars@.len(),
            chars@ == s@,
        ensures
            trim_start(s@) == trim_start(s@.skip(from as int)),
            from == to || !white_space(s@[from as int]),
        decreases to - from,
    {
        proof {
            assert(s@.skip(from as int).drop_first() =~= s@.skip(from + 1));
        }
        from = from + 1;
    }
    let ghost kept = s@.skip(from as int);
    proof {
        assert(trim_start(s@) == kept);
        assert(s@.subrange(from as int, to as int) =~= kept);
    }
    while from < to && is_white_space(chars[to - 1])
        invariant
            from <= to <= chars@.len(),
            chars@ == s@,
            trim_end(kept) == trim_end(s@.subrange(from as int, to as int)),
        ensures
            trim_end(kept) == trim_end(s@.subrange(from as int, to as int)),
            from == to || !white_space(s@[to - 1]),
        decreases to - from,
    {
        proof {
            assert(s@.subrange(from as int, to as int).drop_last() =~= s@.subrange(
                from as int,
                to - 1,
            ));
        }
        to = to - 1;
    }
    proof {
        let rest = s@.subrange(from as int, to as int);
        assert(rest.len() > 0 ==> rest.last() == s@[to - 1]);
        assert(trim_end(rest) == rest);
    }
    text_of(&chars, from, to)
}

/// What the strings of a list say.
pub open spec fn texts(strings: Seq<String>) -> Seq<Seq<char>> {
    Seq::new(strings.len(), |i: int| strings[i]@)
}

/// How many characters stand before the first line feed: all of them where there
/// is none.
pub open spec fn first_feed(s: Seq<char>) -> int
    decreases s.len(),
{
    if s.len() == 0 || s[0] == '\n' {
        0
    } else {
        1 + first_feed(s.drop_first())
    }
}

/// A line that a line feed ended, without the carriage return before it.
pub open spec fn without_return(s: Seq<char>) -> Seq<char> {
    if s.len() > 0 && s.last() == '\r' {
        s.drop_last()
    } else {
        s
    }
}

/// The lines of a text. A line ends in a line feed, or in a carriage return and
/// a line feed; the end of the last line may be left out.
pub open spec fn lines(s: Seq<char>) -> Seq<Seq<char>>
    decreases s.len(),
{
    let end = first_feed(s);
    if s.len() == 0 {
        Seq::empty()
    } else if 0 <= end < s.len() {
        seq![without_return(s.take(end))] + lines(s.skip(end + 1))
    } else {
        seq![s]
    }
}

/// The last `n` items of a list, or all where there are fewer.
pub open spec fn last_items<T>(items: Seq<T>, n: int) -> Seq<T> {
    if items.len() <= n {
        items
    } else {
        items.skip(items.len() - n)
    }
}

/// The parts one behind the other, with `sep` between two.
pub open spec fn joined(parts: Seq<Seq<char>>, sep: Seq<char>) -> Seq<char>
    decreases parts.len(),
{
    if parts.len() == 0 {
        Seq::empty()
    } else if parts.len() == 1 {
        parts[0]
    } else {
        joined(parts.drop_last(), sep) + sep + parts.last()
    }
}

proof fn lemma_first_feed(s: Seq<char>, k: int)
    requires
        0 <= k <= s.len(),
        forall|i: int| 0 <= i < k ==> s[i] != '\n',
        k < s.len() ==> s[k] == '\n',
    ensures
        first_feed(s) == k,
    decreases s.len(),
{
    if s.len() > 0 && s[0] != '\n' {
        let rest = s.drop_first();
        assert forall|i: int| 0 <= i < k - 1 implies rest[i] != '\n' by {
            assert(rest[i] == s[i + 1]);
        }
        lemma_first_feed(rest, k - 1);
    }
}

/// The lines of a text.
pub fn lines_of(s: &str) -> (found: Vec<String>)
    ensures
        texts(found@) == lines(s@),
{
    let chars = chars_of(s);
    let total: usize = chars.len();
    let mut found: Vec<String> = Vec::new();
    let mut start: usize = 0;
    proof {
        assert(s@.skip(0) =~= s@);
        assert(texts(found@) + lines(s@) =~= lines(s@));
    }
    while start < total
        invariant
            start <= total == chars@.len(),
            chars@ == s@,
            texts(found@) + lines(s@.skip(start as int)) == lines(s@),
        decreases total - start,
    {
        let mut end: usize = start;
        while end < total && chars[end] != '\n'
            invariant
                start <= end <= total == chars@.len(),
                chars@ == s@,
                forall|i: int| start <= i < end ==> s@[i] != '\n',
            decreases total - end,
        {
            end = end + 1;
        }
        let ghost rest = s@.skip(start as int);
        let ghost before = texts(found@);
        proof {
            lemma_first_feed(rest, end - start);
        }
        if end < total {
            let cut: usize = if end > start && chars[end - 1] == '\r' {
                end - 1
            } else {
                end
            };
            found.push(text_of(&chars, start, cut));
            proof {
                let line = rest.take(end - start);
                assert(s@.subrange(start as int, end as int) =~= line);
                assert(s@.subrange(start as int, cut as int) =~= without_return(line));
                assert(texts(found@) =~= before.push(without_return(line)));
                assert(rest.skip(end - start + 1) =~= s@.skip(end + 1));
                assert(texts(found@) + lines(s@.skip(end + 1)) =~= before + (seq![
                    without_return(line),
                ] + lines(s@.skip(end + 1))));
            }
            start = end + 1;
        } else {
            found.push(text_of(&chars, start, total));
            proof {
                assert(s@.subrange(start as int, total as int) =~= rest);
                assert(texts(found@) =~= before.push(rest));
                assert(s@.skip(total as int) =~= Seq::empty());
                assert(lines(s@.skip(total as int)) =~= Seq::empty());
                assert(texts(found@) + lines(s@.skip(total as int)) =~= before + seq![rest]);
            }
            start = total;
        }
    }
    proof {
        assert(s@.skip(start as int) =~= Seq::empty());
        assert(texts(found@) + lines(s@.skip(start as int)) =~= texts(found@));
    }
    found
}

/// Whether a text is white space alone, or empty.
pub fn is_blank(s: &str) -> (yes: bool)
    ensures
        yes == blank(s@),
{
    for c in it: s.chars()
        invariant
            it.seq() == s@,
            forall|i: int| 0 <= i < it.index() ==> white_space(#[trigger] s@[i]),
    {
        if !is_white_space(c) {
            proof {
                assert(!white_space(s@[it.index()]));
            }
            return false;
        }
    }
    true
}

/// The strings from `from` on, one behind the other, with `sep` between two.
pub fn join_texts(parts: &Vec<String>, from: usize, sep: &str) -> (text: String)
    requires
        from <= parts@.len(),
    ensures
        text@ == joined(texts(parts@.skip(from as int)), sep@),
{
    let mut text = String::new();
    let mut i: usize = from;
    let ghost all = texts(parts@.skip(from as int));
    proof {
        assert(all.take(0) =~= Seq::empty());
    }
    while i < parts.len()
        invariant
            from <= i <= parts@.len(),
            all == texts(parts@.skip(from as int)),
            text@ == joined(all.take(i - from), sep@),
        decreases parts@.len() - i,
    {
        let ghost done = all.take(i - from);
        let ghost next = all.take(i + 1 - from);
        proof {
            assert(next.drop_last() =~= done);
            assert(next.last() == parts@[i as int]@);
        }
        if i > from {
            text.append(sep);
        } else {
            proof {
                assert(Seq::<char>::empty() + parts@[i as int]@ =~= parts@[i as int]@);
            }
        }
        text.append(parts[i].as_str());
        i = i + 1;
    }
    proof {
        assert(all.take(parts@.len() - from) =~= all);
    }
    text
}

/// A digit as a character.
pub open spec fn digit(n: nat) -> char {
    (n + '0' as nat) as char
}

/// A number in decimal notation.
pub open spec fn decimal(n: nat) -> Seq<char>
    decreases n,
{
    if n < 10 {
        seq![digit(n)]
    } else {
        decimal(n / 10).push(digit(n % 10))
    }
}

/// A digit as a character.
fn digit_char(n: u128) -> (c: char)
    requires
        n < 10,
    ensures
        c == digit(n as nat),
{
    (n as u8 + 48) as char
}

/// Writes a number in decimal notation.
pub fn decimal_text(n: u128) -> (text: String)
    ensures
        text@ == decimal(n as nat),
    decreases n,
{
    if n < 10 {
        let mut text = String::new();
        text.push(digit_char(n));
        proof {
            assert(text@ =~= seq![digit(n as nat)]);
        }
        text
    } else {
        let mut text = decimal_text(n / 10);
        text.push(digit_char(n % 10));
        text
    }
}

/// Text with every `from` replaced by `to`.
pub open spec fn replaced(s: Seq<char>, from: char, to: char) -> Seq<char> {
    Seq::new(s.len(), |i: int| if s[i] == from { to } else { s[i] })
}

/// Replaces every `from` by `to`.
pub fn replace_char(s: &str, from: char, to: char) -> (text: String)
    ensures
        text@ == replaced(s@, from, to),
{
    let mut text = String::new();
    for c in it: s.chars()
        invariant
            it.seq() == s@,
            text@ == replaced(s@.take(it.index()), from, to),
    {
        proof {
            let next = replaced(s@.take(it.index() + 1), from, to);
            let added = if s@[it.index()] == from { to } else { s@[it.index()] };
            assert(next =~= replaced(s@.take(it.index()), from, to).push(added));
        }
        text.push(if c == from { to } else { c });
    }
    proof {
        assert(s@.take(s@.len() as int) =~= s@);
    }
    text
}

/// How much `trim_start` takes off.
proof fn lemma_trim_start(s: Seq<char>) -> (k: int)
    ensures
        0 <= k <= s.len(),
        trim_start(s) == s.skip(k),
        blank(s.take(k)),
        k < s.len() ==> !white_space(s[k]),
    decreases s.len(),
{
    if s.len() > 0 && white_space(s[0]) {
        let rest = s.drop_first();
        let k = lemma_trim_start(rest);
        assert(rest.skip(k) =~= s.skip(k + 1));
        assert forall|i: int| 0 <= i < k + 1 implies white_space(#[trigger] s.take(k + 1)[i]) by {
            if i > 0 {
                assert(rest.take(k)[i - 1] == s[i]);
            }
        }
        k + 1
    } else {
        assert(s.skip(0) =~= s);
        0
    }
}

/// How much `trim_end` leaves.
proof fn lemma_trim_end(s: Seq<char>) -> (k: int)
    ensures
        0 <= k <= s.len(),
        trim_end(s) == s.take(k),
        blank(s.skip(k)),
        k > 0 ==> !white_space(s[k - 1]),
    decreases s.len(),
{
    if s.len() > 0 && white_space(s.last()) {
        let rest = s.drop_last();
        let k = lemma_trim_end(rest);
        assert(rest.take(k) =~= s.take(k));
        assert forall|i: int| 0 <= i < s.len() - k implies white_space(#[trigger] s.skip(k)[i]) by {
            if i < s.len() - k - 1 {
                assert(rest.skip(k)[i] == s[k + i]);
            }
        }
        k
    } else {
        assert(s.take(s.len() as int) =~= s);
        s.len() as int
    }
}

/// Trimming takes white space off the two ends of a text, and all of it: what is
/// left neither starts nor ends in white space.
pub proof fn trim_takes_the_ends_off(s: Seq<char>)
    ensures
        exists|from: int, to: int|
            {
                &&& 0 <= from <= to <= s.len()
                &&& trim(s) == #[trigger] s.subrange(from, to)
                &&& blank(s.take(from))
                &&& blank(s.skip(to))
            },
        trim(s).len() > 0 ==> !white_space(trim(s)[0]) && !white_space(trim(s).last()),
{
    let from = lemma_trim_start(s);
    let mid = s.skip(from);
    let k = lemma_trim_end(mid);
    let to = from + k;
    assert(mid.take(k) =~= s.subrange(from, to));
    assert(mid.skip(k) =~= s.skip(to));
    if k > 0 {
        assert(trim(s)[0] == s[from]);
        assert(trim(s).last() == mid[k - 1]);
    }
}

/// Trimming what was trimmed changes nothing.
pub proof fn trim_is_idempotent(s: Seq<char>)
    ensures
        trim(trim(s)) == trim(s),
{
    trim_takes_the_ends_off(s);
    let t = trim(s);
    assert(trim_start(t) == t);
    assert(trim_end(t) == t);
}

/// A text is blank when trimming leaves nothing of it, and only then.
pub proof fn blank_when_trimmed_away(s: Seq<char>)
    ensures
        blank(s) <==> trim(s).len() == 0,
{
    let from = lemma_trim_start(s);
    let mid = s.skip(from);
    let k = lemma_trim_end(mid);
    if blank(s) {
        if k > 0 {
            assert(white_space(s[from + k - 1]));
        }
    } else if k == 0 {
        assert forall|i: int| 0 <= i < s.len() implies white_space(#[trigger] s[i]) by {
            if i < from {
                assert(s.take(from)[i] == s[i]);
            } else {
                assert(mid.skip(0)[i - from] == s[i]);
            }
        }
    }
}

/// The number that decimal digits stand for.
pub open spec fn decimal_value(digits: Seq<char>) -> int
    decreases digits.len(),
{
    if digits.len() == 0 {
        0
    } else {
        10 * decimal_value(digits.drop_last()) + (digits.last() as int - '0' as int)
    }
}

/// A number in decimal notation reads back as the number.
pub proof fn decimal_reads_back(n: nat)
    ensures
        decimal_value(decimal(n)) == n,
    decreases n,
{
    reveal_with_fuel(decimal_value, 2);
    if n >= 10 {
        decimal_reads_back(n / 10);
        assert(decimal(n).drop_last() =~= decimal(n / 10));
    }
}

/// A number in decimal notation is made of digits, at least one, and starts with a zero
/// only where it is zero.
pub proof fn decimal_is_canonical(n: nat)
    ensures
        decimal(n).len() > 0,
        forall|i: int| 0 <= i < decimal(n).len() ==> '0' <= #[trigger] decimal(n)[i] <= '9',
        decimal(n).len() > 1 ==> decimal(n)[0] != '0',
    decreases n,
{
    if n >= 10 {
        let front = decimal(n / 10);
        decimal_is_canonical(n / 10);
        assert forall|i: int| 0 <= i < decimal(n).len() implies '0' <= #[trigger] decimal(n)[i]
            <= '9' by {
            if i < front.len() {
                assert(decimal(n)[i] == front[i]);
            }
        }
        if front.len() == 1 {
            reveal_with_fuel(decimal, 2);
            assert(decimal(n)[0] == front[0]);
        } else {
            assert(decimal(n)[0] == front[0]);
        }
    }
}

/// The code points that Unicode lists as white space.
pub open spec fn white_space_codes() -> Seq<int> {
    seq![
        9, 10, 11, 12, 13, 32, 133, 160, 5760, 8192, 8193, 8194, 8195, 8196, 8197, 8198, 8199,
        8200, 8201, 8202, 8232, 8233, 8239, 8287, 12288,
    ]
}

/// White space is what Unicode lists, and nothing else.
pub proof fn white_space_is_as_listed(c: char)
    ensures
        white_space(c) <==> white_space_codes().contains(c as int),
{
    let codes = white_space_codes();
    let n = c as int;
    assert(codes.len() == 25);
    if white_space(c) {
        let i: int = if 9 <= n <= 13 {
            n - 9
        } else if n == 32 {
            5
        } else if n == 133 {
            6
        } else if n == 160 {
            7
        } else if n == 5760 {
            8
        } else if 8192 <= n <= 8202 {
            n - 8192 + 9
        } else if n == 8232 {
            20
        } else if n == 8233 {
            21
        } else if n == 8239 {
            22
        } else if n == 8287 {
            23
        } else {
            24
        };
        assert(codes[i] == n);
    }
    if codes.contains(n) {
        let i = choose|i: int| 0 <= i < codes.len() && codes[i] == n;
        assert(codes[i] == n);
    }
}

/// White space round a text that neither starts nor ends in white space is what trimming
/// takes off, however much of it there is.
pub proof fn trim_finds_the_core(before: Seq<char>, core: Seq<char>, after: Seq<char>)
    requires
        blank(before),
        blank(after),
        core.len() > 0 ==> !white_space(core[0]) && !white_space(core.last()),
    ensures
        trim(before + core + after) == core,
{
    let s = before + core + after;
    let from = lemma_trim_start(s);
    let mid = s.skip(from);
    let k = lemma_trim_end(mid);
    if core.len() > 0 {
        assert(s[before.len() as int] == core[0]);
        if from < before.len() {
            assert(s[from] == before[from]);
        }
        if from > before.len() {
            assert(s.take(from)[before.len() as int] == core[0]);
        }
        assert(mid =~= core + after);
        assert(mid[core.len() - 1] == core.last());
        if k > core.len() {
            assert(mid[k - 1] == after[k - 1 - core.len()]);
        }
        if k < core.len() {
            assert(mid.skip(k)[core.len() - 1 - k] == core.last());
        }
        assert(mid.take(k) =~= core);
    } else {
        assert forall|i: int| 0 <= i < s.len() implies white_space(#[trigger] s[i]) by {
            if i < before.len() {
                assert(s[i] == before[i]);
            } else {
                assert(s[i] == after[i - before.len()]);
            }
        }
        blank_when_trimmed_away(s);
        assert(trim(s) =~= core);
    }
}

/// An empty text has no lines.
pub proof fn no_text_no_lines()
    ensures
        lines(Seq::empty()).len() == 0,
{
}

/// A text without a line feed is one line, as it is.
pub proof fn one_line_without_a_feed(line: Seq<char>)
    requires
        line.len() > 0,
        !line.contains('\n'),
    ensures
        lines(line) == seq![line],
{
    assert forall|i: int| 0 <= i < line.len() implies line[i] != '\n' by {
        if line[i] == '\n' {
            assert(line.contains('\n'));
        }
    }
    lemma_first_feed(line, line.len() as int);
}

/// A line feed ends a line, and the lines behind it are those of the rest.
pub proof fn a_feed_ends_a_line(line: Seq<char>, rest: Seq<char>)
    requires
        !line.contains('\n'),
        line.len() > 0 ==> line.last() != '\r',
    ensures
        lines(line + seq!['\n'] + rest) == seq![line] + lines(rest),
{
    let s = line + seq!['\n'] + rest;
    assert forall|i: int| 0 <= i < line.len() implies s[i] != '\n' by {
        if s[i] == '\n' {
            assert(line[i] == '\n');
            assert(line.contains('\n'));
        }
    }
    lemma_first_feed(s, line.len() as int);
    assert(s.take(line.len() as int) =~= line);
    assert(s.skip(line.len() as int + 1) =~= rest);
}

/// A carriage return before the line feed belongs to the end of the line, and only that
/// one.
pub proof fn a_return_and_a_feed_end_a_line(line: Seq<char>, rest: Seq<char>)
    requires
        !line.contains('\n'),
    ensures
        lines(line + seq!['\r', '\n'] + rest) == seq![line] + lines(rest),
{
    let s = line + seq!['\r', '\n'] + rest;
    let k = line.len() as int + 1;
    assert forall|i: int| 0 <= i < k implies s[i] != '\n' by {
        if s[i] == '\n' {
            assert(line[i] == '\n');
            assert(line.contains('\n'));
        }
    }
    lemma_first_feed(s, k);
    assert(s.take(k) =~= line.push('\r'));
    assert(line.push('\r').drop_last() =~= line);
    assert(s.skip(k + 1) =~= rest);
}

/// The last items of a list are its end: what was left out stands before them, and no
/// more was left out than had to be.
pub proof fn last_items_are_the_end<T>(items: Seq<T>, n: nat)
    ensures
        last_items(items, n as int).len() == if items.len() < n {
            items.len()
        } else {
            n
        },
        last_items(items, n as int).is_suffix_of(items),
{
    let kept = last_items(items, n as int);
    assert(items.subrange(items.len() - kept.len(), items.len() as int) =~= kept);
}

/// One part by itself is joined to nothing, and none gives an empty text.
pub proof fn joining_one_changes_nothing(part: Seq<char>, sep: Seq<char>)
    ensures
        joined(seq![part], sep) == part,
        joined(Seq::empty(), sep).len() == 0,
{
}

/// What is joined can be cut between any two parts, and the separator stands there once.
pub proof fn joined_is_cut_between_parts(
    front: Seq<Seq<char>>,
    back: Seq<Seq<char>>,
    sep: Seq<char>,
)
    requires
        front.len() > 0,
        back.len() > 0,
    ensures
        joined(front + back, sep) == joined(front, sep) + sep + joined(back, sep),
    decreases back.len(),
{
    let all = front + back;
    assert(all.drop_last() =~= front + back.drop_last());
    assert(all.last() == back.last());
    if back.len() == 1 {
        assert(front + back.drop_last() =~= front);
        assert(joined(back, sep) == back[0]);
    } else {
        joined_is_cut_between_parts(front, back.drop_last(), sep);
        assert(joined(all, sep) =~= joined(front, sep) + sep + joined(back, sep));
    }
}

/// Replacing a character keeps the length, puts the new character where the old one
/// was, and leaves every other character where it is.
pub proof fn replacing_touches_only_that_character(s: Seq<char>, from: char, to: char, i: int)
    requires
        0 <= i < s.len(),
    ensures
        replaced(s, from, to).len() == s.len(),
        s[i] == from ==> replaced(s, from, to)[i] == to,
        s[i] != from ==> replaced(s, from, to)[i] == s[i],
{
}

} // verus!
