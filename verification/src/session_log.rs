//! What R printed, for the error box.

use crate::text::{
    a_feed_ends_a_line, a_return_and_a_feed_end_a_line, blank, is_blank, join_texts, joined,
    last_items, last_items_are_the_end, lines, lines_of, one_line_without_a_feed, texts,
};
use vstd::prelude::*;

verus! {

/// The file that captures the output of R.
#[derive(Debug, PartialEq, Eq)]
pub struct CapturedLog {
    /// The path of the file, as it is shown to the user.
    pub path: String,
    /// What the file holds; `None` where it cannot be read as text.
    pub content: Option<String>,
}

/// The lines of `content` that are not blank.
pub open spec fn printed_lines(content: Seq<char>) -> Seq<Seq<char>> {
    lines(content).filter(|line: Seq<char>| !blank(line))
}

/// The note that ends an error message: where the log is, and its last `n` lines
/// that are not blank. A log with no such line gives an empty note.
pub open spec fn tail_note(path: Seq<char>, content: Seq<char>, n: int) -> Seq<char> {
    let body = last_items(printed_lines(content), n);
    if body.len() == 0 {
        Seq::empty()
    } else {
        "\n\nLast output from R ("@ + path + "):\n"@ + joined(body, "\n"@)
    }
}

/// The note about a log, as far as there is one that can be read.
pub open spec fn log_note(log: Option<CapturedLog>, n: int) -> Seq<char> {
    match log {
        Some(CapturedLog { path, content: Some(content) }) => tail_note(path@, content@, n),
        _ => Seq::empty(),
    }
}

/// The lines of a text that are not blank.
pub fn printed_lines_of(content: &str) -> (kept: Vec<String>)
    ensures
        texts(kept@) == printed_lines(content@),
{
    let all = lines_of(content);
    let mut kept: Vec<String> = Vec::new();
    let mut i: usize = 0;
    let ghost pred = |line: Seq<char>| !blank(line);
    proof {
        reveal(Seq::filter);
        assert(lines(content@).take(0) =~= Seq::empty());
        assert(texts(kept@) =~= Seq::empty());
    }
    while i < all.len()
        invariant
            i <= all@.len(),
            texts(all@) == lines(content@),
            pred == (|line: Seq<char>| !blank(line)),
            texts(kept@) == lines(content@).take(i as int).filter(pred),
        decreases all@.len() - i,
    {
        let ghost before = texts(kept@);
        let ghost line = all@[i as int]@;
        proof {
            reveal(Seq::filter);
            let next = lines(content@).take(i + 1);
            assert(texts(all@)[i as int] == line);
            assert(next.drop_last() =~= lines(content@).take(i as int));
            assert(next.last() == line);
        }
        if !is_blank(all[i].as_str()) {
            kept.push(all[i].clone());
            proof {
                assert(texts(kept@) =~= before.push(line));
            }
        }
        i = i + 1;
    }
    proof {
        assert(all@.len() == texts(all@).len());
        assert(lines(content@).take(i as int) =~= lines(content@));
    }
    kept
}

/// The last few lines of the output of R, for display in the error box. Empty
/// where there is no log, where it cannot be read, or where it holds no text.
pub fn log_tail(log: &Option<CapturedLog>, lines: usize) -> (note: String)
    ensures
        note@ == log_note(*log, lines as int),
{
    let log = match log {
        Some(log) => log,
        None => return String::new(),
    };
    let content = match &log.content {
        Some(content) => content,
        None => return String::new(),
    };
    let kept = printed_lines_of(content.as_str());
    let ghost all = printed_lines(content@);
    let from: usize = if kept.len() <= lines {
        0
    } else {
        kept.len() - lines
    };
    proof {
        assert(kept@.len() == all.len());
        assert(texts(kept@.skip(from as int)) =~= last_items(all, lines as int));
    }
    if from == kept.len() {
        return String::new();
    }
    let mut note = "\n\nLast output from R (".to_owned();
    note.append(log.path.as_str());
    note.append("):\n");
    note.append(join_texts(&kept, from, "\n").as_str());
    note
}

/// The note never shows more lines than were asked for, and none that is blank.
pub proof fn tail_is_short_and_not_blank(content: Seq<char>, n: nat)
    ensures
        ({
            let body = last_items(printed_lines(content), n as int);
            &&& body.len() <= n
            &&& forall|i: int| 0 <= i < body.len() ==> !blank(#[trigger] body[i])
        }),
{
    let all = printed_lines(content);
    let body = last_items(all, n as int);
    assert forall|i: int| 0 <= i < body.len() implies !blank(#[trigger] body[i]) by {
        let at = all.len() - body.len() + i;
        assert(body[i] == all[at]);
        lines(content).lemma_filter_pred(|line: Seq<char>| !blank(line), at);
    }
}

/// A line that is not blank is shown as it is, a blank one not at all, and the lines
/// behind it are shown as they would be by themselves.
pub proof fn line_is_printed_unless_blank(line: Seq<char>, rest: Seq<char>)
    requires
        !line.contains('\n'),
        line.len() > 0 ==> line.last() != '\r',
    ensures
        printed_lines(line + seq!['\n'] + rest) == (if blank(line) {
            printed_lines(rest)
        } else {
            seq![line] + printed_lines(rest)
        }),
        printed_lines(line + seq!['\r', '\n'] + rest) == printed_lines(
            line + seq!['\n'] + rest,
        ),
{
    let pred = |line: Seq<char>| !blank(line);
    a_feed_ends_a_line(line, rest);
    a_return_and_a_feed_end_a_line(line, rest);
    lemma_filter_first(line, lines(rest), pred);
}

/// The last line needs no line feed to be shown.
pub proof fn last_line_is_printed_unless_blank(line: Seq<char>)
    requires
        !line.contains('\n'),
    ensures
        printed_lines(line) == (if blank(line) {
            Seq::empty()
        } else {
            seq![line]
        }),
{
    let pred = |line: Seq<char>| !blank(line);
    reveal(Seq::filter);
    assert(Seq::<Seq<char>>::empty().filter(pred) =~= Seq::empty());
    if line.len() > 0 {
        one_line_without_a_feed(line);
        lemma_filter_first(line, Seq::empty(), pred);
        assert(seq![line] + Seq::<Seq<char>>::empty() =~= seq![line]);
        assert(seq![line] + Seq::<Seq<char>>::empty().filter(pred) =~= seq![line]);
    } else {
        assert(lines(line) =~= Seq::empty());
    }
}

proof fn lemma_filter_first(
    first: Seq<char>,
    rest: Seq<Seq<char>>,
    pred: spec_fn(Seq<char>) -> bool,
)
    ensures
        (seq![first] + rest).filter(pred) == (if pred(first) {
            seq![first] + rest.filter(pred)
        } else {
            rest.filter(pred)
        }),
    decreases rest.len(),
{
    reveal(Seq::filter);
    let all = seq![first] + rest;
    if rest.len() == 0 {
        assert(all.drop_last() =~= Seq::empty());
        assert(all.last() == first);
        assert(rest.filter(pred) =~= Seq::empty());
        assert(all.drop_last().filter(pred) =~= Seq::empty());
        assert(all.filter(pred) =~= if pred(first) {
            seq![first] + rest.filter(pred)
        } else {
            rest.filter(pred)
        });
    } else {
        assert(all.drop_last() =~= seq![first] + rest.drop_last());
        assert(all.last() == rest.last());
        lemma_filter_first(first, rest.drop_last(), pred);
        assert(all.filter(pred) =~= if pred(first) {
            seq![first] + rest.filter(pred)
        } else {
            rest.filter(pred)
        });
    }
}

/// There is a note exactly when a line was asked for and one that is not blank was
/// printed. It names the file and shows the last lines, each on a line of its own: as
/// many as were asked for, or all that there are.
pub proof fn note_shows_the_last_lines(path: Seq<char>, content: Seq<char>, n: nat) -> (shown: Seq<
    Seq<char>,
>)
    ensures
        shown.is_suffix_of(printed_lines(content)),
        shown.len() == n || shown.len() < n && shown == printed_lines(content),
        shown.len() == 0 ==> tail_note(path, content, n as int).len() == 0,
        shown.len() > 0 ==> tail_note(path, content, n as int) == "\n\nLast output from R ("@ + path
            + "):\n"@ + joined(shown, "\n"@),
{
    let all = printed_lines(content);
    let shown = last_items(all, n as int);
    last_items_are_the_end(all, n);
    assert(all.len() < n ==> shown == all);
    shown
}

/// The note of a log that can be read is that of what it holds; without a log, or where
/// it cannot be read, there is none.
pub proof fn note_needs_a_log_that_can_be_read(log: Option<CapturedLog>, n: int)
    ensures
        log is None ==> log_note(log, n).len() == 0,
        log is Some && (log->0).content is None ==> log_note(log, n).len() == 0,
        log is Some && (log->0).content is Some ==> log_note(log, n) == tail_note(
            (log->0).path@,
            ((log->0).content->0)@,
            n,
        ),
{
}

} // verus!
