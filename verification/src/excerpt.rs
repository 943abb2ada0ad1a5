//! The diagnostic excerpt of a job's execution log.
//!
//! A log is a text of lines, each a timestamp token, one space, and a
//! message. The excerpt is the message of the first line whose message holds
//! the failure marker, whatever the case of its letters.

use vstd::prelude::*;
use crate::text::{chars_of, contains, contains_chars, find_char, find_from, lemma_find_from, lowercase, string_of};

verus! {

/// The marker that makes a log line a failure line: `error:`.
pub open spec fn error_marker() -> Seq<char> {
    "error:"@
}

/// Where the line that starts at `start` stops: the position of the next
/// line feed, or the end of the text.
pub open spec fn line_end(text: Seq<char>, start: int) -> int {
    find_from(text, '\n', start)
}

/// The line that starts at `start`, without its line feed, and without the
/// carriage return that stands directly before that line feed, if any.
pub open spec fn line_at(text: Seq<char>, start: int) -> Seq<char> {
    let end = line_end(text, start);
    if end < text.len() && start < end && text[end - 1] == '\r' {
        text.subrange(start, end - 1)
    } else {
        text.subrange(start, end)
    }
}

/// The message of a line: what follows its first space. A line without a
/// space has none.
pub open spec fn message_of(line: Seq<char>) -> Option<Seq<char>> {
    let at = find_from(line, ' ', 0);
    if at < line.len() {
        Some(line.skip(at + 1))
    } else {
        None
    }
}

/// Whether a message holds the failure marker, in any case of letters.
pub open spec fn marks_error(message: Seq<char>) -> bool {
    contains(lowercase(message), error_marker())
}

/// Whether the line that starts at `start` has a message with the marker.
pub open spec fn is_error_line(text: Seq<char>, start: int) -> bool {
    message_of(line_at(text, start)) is Some && marks_error(
        message_of(line_at(text, start)).unwrap(),
    )
}

/// The excerpt of the lines from `start` on, where `start` begins a line.
pub open spec fn excerpt_from(text: Seq<char>, start: int) -> Seq<char>
    decreases text.len() - start,
{
    if start < 0 || start >= text.len() {
        Seq::empty()
    } else if is_error_line(text, start) {
        message_of(line_at(text, start)).unwrap()
    } else if start <= line_end(text, start) < text.len() {
        excerpt_from(text, line_end(text, start) + 1)
    } else {
        Seq::empty()
    }
}

/// The excerpt of a log: the message of its first failure line, or the empty
/// text where no line is one.
pub open spec fn error_excerpt(text: Seq<char>) -> Seq<char> {
    excerpt_from(text, 0)
}

/// Whether a line begins at `at`: at the start of the text, or directly
/// after a line feed.
pub open spec fn begins_line(text: Seq<char>, at: int) -> bool {
    0 <= at < text.len() && (at == 0 || text[at - 1] == '\n')
}

proof fn lemma_no_failure_line_from(text: Seq<char>, start: int)
    requires
        start == 0 || (0 < start <= text.len() && text[start - 1] == '\n'),
        forall|at: int| begins_line(text, at) ==> !is_error_line(text, at),
    ensures
        excerpt_from(text, start) == Seq::<char>::empty(),
    decreases text.len() - start,
{
    if start < text.len() {
        lemma_find_from(text, '\n', start);
        let end = line_end(text, start);
        if end < text.len() {
            lemma_no_failure_line_from(text, end + 1);
        }
    }
}

/// A log in which no line has a message with the marker has the empty
/// excerpt.
pub proof fn lemma_no_failure_line(text: Seq<char>)
    requires
        forall|at: int| begins_line(text, at) ==> !is_error_line(text, at),
    ensures
        error_excerpt(text) == Seq::<char>::empty(),
{
    lemma_no_failure_line_from(text, 0);
}

proof fn lemma_excerpt_is_message_from(text: Seq<char>, start: int)
    requires
        start == 0 || (0 < start <= text.len() && text[start - 1] == '\n'),
    ensures
        excerpt_from(text, start).len() > 0 ==> exists|at: int|
            begins_line(text, at) && #[trigger] is_error_line(text, at) && excerpt_from(
                text,
                start,
            ) == message_of(line_at(text, at)).unwrap(),
    decreases text.len() - start,
{
    if start < text.len() {
        if !is_error_line(text, start) {
            lemma_find_from(text, '\n', start);
            let end = line_end(text, start);
            if end < text.len() {
                lemma_excerpt_is_message_from(text, end + 1);
            }
        }
    }
}

/// An excerpt that is not empty is the message of a line of the log, and
/// that message holds the marker.
pub proof fn lemma_excerpt_is_message(text: Seq<char>)
    ensures
        error_excerpt(text).len() > 0 ==> exists|at: int|
            begins_line(text, at) && #[trigger] is_error_line(text, at) && error_excerpt(text)
                == message_of(line_at(text, at)).unwrap(),
{
    lemma_excerpt_is_message_from(text, 0);
}

fn copy_range(chars: &Vec<char>, from: usize, to: usize) -> (out: Vec<char>)
    requires
        from <= to <= chars.len(),
    ensures
        out@ == chars@.subrange(from as int, to as int),
{
    let mut out: Vec<char> = Vec::new();
    let mut i: usize = from;
    while i < to
        invariant
            from <= i <= to <= chars.len(),
            out@ == chars@.subrange(from as int, i as int),
        decreases to - i,
    {
        out.push(chars[i]);
        i = i + 1;
    }
    out
}

/// The message of `line` if it holds the marker, in the form it has in the
/// log.
fn failure_message(line: &Vec<char>, marker: &Vec<char>) -> (out: Option<String>)
    requires
        marker@ == error_marker(),
    ensures
        out is Some <==> message_of(line@) is Some && marks_error(message_of(line@).unwrap()),
        out is Some ==> out.unwrap()@ == message_of(line@).unwrap(),
{
    let space = find_char(line, ' ', 0, line.len());
    assert(line@.take(line.len() as int) == line@);
    if space >= line.len() {
        return None;
    }
    let message = string_of(line, space + 1, line.len());
    let lowered = message.as_str().to_lowercase();
    let folded = chars_of(lowered.as_str());
    if contains_chars(&folded, marker) {
        Some(message)
    } else {
        None
    }
}

/// Finds the first line of `log` whose message holds `error:`, in any case
/// of letters, and returns that message as it stands in the log; returns the
/// empty string where there is no such line. Lines without a space have no
/// message and are passed over.
pub fn extract_error_excerpt(log: &str) -> (out: String)
    ensures
        out@ == error_excerpt(log@),
{
    let text = chars_of(log);
    let marker = chars_of("error:");
    let mut start: usize = 0;
    while start < text.len()
        invariant
            start <= text.len(),
            text@ == log@,
            marker@ == error_marker(),
            error_excerpt(log@) == excerpt_from(text@, start as int),
        decreases text.len() - start,
    {
        let end = find_char(&text, '\n', start, text.len());
        assert(text@.take(text.len() as int) == text@);
        let stop: usize = if end < text.len() && start < end && text[end - 1] == '\r' {
            end - 1
        } else {
            end
        };
        let line = copy_range(&text, start, stop);
        match failure_message(&line, &marker) {
            Some(message) => {
                return message;
            },
            None => {},
        }
        if end == text.len() {
            return String::new();
        }
        start = end + 1;
    }
    String::new()
}

} // verus!
