//! Strings as sequences of characters, and texts as sequences of lines.

use vstd::prelude::*;

verus! {

/// `String::push` appends one character to the end of a string. Taken on
/// trust, from its documentation.
pub assume_specification[ String::push ](s: &mut String, ch: char)
    ensures
        final(s)@ == old(s)@.push(ch),
;

/// The position of the first line feed from `start` on, or the end of the
/// text where no line feed follows.
pub open spec fn line_feed_from(text: Seq<char>, start: int) -> int
    decreases text.len() - start,
{
    if 0 <= start < text.len() && text[start] != '\n' {
        line_feed_from(text, start + 1)
    } else {
        start
    }
}

/// The line that begins at `start` and whose line feed, or the end of the
/// text, stands at `end`. A carriage return directly before the line feed
/// belongs to the line ending and not to the line.
pub open spec fn line_between(text: Seq<char>, start: int, end: int) -> Seq<char> {
    if start < end < text.len() && text[end - 1] == '\r' {
        text.subrange(start, end - 1)
    } else {
        text.subrange(start, end)
    }
}

/// The lines of the part of the text from `start` on. A line ends with a
/// line feed, or with a carriage return and a line feed; the last line may
/// end with the text. The line endings are no part of the lines.
pub open spec fn lines_from(text: Seq<char>, start: int) -> Seq<Seq<char>>
    decreases text.len() + 1 - start,
    via lines_from_decreases
{
    if 0 <= start < text.len() {
        let end = line_feed_from(text, start);
        seq![line_between(text, start, end)] + lines_from(text, end + 1)
    } else {
        Seq::empty()
    }
}

#[via_fn]
proof fn lines_from_decreases(text: Seq<char>, start: int) {
    if 0 <= start < text.len() {
        lemma_line_feed_from_bounds(text, start);
    }
}

/// The lines of a text. The empty text has no lines.
pub open spec fn lines_of(text: Seq<char>) -> Seq<Seq<char>> {
    lines_from(text, 0)
}

/// The first line feed from `start` on stands between `start` and the end
/// of the text, and no line feed stands before it.
pub proof fn lemma_line_feed_from_bounds(text: Seq<char>, start: int)
    requires
        0 <= start <= text.len(),
    ensures
        start <= line_feed_from(text, start) <= text.len(),
        forall|k: int| start <= k < line_feed_from(text, start) ==> text[k] != '\n',
        line_feed_from(text, start) < text.len() ==> text[line_feed_from(text, start)] == '\n',
    decreases text.len() - start,
{
    if start < text.len() && text[start] != '\n' {
        lemma_line_feed_from_bounds(text, start + 1);
    }
}

/// The characters of a text, in order.
pub(crate) fn chars_of(text: &str) -> (chars: Vec<char>)
    ensures
        chars@ == text@,
{
    let mut chars: Vec<char> = Vec::new();
    for c in it: text.chars()
        invariant
            it.seq() == text@,
            chars@ == it.seq().take(it.index()),
    {
        chars.push(c);
    }
    chars
}

/// The string made of the characters of `chars` from `start` up to `end`.
pub(crate) fn string_of(chars: &Vec<char>, start: usize, end: usize) -> (text: String)
    requires
        start <= end <= chars.len(),
    ensures
        text@ == chars@.subrange(start as int, end as int),
{
    let mut text = String::new();
    let mut i: usize = start;
    while i < end
        invariant
            start <= i <= end <= chars.len(),
            text@ == chars@.subrange(start as int, i as int),
        decreases end - i,
    {
        text.push(chars[i]);
        i += 1;
    }
    text
}

/// Splits a text into its lines.
pub fn split_lines(text: &str) -> (lines: Vec<String>)
    ensures
        lines.deep_view() == lines_of(text@),
{
    let chars = chars_of(text);
    let mut lines: Vec<String> = Vec::new();
    let mut start: usize = 0;
    while start < chars.len()
        invariant
            start <= chars.len(),
            lines.deep_view() + lines_from(chars@, start as int) == lines_of(chars@),
        decreases chars.len() - start,
    {
        let ghost before = lines.deep_view();
        let mut end: usize = start;
        while end < chars.len() && chars[end] != '\n'
            invariant
                start <= end <= chars.len(),
                line_feed_from(chars@, end as int) == line_feed_from(chars@, start as int),
            decreases chars.len() - end,
        {
            end += 1;
        }
        let line = if start < end && end < chars.len() && chars[end - 1] == '\r' {
            string_of(&chars, start, end - 1)
        } else {
            string_of(&chars, start, end)
        };
        lines.push(line);
        proof {
            assert(lines.deep_view() + lines_from(chars@, end + 1) =~= before + lines_from(
                chars@,
                start as int,
            ));
        }
        start = if end < chars.len() {
            end + 1
        } else {
            end
        };
    }
    lines
}

} // verus!
