//! Splitting raw output into lines.
use crate::text::{chars_of, string_of, texts};
use vstd::prelude::*;

verus! {

/// The number of characters before the first line feed of `text`, or the length of `text` where
/// it has none.
pub open spec fn line_end(text: Seq<char>) -> nat
    decreases text.len(),
{
    if text.len() == 0 || text[0] == '\n' {
        0
    } else {
        1 + line_end(text.drop_first())
    }
}

/// `line` without one carriage return at its end.
pub open spec fn without_return(line: Seq<char>) -> Seq<char> {
    if line.len() > 0 && line.last() == '\r' {
        line.drop_last()
    } else {
        line
    }
}

/// The lines of `text`, without their endings. A line ends with a line feed, or with a carriage
/// return and a line feed; the ending of the last line is optional.
pub open spec fn lines_of(text: Seq<char>) -> Seq<Seq<char>>
    decreases text.len(),
{
    if text.len() == 0 {
        Seq::empty()
    } else if line_end(text) >= text.len() {
        seq![text]
    } else {
        seq![without_return(text.take(line_end(text) as int))] + lines_of(
            text.skip(line_end(text) as int + 1),
        )
    }
}

/// `line_end` is the one index that has no line feed before it and one on it (or the end).
proof fn lemma_line_end(text: Seq<char>, end: int)
    requires
        0 <= end <= text.len(),
        forall|i: int| 0 <= i < end ==> text[i] != '\n',
        end < text.len() ==> text[end] == '\n',
    ensures
        line_end(text) == end,
    decreases text.len(),
{
    if end > 0 {
        let rest = text.drop_first();
        assert forall|i: int| 0 <= i < end - 1 implies rest[i] != '\n' by {
            assert(rest[i] == text[i + 1]);
        }
        lemma_line_end(rest, end - 1);
    }
}

/// No line feed stands before `line_end`, and one stands on it unless the text has none.
proof fn lemma_line_end_bounds(text: Seq<char>)
    ensures
        line_end(text) <= text.len(),
        line_end(text) < text.len() ==> text[line_end(text) as int] == '\n',
        forall|i: int| 0 <= i < line_end(text) ==> text[i] != '\n',
    decreases text.len(),
{
    if text.len() > 0 && text[0] != '\n' {
        let rest = text.drop_first();
        lemma_line_end_bounds(rest);
        assert forall|i: int| 0 <= i < line_end(text) implies text[i] != '\n' by {
            if i > 0 {
                assert(rest[i - 1] == text[i]);
            }
        }
    }
}

/// Splits a text into lines.
pub fn split_lines(raw: &str) -> (res: Vec<String>)
    ensures
        texts(res@) == lines_of(raw@),
{
    let chars: Vec<char> = chars_of(raw);
    let mut res: Vec<String> = Vec::new();
    let mut start: usize = 0;
    let mut i: usize = 0;
    assert(raw@.skip(0) =~= raw@);
    assert(texts(res@) + lines_of(raw@.skip(0)) =~= lines_of(raw@));
    while i < chars.len()
        invariant
            chars@ == raw@,
            start <= i <= chars.len(),
            forall|j: int| start <= j < i ==> chars@[j] != '\n',
            texts(res@) + lines_of(raw@.skip(start as int)) == lines_of(raw@),
        decreases chars.len() - i,
    {
        if chars[i] == '\n' {
            let ghost rest = raw@.skip(start as int);
            let ghost done = texts(res@);
            let end: usize = if i > start && chars[i - 1] == '\r' {
                i - 1
            } else {
                i
            };
            let line: String = string_of(&chars, start, end);
            proof {
                lemma_line_end(rest, i - start);
                assert(rest.take(i - start) =~= raw@.subrange(start as int, i as int));
                assert(line@ =~= without_return(rest.take(i - start)));
                assert(rest.skip(i - start + 1) =~= raw@.skip(i + 1));
            }
            res.push(line);
            assert(texts(res@) =~= done.push(line@));
            assert(texts(res@) + lines_of(raw@.skip(i + 1)) =~= done + (seq![line@] + lines_of(
                raw@.skip(i + 1),
            )));
            start = i + 1;
        }
        i = i + 1;
    }
    let ghost rest = raw@.skip(start as int);
    let ghost done = texts(res@);
    if start < chars.len() {
        let line: String = string_of(&chars, start, chars.len());
        proof {
            lemma_line_end(rest, rest.len() as int);
            assert(line@ =~= rest);
        }
        res.push(line);
        assert(texts(res@) =~= done.push(line@));
        assert(done.push(line@) =~= done + seq![line@]);
    } else {
        assert(done + lines_of(rest) =~= done);
    }
    res
}

/// The lines of a text of whole lines come first among the lines of every text that begins with it:
/// what follows neither changes nor renumbers them.
pub proof fn law_lines_of_whole_lines(whole: Seq<char>, rest: Seq<char>)
    requires
        whole.len() == 0 || whole.last() == '\n',
    ensures
        lines_of(whole + rest) == lines_of(whole) + lines_of(rest),
    decreases whole.len(),
{
    if whole.len() == 0 {
        assert(whole + rest =~= rest);
        assert(lines_of(whole) + lines_of(rest) =~= lines_of(rest));
    } else {
        let text = whole + rest;
        let end = line_end(whole) as int;
        lemma_line_end_bounds(whole);
        assert(text[whole.len() - 1] == '\n');
        assert forall|i: int| 0 <= i < end implies text[i] != '\n' by {
            assert(text[i] == whole[i]);
        }
        assert(end < whole.len());
        lemma_line_end(text, end);
        let more = whole.skip(end + 1);
        law_lines_of_whole_lines(more, rest);
        assert(text.take(end) =~= whole.take(end));
        assert(text.skip(end + 1) =~= more + rest);
        let line = seq![without_return(whole.take(end))];
        assert(line + (lines_of(more) + lines_of(rest)) =~= (line + lines_of(more)) + lines_of(rest));
    }
}

} // verus!
