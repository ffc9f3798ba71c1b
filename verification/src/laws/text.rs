//! Laws on byte counts, decimal numbers, lines and truncation.
use crate::lines::{law_lines_of_whole_lines, line_end, lines_of, split_lines};
use crate::text::{byte_count, byte_len, decimal, push_decimal};
use crate::text::{lemma_byte_len_prefix, lemma_byte_len_push, lemma_char_width};
use crate::truncate::{lemma_starting_before_bounds, starting_before, truncate_utf8};
use vstd::prelude::*;

verus! {

/// The empty text takes no bytes, and every character adds one to four bytes, by its code point.
pub proof fn law_bytes_add_up(text: Seq<char>, c: char)
    ensures
        byte_len(Seq::<char>::empty()) == 0,
        byte_len(text.push(c)) - byte_len(text) == (if c as u32 <= 0x7f {
            1int
        } else if c as u32 <= 0x7ff {
            2
        } else if c as u32 <= 0xffff {
            3
        } else {
            4
        }),
{
    lemma_byte_len_push(text, c);
    lemma_char_width(c);
}

/// The byte count of a string is that of its UTF-8 encoding.
pub proof fn law_byte_count(s: &str, n: usize)
    requires
        call_ensures(byte_count, (s,), n),
    ensures
        n == vstd::utf8::encode_utf8(s@).len(),
{
}

/// The number that a sequence of decimal digits denotes.
pub open spec fn number_of(digits: Seq<char>) -> int
    decreases digits.len(),
{
    if digits.len() == 0 {
        0
    } else {
        10 * number_of(digits.drop_last()) + (digits.last() as int - '0' as int)
    }
}

/// Decimal notation consists of digits, denotes the number that was written, and has no leading
/// zeros.
pub proof fn law_decimal_denotes_the_number(n: nat)
    ensures
        number_of(decimal(n)) == n,
        decimal(n).len() >= 1,
        forall|i: int| 0 <= i < decimal(n).len() ==> '0' <= #[trigger] decimal(n)[i] <= '9',
        n > 0 ==> decimal(n)[0] != '0',
        n == 0 ==> decimal(n) == seq!['0'],
    decreases n,
{
    if n >= 10 {
        law_decimal_denotes_the_number(n / 10);
        assert(decimal(n).drop_last() =~= decimal(n / 10));
        assert(n == 10 * (n / 10) + n % 10);
        assert(decimal(n)[0] == decimal(n / 10)[0]);
    } else {
        assert(decimal(n).drop_last() =~= Seq::<char>::empty());
        assert(number_of(Seq::<char>::empty()) == 0);
    }
}

/// Writing a number leaves the text before it as it was.
pub proof fn law_number_is_appended(s: &mut String, n: u64)
    requires
        call_ensures(push_decimal, (s, n), ()),
    ensures
        old(s)@.is_prefix_of(final(s)@),
        number_of(final(s)@.skip(old(s)@.len() as int)) == n,
        final(s)@.skip(old(s)@.len() as int) == decimal(n as nat),
{
    law_decimal_denotes_the_number(n as nat);
    assert(final(s)@.skip(old(s)@.len() as int) =~= decimal(n as nat));
}

proof fn lemma_no_line_end(text: Seq<char>)
    requires
        !text.contains('\n'),
    ensures
        line_end(text) == text.len(),
        line_end(text.push('\n')) == text.len(),
    decreases text.len(),
{
    let ended = text.push('\n');
    if text.len() > 0 {
        let rest = text.drop_first();
        assert(text[0] != '\n' && ended[0] == text[0]) by {
            assert(text.contains(text[0]));
        }
        assert(!rest.contains('\n')) by {
            assert forall|i: int| 0 <= i < rest.len() implies rest[i] != '\n' by {
                assert(rest[i] == text[i + 1]);
                assert(text.contains(text[i + 1]));
            }
        }
        lemma_no_line_end(rest);
        assert(ended.drop_first() =~= rest.push('\n'));
    } else {
        assert(ended[0] == '\n');
    }
}

/// A text without a line feed is one line, or none if it is empty; with a line feed behind it, it is
/// one line that loses at most one carriage return at its end. What follows a line feed comes as
/// further lines.
pub proof fn law_lines(line: Seq<char>, rest: Seq<char>)
    requires
        !line.contains('\n'),
    ensures
        line.len() > 0 ==> lines_of(line) == seq![line],
        line.len() == 0 ==> lines_of(line) == Seq::<Seq<char>>::empty(),
        lines_of(line + seq!['\n'] + rest) == (if line.len() > 0 && line.last() == '\r' {
            seq![line.drop_last()]
        } else {
            seq![line]
        }) + lines_of(rest),
{
    lemma_no_line_end(line);
    let ended = line + seq!['\n'];
    assert(ended =~= line.push('\n'));
    assert(ended.take(line.len() as int) =~= line);
    assert(ended.skip(line.len() as int + 1) =~= Seq::empty());
    law_lines_of_whole_lines(ended, rest);
    assert(lines_of(Seq::<char>::empty()) =~= Seq::<Seq<char>>::empty());
    assert(lines_of(ended) =~= (if line.len() > 0 && line.last() == '\r' {
        seq![line.drop_last()]
    } else {
        seq![line]
    }));
}

/// Splitting gives the lines of the text, each as it stands there.
pub proof fn law_split_lines(raw: &str, res: Vec<String>)
    requires
        call_ensures(split_lines, (raw,), res),
    ensures
        res@.len() == lines_of(raw@).len(),
        forall|i: int| 0 <= i < res@.len() ==> (#[trigger] res@[i])@ == lines_of(raw@)[i],
{
    assert forall|i: int| 0 <= i < res@.len() implies (#[trigger] res@[i])@ == lines_of(raw@)[i] by {
        assert(crate::text::texts(res@)[i] == res@[i]@);
    }
}

/// A text that fits is given back. Of any other, the result is an ellipsis behind a proper prefix of
/// the text, which holds every character that begins before the limit, save the last of the text,
/// and none that begins later.
pub proof fn law_truncate_utf8(s: &str, max_bytes: usize, res: String)
    requires
        call_ensures(truncate_utf8, (s, max_bytes), res),
    ensures
        byte_len(s@) <= max_bytes ==> res@ == s@,
        byte_len(s@) > max_bytes ==> {
            &&& 1 <= res@.len() <= s@.len()
            &&& res@.last() == '…'
            &&& forall|i: int| 0 <= i < res@.len() - 1 ==> #[trigger] res@[i] == s@[i]
            &&& forall|i: int|
                0 <= i < s@.len() - 1 ==> (i < res@.len() - 1 <==> #[trigger] byte_len(s@.take(i))
                    < max_bytes)
        },
{
    if byte_len(s@) > max_bytes {
        let text = s@;
        assert(text.len() > 0) by {
            if text.len() == 0 {
                assert(byte_len(text) == 0);
            }
        }
        lemma_starting_before_bounds(text, max_bytes as nat);
        let begun = starting_before(text, max_bytes as nat) as int;
        assert forall|i: int| 0 <= i < text.len() - 1 implies (i < res@.len() - 1
            <==> #[trigger] byte_len(text.take(i)) < max_bytes) by {
            if i < begun {
                lemma_byte_len_prefix(text, i, begun - 1);
            } else {
                lemma_byte_len_prefix(text, begun, i);
            }
        }
    }
}

} // verus!
