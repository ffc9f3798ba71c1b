//! Cutting text at UTF-8 character boundaries.
use crate::text::{byte_count, byte_len, chars_of, string_of, width_of};
use crate::text::{lemma_byte_len_prefix, lemma_byte_len_push, lemma_byte_len_step};
use crate::text::{lemma_byte_len_whole, lemma_char_width};
use vstd::prelude::*;
use vstd::utf8::is_ascii_chars;

verus! {

/// How many characters of `text` begin before byte `limit`.
pub open spec fn starting_before(text: Seq<char>, limit: nat) -> nat
    decreases text.len(),
{
    if text.len() == 0 {
        0
    } else if byte_len(text.drop_last()) < limit {
        text.len()
    } else {
        starting_before(text.drop_last(), limit)
    }
}

/// The length, in characters, of the longest prefix of `text` that fits in `limit` bytes.
pub open spec fn fitting_within(text: Seq<char>, limit: nat) -> nat
    decreases text.len(),
{
    if text.len() == 0 || byte_len(text) <= limit {
        text.len()
    } else {
        fitting_within(text.drop_last(), limit)
    }
}

/// `text`, or, where it takes more than `max_bytes` bytes, its characters that begin before byte
/// `max_bytes`, followed by an ellipsis. At least the last character of such a text is cut off.
pub open spec fn truncated(text: Seq<char>, max_bytes: nat) -> Seq<char> {
    if byte_len(text) <= max_bytes {
        text
    } else {
        let cut = starting_before(text, max_bytes);
        text.take(
            if cut < text.len() {
                cut as int
            } else {
                text.len() - 1
            },
        ).push('…')
    }
}

/// `starting_before` is the one cut before which every character begins in time and after which
/// none does.
pub proof fn lemma_starting_before(text: Seq<char>, limit: nat, cut: int)
    requires
        0 <= cut <= text.len(),
        cut > 0 ==> byte_len(text.take(cut - 1)) < limit,
        cut < text.len() ==> byte_len(text.take(cut)) >= limit,
    ensures
        starting_before(text, limit) == cut,
    decreases text.len(),
{
    if cut < text.len() {
        let shorter = text.drop_last();
        lemma_byte_len_prefix(text, cut, text.len() - 1);
        assert(shorter =~= text.take(text.len() - 1));
        assert(shorter.take(cut) =~= text.take(cut));
        if cut > 0 {
            assert(shorter.take(cut - 1) =~= text.take(cut - 1));
        }
        lemma_starting_before(shorter, limit, cut);
    } else if cut > 0 {
        assert(text.drop_last() =~= text.take(cut - 1));
    }
}

/// `starting_before` never passes the end, and every character that it counts begins before the
/// limit.
pub proof fn lemma_starting_before_bounds(text: Seq<char>, limit: nat)
    ensures
        starting_before(text, limit) <= text.len(),
        starting_before(text, limit) > 0 ==> byte_len(
            text.take(starting_before(text, limit) - 1),
        ) < limit,
        starting_before(text, limit) < text.len() ==> byte_len(
            text.take(starting_before(text, limit) as int),
        ) >= limit,
    decreases text.len(),
{
    if text.len() > 0 {
        let shorter = text.drop_last();
        let cut = starting_before(text, limit) as int;
        assert(shorter =~= text.take(text.len() - 1));
        if byte_len(shorter) >= limit {
            lemma_starting_before_bounds(shorter, limit);
            assert(shorter.take(cut) =~= text.take(cut));
            if cut > 0 {
                assert(shorter.take(cut - 1) =~= text.take(cut - 1));
            }
            if cut == shorter.len() {
                assert(text.take(cut) =~= shorter);
            }
        }
    }
}

/// `fitting_within` is the one cut that fits where one more character would not.
pub proof fn lemma_fitting_within(text: Seq<char>, limit: nat, cut: int)
    requires
        0 <= cut <= text.len(),
        byte_len(text.take(cut)) <= limit,
        cut < text.len() ==> byte_len(text.take(cut + 1)) > limit,
    ensures
        fitting_within(text, limit) == cut,
    decreases text.len(),
{
    if cut < text.len() {
        let shorter = text.drop_last();
        lemma_byte_len_prefix(text, cut + 1, text.len() as int);
        assert(text.take(text.len() as int) =~= text);
        assert(shorter.take(cut) =~= text.take(cut));
        if cut < shorter.len() {
            assert(shorter.take(cut + 1) =~= text.take(cut + 1));
        }
        lemma_fitting_within(shorter, limit, cut);
    } else {
        assert(text.take(cut) =~= text);
    }
}

/// The longest fitting prefix fits, and one more character would not.
pub proof fn lemma_fitting_within_bounds(text: Seq<char>, limit: nat)
    ensures
        fitting_within(text, limit) <= text.len(),
        byte_len(text.take(fitting_within(text, limit) as int)) <= limit,
        fitting_within(text, limit) < text.len() ==> byte_len(
            text.take(fitting_within(text, limit) as int + 1),
        ) > limit,
    decreases text.len(),
{
    assert(text.take(text.len() as int) =~= text);
    if text.len() > 0 && byte_len(text) > limit {
        let shorter = text.drop_last();
        let cut = fitting_within(text, limit) as int;
        lemma_fitting_within_bounds(shorter, limit);
        assert(shorter.take(cut) =~= text.take(cut));
        if cut < shorter.len() {
            assert(shorter.take(cut + 1) =~= text.take(cut + 1));
        } else {
            assert(text.take(cut + 1) =~= text);
        }
    }
}

/// A text that takes bytes has a character.
proof fn lemma_not_empty(text: Seq<char>)
    requires
        byte_len(text) > 0,
    ensures
        text.len() > 0,
{
}

/// How many of `chars` begin before byte `limit`.
pub fn count_starting_before(chars: &Vec<char>, limit: usize) -> (cut: usize)
    requires
        byte_len(chars@) <= usize::MAX,
    ensures
        cut == starting_before(chars@, limit as nat),
        cut <= chars.len(),
{
    let mut cut: usize = 0;
    let mut bytes: usize = 0;
    assert(chars@.take(0) =~= Seq::<char>::empty());
    while cut < chars.len() && bytes < limit
        invariant
            cut <= chars.len(),
            bytes == byte_len(chars@.take(cut as int)),
            byte_len(chars@) <= usize::MAX,
            cut > 0 ==> byte_len(chars@.take(cut - 1)) < limit,
        decreases chars.len() - cut,
    {
        proof {
            lemma_byte_len_step(chars@, cut as int);
            lemma_byte_len_whole(chars@, cut + 1);
        }
        bytes = bytes + width_of(chars[cut]);
        cut = cut + 1;
    }
    proof {
        lemma_starting_before(chars@, limit as nat, cut as int);
    }
    cut
}

/// How many of `chars`, from the first on, fit in `limit` bytes.
pub fn count_fitting_within(chars: &Vec<char>, limit: usize) -> (cut: usize)
    ensures
        cut == fitting_within(chars@, limit as nat),
        cut <= chars.len(),
{
    let mut cut: usize = 0;
    let mut room: usize = limit;
    assert(chars@.take(0) =~= Seq::<char>::empty());
    while cut < chars.len() && width_of(chars[cut]) <= room
        invariant
            cut <= chars.len(),
            byte_len(chars@.take(cut as int)) + room == limit,
        decreases chars.len() - cut,
    {
        proof {
            lemma_byte_len_step(chars@, cut as int);
        }
        room = room - width_of(chars[cut]);
        cut = cut + 1;
    }
    proof {
        if cut < chars.len() {
            lemma_byte_len_step(chars@, cut as int);
        }
        lemma_fitting_within(chars@, limit as nat, cut as int);
    }
    cut
}

/// Truncates a string at a UTF-8 character boundary, appending "…" if truncated.
///
/// The text that stays is every character that begins before byte `max_bytes`, but for the last
/// character of the string.
pub fn truncate_utf8(s: &str, max_bytes: usize) -> (res: String)
    ensures
        res@ == truncated(s@, max_bytes as nat),
{
    let total: usize = byte_count(s);
    if total <= max_bytes {
        return s.to_owned();
    }
    let chars: Vec<char> = chars_of(s);
    let begun: usize = count_starting_before(&chars, max_bytes);
    proof {
        lemma_not_empty(s@);
    }
    let cut: usize = if begun < chars.len() {
        begun
    } else {
        chars.len() - 1
    };
    let mut res: String = string_of(&chars, 0, cut);
    res.push('…');
    assert(chars@.subrange(0, cut as int) =~= s@.take(cut as int));
    res
}

// ---------------------------------------------------------------------------
// Laws
// ---------------------------------------------------------------------------

/// A text that fits stays as it is; any other becomes a proper prefix of itself followed by an
/// ellipsis, so that an ellipsis is added only where something was cut off.
pub proof fn law_truncated_is_prefix(text: Seq<char>, max_bytes: nat)
    ensures
        byte_len(text) <= max_bytes ==> truncated(text, max_bytes) == text,
        byte_len(text) > max_bytes ==> {
            &&& truncated(text, max_bytes).last() == '…'
            &&& truncated(text, max_bytes).drop_last().is_prefix_of(text)
            &&& truncated(text, max_bytes).drop_last().len() < text.len()
        },
{
    if byte_len(text) > max_bytes {
        lemma_not_empty(text);
        let result = truncated(text, max_bytes);
        let cut = result.len() - 1;
        assert(result.drop_last() =~= text.take(cut));
    }
}

/// Truncation leaves at most `max_bytes` characters of the text, the last of which may reach at
/// most three bytes beyond the limit, and the ellipsis takes three bytes more.
pub proof fn law_truncated_is_bounded(text: Seq<char>, max_bytes: nat)
    ensures
        truncated(text, max_bytes).len() <= max_bytes + 1,
        byte_len(truncated(text, max_bytes)) <= max_bytes + 6,
{
    lemma_byte_len_whole(text, 0);
    if byte_len(text) > max_bytes {
        lemma_not_empty(text);
        lemma_starting_before_bounds(text, max_bytes);
        let begun = starting_before(text, max_bytes) as int;
        let cut = truncated(text, max_bytes).len() - 1;
        let kept = text.take(cut);
        if cut > 0 {
            lemma_byte_len_prefix(text, cut - 1, begun - 1);
            lemma_byte_len_step(text, cut - 1);
            lemma_char_width(text[cut - 1]);
            lemma_byte_len_prefix(text, 0, cut - 1);
        } else {
            assert(kept =~= Seq::<char>::empty());
        }
        lemma_byte_len_push(kept, '…');
        lemma_char_width('…');
    }
}

/// Of an ASCII text exactly `max_bytes` characters stay, so the result takes `max_bytes + 3` bytes.
pub proof fn law_truncated_ascii(text: Seq<char>, max_bytes: nat)
    requires
        is_ascii_chars(text),
        byte_len(text) > max_bytes,
    ensures
        truncated(text, max_bytes) == text.take(max_bytes as int).push('…'),
        byte_len(truncated(text, max_bytes)) == max_bytes + 3,
{
    lemma_ascii_byte_len(text);
    let kept = text.take(max_bytes as int);
    lemma_ascii_byte_len(kept);
    if max_bytes > 0 {
        lemma_ascii_byte_len(text.take(max_bytes - 1));
    }
    lemma_starting_before(text, max_bytes, max_bytes as int);
    lemma_byte_len_push(kept, '…');
    lemma_char_width('…');
}

/// An ASCII text takes one byte per character.
pub proof fn lemma_ascii_byte_len(text: Seq<char>)
    requires
        is_ascii_chars(text),
    ensures
        byte_len(text) == text.len(),
{
    vstd::utf8::is_ascii_chars_encode_utf8(text);
}

/// The longest fitting prefix is the whole text exactly when the text fits.
pub proof fn law_fitting_prefix(text: Seq<char>, limit: nat)
    ensures
        fitting_within(text, limit) <= text.len(),
        byte_len(text.take(fitting_within(text, limit) as int)) <= limit,
        fitting_within(text, limit) == text.len() <==> byte_len(text) <= limit,
        forall|cut: int|
            0 <= cut <= text.len() && #[trigger] byte_len(text.take(cut)) <= limit ==> cut
                <= fitting_within(text, limit),
{
    lemma_fitting_within_bounds(text, limit);
    let best = fitting_within(text, limit) as int;
    assert(text.take(text.len() as int) =~= text);
    assert forall|cut: int|
        0 <= cut <= text.len() && #[trigger] byte_len(text.take(cut)) <= limit implies cut
        <= best by {
        if cut > best {
            lemma_byte_len_prefix(text, best + 1, cut);
        }
    }
}

} // verus!
