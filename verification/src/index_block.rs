//! The index block of a hint: index results as text.
use crate::index::{entries, matched, IndexEntry, IndexResult};
use crate::text::{decimal, push_decimal, texts};
use crate::truncate::{truncate_utf8, truncated};
use vstd::prelude::*;

verus! {

/// Max chars to show for matched line text in index hints.
pub const INDEX_LINE_TRUNCATE: usize = 80;

/// The texts of `list`, with `separator` between each two.
pub open spec fn joined(list: Seq<Seq<char>>, separator: Seq<char>) -> Seq<char>
    decreases list.len(),
{
    if list.len() <= 1 {
        if list.len() == 0 {
            Seq::empty()
        } else {
            list[0]
        }
    } else {
        joined(list.drop_last(), separator) + separator + list.last()
    }
}

/// The reference to a line by its number.
pub open spec fn line_reference(number: nat) -> Seq<char> {
    "L"@ + decimal(number)
}

/// The line of the block that shows one match with its text.
pub open spec fn match_text(name: Seq<char>, number: nat, text: Seq<char>) -> Seq<char> {
    "  "@ + name + " → "@ + line_reference(number) + ": \""@ + truncated(
        text,
        INDEX_LINE_TRUNCATE as nat,
    ) + "\""@
}

/// The line of the block that lists the numbers of all matches.
pub open spec fn numbers_text(name: Seq<char>, matches: Seq<(nat, Seq<char>)>) -> Seq<char> {
    "  "@ + name + " → "@ + joined(
        matches.map_values(|m: (nat, Seq<char>)| line_reference(m.0)),
        ", "@,
    )
}

/// The lines of the block for one entry.
pub open spec fn entry_lines(entry: IndexEntry) -> Seq<Seq<char>> {
    if entry.show_line {
        entry.matches.map_values(|m: (nat, Seq<char>)| match_text(entry.name, m.0, m.1))
    } else {
        seq![numbers_text(entry.name, entry.matches)]
    }
}

/// The lines of the block for all entries, in order.
pub open spec fn index_lines(index: Seq<IndexEntry>) -> Seq<Seq<char>>
    decreases index.len(),
{
    if index.len() == 0 {
        Seq::empty()
    } else {
        index_lines(index.drop_last()) + entry_lines(index.last())
    }
}

/// The line of the block that points to where the shown output was cut.
pub open spec fn truncation_text(number: nat) -> Seq<char> {
    "  truncated → output truncated after "@ + line_reference(number) + "; full results from "@
        + line_reference(number) + " in tee file"@
}

/// The lines of the block.
pub open spec fn block_lines(index: Seq<IndexEntry>, truncation_line: Option<usize>) -> Seq<
    Seq<char>,
> {
    match truncation_line {
        Some(number) => index_lines(index).push(truncation_text(number as nat)),
        None => index_lines(index),
    }
}

/// The index block.
pub open spec fn index_block(index: Seq<IndexEntry>, truncation_line: Option<usize>) -> Seq<char> {
    joined(block_lines(index, truncation_line), "\n"@)
}

/// Joins strings with a separator between each two.
fn join_strings(list: &Vec<String>, separator: &str) -> (res: String)
    ensures
        res@ == joined(texts(list@), separator@),
{
    let ghost all = texts(list@);
    let mut res: String = String::new();
    let mut i: usize = 0;
    while i < list.len()
        invariant
            i <= list.len(),
            all == texts(list@),
            res@ == joined(all.take(i as int), separator@),
        decreases list.len() - i,
    {
        assert(all.take(i + 1).drop_last() =~= all.take(i as int));
        let ghost before = res@;
        if i > 0 {
            res.append(separator);
        } else {
            assert(before + list@[0]@ =~= list@[0]@);
        }
        res.append(list[i].as_str());
        i = i + 1;
    }
    assert(all.take(i as int) =~= all);
    res
}

fn push_line_reference(s: &mut String, number: usize)
    ensures
        final(s)@ == old(s)@ + line_reference(number as nat),
{
    s.append("L");
    push_decimal(s, number as u64);
    assert(s@ =~= old(s)@ + line_reference(number as nat));
}

fn format_match(name: &str, number: usize, text: &str) -> (res: String)
    ensures
        res@ == match_text(name@, number as nat, text@),
{
    let mut res: String = "  ".to_owned();
    res.append(name);
    res.append(" → ");
    push_line_reference(&mut res, number);
    res.append(": \"");
    let display_text: String = truncate_utf8(text, INDEX_LINE_TRUNCATE);
    res.append(display_text.as_str());
    res.append("\"");
    res
}

fn format_numbers(name: &str, matches: &Vec<(usize, String)>) -> (res: String)
    ensures
        res@ == numbers_text(name@, matched(matches@)),
{
    let ghost found = matched(matches@);
    let ghost references = found.map_values(|m: (nat, Seq<char>)| line_reference(m.0));
    let mut numbers: Vec<String> = Vec::new();
    let mut i: usize = 0;
    while i < matches.len()
        invariant
            i <= matches.len(),
            found == matched(matches@),
            references == found.map_values(|m: (nat, Seq<char>)| line_reference(m.0)),
            texts(numbers@) == references.take(i as int),
        decreases matches.len() - i,
    {
        let ghost before = texts(numbers@);
        let mut number: String = String::new();
        push_line_reference(&mut number, matches[i].0);
        assert(number@ =~= references[i as int]);
        numbers.push(number);
        assert(texts(numbers@) =~= before.push(number@));
        assert(texts(numbers@) =~= references.take(i + 1));
        i = i + 1;
    }
    assert(references.take(i as int) =~= references);
    let mut res: String = "  ".to_owned();
    res.append(name);
    res.append(" → ");
    let list: String = join_strings(&numbers, ", ");
    res.append(list.as_str());
    res
}

fn format_truncation(number: usize) -> (res: String)
    ensures
        res@ == truncation_text(number as nat),
{
    let mut res: String = "  truncated → output truncated after ".to_owned();
    push_line_reference(&mut res, number);
    res.append("; full results from ");
    push_line_reference(&mut res, number);
    res.append(" in tee file");
    res
}

/// Appends the lines of one entry to the lines of a block.
fn push_entry_lines(lines: &mut Vec<String>, result: &IndexResult)
    ensures
        texts(final(lines)@) == texts(old(lines)@) + entry_lines(result@),
{
    let ghost start = texts(lines@);
    if result.show_line {
        let ghost shown = entry_lines(result@);
        let mut i: usize = 0;
        assert(start + shown.take(0) =~= start);
        while i < result.matches.len()
            invariant
                i <= result.matches.len(),
                result.show_line,
                shown == entry_lines(result@),
                texts(lines@) == start + shown.take(i as int),
            decreases result.matches.len() - i,
        {
            let ghost before = texts(lines@);
            let line: String = format_match(
                result.name.as_str(),
                result.matches[i].0,
                result.matches[i].1.as_str(),
            );
            assert(line@ == shown[i as int]);
            lines.push(line);
            assert(texts(lines@) =~= before.push(line@));
            assert(texts(lines@) =~= start + shown.take(i + 1));
            i = i + 1;
        }
        assert(shown.take(i as int) =~= shown);
    } else {
        let line: String = format_numbers(result.name.as_str(), &result.matches);
        lines.push(line);
        assert(texts(lines@) =~= start + seq![line@]);
    }
}

/// Formats index results as hint lines.
pub fn format_index_block(index: &[IndexResult], truncation_line: Option<usize>) -> (res: String)
    ensures
        res@ == index_block(entries(index@), truncation_line),
{
    let ghost all = entries(index@);
    let mut lines: Vec<String> = Vec::new();
    assert(texts(lines@) =~= Seq::empty());
    assert(all.take(0) =~= Seq::empty());
    let mut i: usize = 0;
    while i < index.len()
        invariant
            i <= index.len(),
            all == entries(index@),
            texts(lines@) == index_lines(all.take(i as int)),
        decreases index.len() - i,
    {
        assert(all.take(i + 1).drop_last() =~= all.take(i as int));
        push_entry_lines(&mut lines, &index[i]);
        i = i + 1;
    }
    assert(all.take(i as int) =~= all);
    match truncation_line {
        Some(number) => {
            let ghost before = texts(lines@);
            let line: String = format_truncation(number);
            lines.push(line);
            assert(texts(lines@) =~= before.push(line@));
        },
        None => {},
    }
    join_strings(&lines, "\n")
}

// ---------------------------------------------------------------------------
// Laws
// ---------------------------------------------------------------------------

/// The block is empty exactly when there is no entry to show and nothing was cut, provided that
/// no entry is empty itself.
pub proof fn law_block_is_empty(index: Seq<IndexEntry>, truncation_line: Option<usize>)
    requires
        forall|k: int| 0 <= k < index.len() ==> (#[trigger] index[k]).matches.len() > 0,
    ensures
        index_block(index, truncation_line).len() == 0 <==> index.len() == 0 && truncation_line
            is None,
{
    reveal_strlit("  ");
    reveal_strlit("  truncated → output truncated after ");
    let lines = block_lines(index, truncation_line);
    lemma_index_lines(index);
    if lines.len() > 0 {
        assert(lines.last().len() > 0);
        lemma_joined_not_shorter(lines, "\n"@);
    }
}

/// Where the shown output was cut, the block ends with the pointer to the cut.
pub proof fn law_block_ends_with_truncation(index: Seq<IndexEntry>, number: usize)
    ensures
        truncation_text(number as nat).is_suffix_of(index_block(index, Some(number))),
        index.len() == 0 ==> index_block(index, Some(number)) == truncation_text(number as nat),
{
    let lines = block_lines(index, Some(number));
    let text = truncation_text(number as nat);
    assert(lines.last() == text);
    let block = joined(lines, "\n"@);
    if lines.len() > 1 {
        assert(block =~= joined(lines.drop_last(), "\n"@) + "\n"@ + text);
    } else {
        assert(block == text);
    }
    assert(block.skip(block.len() - text.len()) =~= text);
}

/// Every match of an entry that shows its lines has a line of the block, with its number and its
/// text; every other entry has one line, with all numbers.
pub proof fn law_block_shows_every_entry(index: Seq<IndexEntry>, k: int, m: int)
    requires
        0 <= k < index.len(),
    ensures
        index[k].show_line && 0 <= m < index[k].matches.len() ==> index_lines(index).contains(
            match_text(index[k].name, index[k].matches[m].0, index[k].matches[m].1),
        ),
        !index[k].show_line ==> index_lines(index).contains(
            numbers_text(index[k].name, index[k].matches),
        ),
    decreases index.len(),
{
    let earlier = index_lines(index.drop_last());
    let own = entry_lines(index.last());
    let all = index_lines(index);
    if k < index.len() - 1 {
        law_block_shows_every_entry(index.drop_last(), k, m);
        assert forall|line: Seq<char>| earlier.contains(line) implies #[trigger] all.contains(line) by {
            let i = choose|i: int| 0 <= i < earlier.len() && earlier[i] == line;
            assert(all[i] == line);
        }
    } else if index[k].show_line {
        if 0 <= m < index[k].matches.len() {
            assert(own[m] == match_text(index[k].name, index[k].matches[m].0, index[k].matches[m].1));
            assert(all[earlier.len() + m] == own[m]);
        }
    } else {
        assert(all[earlier.len() as int] == own[0]);
    }
}

/// Every entry with a match gives a line, and no line is empty.
proof fn lemma_index_lines(index: Seq<IndexEntry>)
    requires
        forall|k: int| 0 <= k < index.len() ==> (#[trigger] index[k]).matches.len() > 0,
    ensures
        index_lines(index).len() >= index.len(),
        index.len() == 0 ==> index_lines(index).len() == 0,
        forall|k: int|
            0 <= k < index_lines(index).len() ==> (#[trigger] index_lines(index)[k]).len() > 0,
    decreases index.len(),
{
    reveal_strlit("  ");
    if index.len() > 0 {
        let earlier = index.drop_last();
        assert forall|k: int| 0 <= k < earlier.len() implies (
        #[trigger] earlier[k]).matches.len() > 0 by {
            assert(earlier[k] == index[k]);
        }
        lemma_index_lines(earlier);
        let entry = index.last();
        assert(entry == index[index.len() - 1]);
        let own = entry_lines(entry);
        assert forall|k: int| 0 <= k < own.len() implies (#[trigger] own[k]).len() > 0 by {
            if entry.show_line {
                assert(own[k] == match_text(entry.name, entry.matches[k].0, entry.matches[k].1));
            }
        }
        assert forall|k: int| 0 <= k < index_lines(index).len() implies (
        #[trigger] index_lines(index)[k]).len() > 0 by {
            if k < index_lines(earlier).len() {
                assert(index_lines(index)[k] == index_lines(earlier)[k]);
            } else {
                assert(index_lines(index)[k] == own[k - index_lines(earlier).len()]);
            }
        }
    }
}

/// A joined text is at least as long as its last part.
proof fn lemma_joined_not_shorter(list: Seq<Seq<char>>, separator: Seq<char>)
    requires
        list.len() > 0,
    ensures
        joined(list, separator).len() >= list.last().len(),
{
}

} // verus!
