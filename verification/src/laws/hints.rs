//! Laws on the index block and on the hint about a saved output.
use crate::hint::{context_block, format_hint, format_hint_at, hint_text, render_hint, tee_and_hint};
use crate::hint::TeeHintContext;
use crate::index::{compute_index, entries, matched, IndexResult};
use crate::index_block::{block_lines, entry_lines, format_index_block, index_lines};
use crate::index_block::{joined, line_reference, match_text, truncation_text};
use crate::paths::{show_path, shown_path};
use crate::text::decimal;
use crate::truncate::truncated;
use std::path::PathBuf;
use vstd::prelude::*;
use vstd::seq_lib::lemma_flatten_concat;

verus! {

/// The texts of `list`, each with `end` behind it.
pub open spec fn ended(list: Seq<Seq<char>>, end: Seq<char>) -> Seq<char> {
    list.map_values(|text: Seq<char>| text + end).flatten()
}

proof fn lemma_ended_push(list: Seq<Seq<char>>, last: Seq<char>, end: Seq<char>)
    ensures
        ended(list.push(last), end) == ended(list, end) + last + end,
{
    let parts = list.map_values(|text: Seq<char>| text + end);
    assert(list.push(last).map_values(|text: Seq<char>| text + end) =~= parts.push(last + end));
    parts.lemma_flatten_push(last + end);
    assert(parts.flatten() + (last + end) =~= parts.flatten() + last + end);
}

/// Joined texts, with one more separator behind them, are the texts with a separator behind each;
/// nothing joined is nothing.
pub proof fn law_joined(list: Seq<Seq<char>>, separator: Seq<char>)
    ensures
        list.len() == 0 ==> joined(list, separator) == Seq::<char>::empty(),
        list.len() > 0 ==> joined(list, separator) + separator == ended(list, separator),
    decreases list.len(),
{
    if list.len() > 0 {
        let shorter = list.drop_last();
        assert(shorter.push(list.last()) =~= list);
        lemma_ended_push(shorter, list.last(), separator);
        if list.len() == 1 {
            assert(ended(shorter, separator) =~= Seq::<char>::empty());
            assert(joined(list, separator) == list[0]);
            assert(Seq::<char>::empty() + list.last() + separator =~= list[0] + separator);
        } else {
            law_joined(shorter, separator);
        }
    }
}

/// The line of a block that shows a match: the name of its rule, its number, and its text, cut to 80
/// bytes, in quotes.
pub open spec fn shown_match(name: Seq<char>, found: (usize, String)) -> Seq<char> {
    "  "@ + name + " → "@ + "L"@ + decimal(found.0 as nat) + ": \""@ + truncated(found.1@, 80)
        + "\""@
}

/// The numbers of matches, each with a comma and a space behind it.
pub open spec fn shown_numbers(matches: Seq<(usize, String)>) -> Seq<char> {
    Seq::new(
        matches.len(),
        |m: int| "L"@ + decimal(matches[m].0 as nat) + ", "@,
    ).flatten()
}

/// The line of a block that points to where the shown output was cut.
pub open spec fn shown_cut(number: usize) -> Seq<char> {
    "  truncated → output truncated after "@ + "L"@ + decimal(number as nat)
        + "; full results from "@ + "L"@ + decimal(number as nat) + " in tee file"@
}

/// Whether the lines from `from` to `to` are those of an entry: a line for each match, if it shows
/// its lines, and otherwise one line with the numbers of all matches.
pub open spec fn shows_entry(
    lines: Seq<Seq<char>>,
    entry: IndexResult,
    from: int,
    to: int,
) -> bool {
    let matches = entry.matches@;
    &&& 0 <= from <= to <= lines.len()
    &&& entry.show_line ==> {
        &&& to - from == matches.len()
        &&& forall|m: int|
            0 <= m < matches.len() ==> lines[from + m] == shown_match(
                entry.name@,
                #[trigger] matches[m],
            )
    }
    &&& !entry.show_line ==> {
        &&& to - from == 1
        &&& matches.len() == 0 ==> lines[from] == "  "@ + entry.name@ + " → "@
        &&& matches.len() > 0 ==> lines[from] + ", "@ == "  "@ + entry.name@ + " → "@
            + shown_numbers(matches)
    }
}

/// Whether `lines` are the lines of a block for `index`, where those of entry `k` begin at
/// `starts[k]`: those of all entries, in order, and at the end the pointer to the cut, if there was
/// one.
pub open spec fn is_block_of(
    index: Seq<IndexResult>,
    truncation_line: Option<usize>,
    lines: Seq<Seq<char>>,
    starts: Seq<int>,
) -> bool {
    &&& starts.len() == index.len() + 1
    &&& starts[0] == 0
    &&& forall|k: int|
        0 <= k < index.len() ==> shows_entry(
            lines,
            #[trigger] index[k],
            starts[k],
            starts[k + 1],
        )
    &&& match truncation_line {
        Some(number) => {
            &&& lines.len() == starts.last() + 1
            &&& lines.last() == shown_cut(number)
        },
        None => lines.len() == starts.last(),
    }
}

proof fn lemma_shows_entry_in(
    lines: Seq<Seq<char>>,
    more: Seq<Seq<char>>,
    entry: IndexResult,
    from: int,
    to: int,
)
    requires
        shows_entry(lines, entry, from, to),
        lines.is_prefix_of(more),
    ensures
        shows_entry(more, entry, from, to),
{
    assert forall|i: int| 0 <= i < lines.len() implies #[trigger] more[i] == lines[i] by {
        assert(more.take(lines.len() as int)[i] == more[i]);
    }
    let matches = entry.matches@;
    if entry.show_line {
        assert forall|m: int| 0 <= m < matches.len() implies more[from + m] == shown_match(
            entry.name@,
            #[trigger] matches[m],
        ) by {
            assert(more[from + m] == lines[from + m]);
        }
    } else {
        assert(more[from] == lines[from]);
    }
}

proof fn lemma_entry_lines(result: IndexResult)
    ensures
        result.show_line ==> {
            &&& entry_lines(result@).len() == result.matches@.len()
            &&& forall|m: int|
                0 <= m < result.matches@.len() ==> entry_lines(result@)[m] == shown_match(
                    result.name@,
                    #[trigger] result.matches@[m],
                )
        },
        !result.show_line ==> {
            &&& entry_lines(result@).len() == 1
            &&& result.matches@.len() == 0 ==> entry_lines(result@)[0] == "  "@ + result.name@
                + " → "@
            &&& result.matches@.len() > 0 ==> entry_lines(result@)[0] + ", "@ == "  "@
                + result.name@ + " → "@ + shown_numbers(result.matches@)
        },
{
    let found = matched(result.matches@);
    assert(found.len() == result.matches@.len());
    if result.show_line {
        assert forall|m: int| 0 <= m < result.matches@.len() implies entry_lines(result@)[m]
            == shown_match(result.name@, #[trigger] result.matches@[m]) by {
            let (number, text) = result.matches@[m];
            assert(found[m] == (number as nat, text@));
            assert(entry_lines(result@)[m] == match_text(result.name@, number as nat, text@));
            assert(match_text(result.name@, number as nat, text@) =~= shown_match(
                result.name@,
                (number, text),
            ));
        }
    } else {
        let references = found.map_values(|m: (nat, Seq<char>)| line_reference(m.0));
        let head = "  "@ + result.name@ + " → "@;
        let list = joined(references, ", "@);
        assert(entry_lines(result@)[0] == head + list);
        law_joined(references, ", "@);
        if result.matches@.len() == 0 {
            assert(head + list =~= head);
        } else {
            assert(references.map_values(|text: Seq<char>| text + ", "@) =~= Seq::new(
                result.matches@.len(),
                |m: int| "L"@ + decimal(result.matches@[m].0 as nat) + ", "@,
            ));
            assert((head + list) + ", "@ =~= head + (list + ", "@));
        }
    }
}

proof fn lemma_index_starts(index: Seq<IndexResult>) -> (starts: Seq<int>)
    ensures
        is_block_of(index, None, index_lines(entries(index)), starts),
    decreases index.len(),
{
    let lines = index_lines(entries(index));
    if index.len() == 0 {
        assert(entries(index).len() == 0);
        let starts = seq![0int];
        assert(starts.last() == 0);
        starts
    } else {
        let shorter = index.drop_last();
        let before = lemma_index_starts(shorter);
        let earlier = index_lines(entries(shorter));
        let last = index.last();
        let own = entry_lines(last@);
        assert(entries(index).drop_last() =~= entries(shorter));
        assert(entries(index).last() == last@);
        assert(lines == earlier + own);
        assert(earlier.is_prefix_of(lines)) by {
            assert(lines.take(earlier.len() as int) =~= earlier);
        }
        lemma_entry_lines(last);
        let starts = before.push(lines.len() as int);
        assert forall|k: int| 0 <= k < index.len() implies shows_entry(
            lines,
            #[trigger] index[k],
            starts[k],
            starts[k + 1],
        ) by {
            if k < shorter.len() {
                assert(shorter[k] == index[k]);
                assert(starts[k] == before[k] && starts[k + 1] == before[k + 1]);
                lemma_shows_entry_in(earlier, lines, index[k], starts[k], starts[k + 1]);
            } else {
                let from = starts[k];
                let matches = last.matches@;
                assert(from == earlier.len());
                if last.show_line {
                    assert forall|m: int| 0 <= m < matches.len() implies lines[from + m]
                        == shown_match(last.name@, #[trigger] matches[m]) by {
                        assert(lines[from + m] == own[m]);
                    }
                } else {
                    assert(lines[from] == own[0]);
                }
            }
        }
        assert(starts[0] == before[0]);
        assert(starts.last() == lines.len());
        starts
    }
}

/// A block consists of the lines of all entries, in order, and of the pointer to the cut, if there
/// was one, with a line feed between each two.
pub proof fn law_format_index_block(
    index: &[IndexResult],
    truncation_line: Option<usize>,
    res: String,
) -> (block: (Seq<Seq<char>>, Seq<int>))
    requires
        call_ensures(format_index_block, (index, truncation_line), res),
    ensures
        is_block_of(index@, truncation_line, block.0, block.1),
        block.0.len() == 0 ==> res@ == Seq::<char>::empty(),
        block.0.len() > 0 ==> res@ + seq!['\n'] == ended(block.0, seq!['\n']),
{
    reveal_strlit("\n");
    assert("\n"@ =~= seq!['\n']);
    let starts = lemma_index_starts(index@);
    let own = index_lines(entries(index@));
    let lines = block_lines(entries(index@), truncation_line);
    law_joined(lines, "\n"@);
    assert(own.is_prefix_of(lines)) by {
        assert(lines.take(own.len() as int) =~= own);
    }
    if let Some(number) = truncation_line {
        assert(truncation_text(number as nat) =~= shown_cut(number));
    }
    assert forall|k: int| 0 <= k < index@.len() implies shows_entry(
        lines,
        #[trigger] index@[k],
        starts[k],
        starts[k + 1],
    ) by {
        lemma_shows_entry_in(own, lines, index@[k], starts[k], starts[k + 1]);
    }
    (lines, starts)
}

/// Whether `line` stands in `text` from `at` on, between line feeds or the ends of the text.
pub open spec fn stands_at(text: Seq<char>, line: Seq<char>, at: int) -> bool {
    &&& 0 <= at
    &&& at + line.len() <= text.len()
    &&& text.subrange(at, at + line.len()) == line
    &&& at == 0 || text[at - 1] == '\n'
    &&& at + line.len() == text.len() || text[at + line.len()] == '\n'
}

proof fn lemma_line_stands(lines: Seq<Seq<char>>, text: Seq<char>, i: int) -> (at: int)
    requires
        0 <= i < lines.len(),
        text + seq!['\n'] == ended(lines, seq!['\n']),
    ensures
        stands_at(text, lines[i], at),
{
    let end = seq!['\n'];
    let parts = lines.map_values(|line: Seq<char>| line + end);
    let before = parts.take(i);
    let after = parts.skip(i);
    let whole = text + end;
    assert(parts =~= before + after);
    lemma_flatten_concat(before, after);
    let at = before.flatten().len() as int;
    assert(after.flatten() == after.first() + after.drop_first().flatten());
    assert(after.first() == lines[i] + end);
    assert(whole == before.flatten() + (lines[i] + end + after.drop_first().flatten()));
    if i > 0 {
        let last = lines[i - 1] + end;
        assert(before =~= before.drop_last().push(last));
        before.drop_last().lemma_flatten_push(last);
        assert(whole[at - 1] == '\n');
    } else {
        assert(before =~= Seq::<Seq<char>>::empty());
    }
    assert(whole[at + lines[i].len()] == '\n');
    assert(whole.subrange(at, at + lines[i].len()) =~= lines[i]);
    assert(at + lines[i].len() <= text.len());
    assert(text.subrange(at, at + lines[i].len()) =~= whole.subrange(at, at + lines[i].len()));
    at
}

/// Every match of an entry that shows its lines has a line of its own in the block, with its number
/// and its text, whatever else the block holds. It stands at `at`.
pub proof fn law_block_shows_every_match(
    index: &[IndexResult],
    truncation_line: Option<usize>,
    res: String,
    k: int,
    m: int,
) -> (at: int)
    requires
        call_ensures(format_index_block, (index, truncation_line), res),
        0 <= k < index@.len(),
        index@[k].show_line,
        0 <= m < index@[k].matches@.len(),
    ensures
        stands_at(res@, shown_match(index@[k].name@, index@[k].matches@[m]), at),
{
    let (lines, starts) = law_format_index_block(index, truncation_line, res);
    let entry = index@[k];
    let i = starts[k] + m;
    assert(lines[i] == shown_match(entry.name@, entry.matches@[m]));
    lemma_line_stands(lines, res@, i)
}

/// Every entry that does not show its lines has a line of its own in the block, with its name and
/// the numbers of all its matches: `shown.0`, which stands at `shown.1`.
pub proof fn law_block_lists_every_number(
    index: &[IndexResult],
    truncation_line: Option<usize>,
    res: String,
    k: int,
) -> (shown: (Seq<char>, int))
    requires
        call_ensures(format_index_block, (index, truncation_line), res),
        0 <= k < index@.len(),
        !index@[k].show_line,
        index@[k].matches@.len() > 0,
    ensures
        shown.0 + ", "@ == "  "@ + index@[k].name@ + " → "@ + shown_numbers(index@[k].matches@),
        stands_at(res@, shown.0, shown.1),
{
    let (lines, starts) = law_format_index_block(index, truncation_line, res);
    let entry = index@[k];
    let at = lemma_line_stands(lines, res@, starts[k]);
    (lines[starts[k]], at)
}

/// Where the shown output was cut, the last line of the block points to the cut; what stands before
/// it is the block without a cut.
pub proof fn law_cut_is_added_at_the_end(
    index: &[IndexResult],
    number: usize,
    with_cut: String,
    without_cut: String,
)
    requires
        call_ensures(format_index_block, (index, Some(number)), with_cut),
        call_ensures(format_index_block, (index, None::<usize>), without_cut),
    ensures
        without_cut@.len() > 0 ==> with_cut@ == without_cut@ + seq!['\n'] + shown_cut(number),
        index@.len() == 0 ==> with_cut@ == shown_cut(number) && without_cut@.len() == 0,
{
    reveal_strlit("\n");
    assert("\n"@ =~= seq!['\n']);
    let own = index_lines(entries(index@));
    assert(truncation_text(number as nat) =~= shown_cut(number));
    assert(own.push(truncation_text(number as nat)).drop_last() =~= own);
    assert(entries(index@).len() == index@.len());
}

/// A hint names the path in brackets; a block stands below it, after a line feed.
pub proof fn law_render_hint(display: &str, block: &str, res: String)
    requires
        call_ensures(render_hint, (display, block), res),
    ensures
        block@.len() == 0 ==> res@ == "[full output: "@ + display@ + "]"@,
        block@.len() > 0 ==> res@ == "[full output: "@ + display@ + "]"@ + seq!['\n'] + block@,
{
    let hint = "[full output: "@ + display@ + "]"@;
    assert(hint.push('\n') =~= hint + seq!['\n']);
}

/// Without a context, a hint is the path in brackets, as it is shown.
pub proof fn law_hint_without_context(
    path: &PathBuf,
    home: &Option<PathBuf>,
    raw: &str,
    display: String,
    res: String,
)
    requires
        call_ensures(format_hint_at, (path, home, raw, None::<&TeeHintContext>), res),
        call_ensures(show_path, (path, home), display),
    ensures
        res@ == "[full output: "@ + display@ + "]"@,
{
}

/// With a context, the block of the index that its rules give, and of its truncation line, stands
/// below the path.
pub proof fn law_hint_with_context(
    path: &PathBuf,
    home: &Option<PathBuf>,
    raw: &str,
    ctx: &TeeHintContext,
    display: String,
    found: Vec<IndexResult>,
    index: &[IndexResult],
    block: String,
    res: String,
)
    requires
        call_ensures(format_hint_at, (path, home, raw, Some(ctx)), res),
        call_ensures(show_path, (path, home), display),
        call_ensures(compute_index, (raw, ctx.index_rules), found),
        index@ == found@,
        call_ensures(format_index_block, (index, ctx.truncation_line), block),
    ensures
        block@.len() == 0 ==> res@ == "[full output: "@ + display@ + "]"@,
        block@.len() > 0 ==> res@ == "[full output: "@ + display@ + "]"@ + seq!['\n'] + block@,
{
    let hint = "[full output: "@ + display@ + "]"@;
    assert(hint.push('\n') =~= hint + seq!['\n']);
}

/// The hint for the user is the hint for some home directory.
pub proof fn law_format_hint(
    path: &PathBuf,
    raw: &str,
    ctx: Option<&TeeHintContext>,
    res: String,
) -> (home: Option<PathBuf>)
    requires
        call_ensures(format_hint, (path, raw, ctx), res),
    ensures
        forall|same: String|
            call_ensures(format_hint_at, (path, &home, raw, ctx), same) ==> #[trigger] same@
                == res@,
        context_block(raw@, ctx).len() == 0 ==> res@ == "[full output: "@ + shown_path(*path, home)
            + "]"@,
        context_block(raw@, ctx).len() > 0 ==> res@ == "[full output: "@ + shown_path(*path, home)
            + "]"@ + seq!['\n'] + context_block(raw@, ctx),
{
    let home = choose|home: Option<PathBuf>|
        res@ == hint_text(#[trigger] shown_path(*path, home), context_block(raw@, ctx));
    let hint = "[full output: "@ + shown_path(*path, home) + "]"@;
    assert(hint.push('\n') =~= hint + seq!['\n']);
    home
}

/// There is a hint exactly if an output was saved, and it is the hint for its path and some home
/// directory.
pub proof fn law_tee_and_hint(
    saved: Option<PathBuf>,
    raw: &str,
    ctx: Option<&TeeHintContext>,
    res: Option<String>,
) -> (home: Option<PathBuf>)
    requires
        call_ensures(tee_and_hint, (saved, raw, ctx), res),
    ensures
        saved is Some <==> res is Some,
        saved matches Some(path) ==> (res matches Some(hint) && {
            let block = context_block(raw@, ctx);
            &&& block.len() == 0 ==> hint@ == "[full output: "@ + shown_path(path, home) + "]"@
            &&& block.len() > 0 ==> hint@ == "[full output: "@ + shown_path(path, home) + "]"@
                + seq!['\n'] + block
        }),
{
    if let Some(path) = saved {
        let hint = res->0;
        let home = choose|home: Option<PathBuf>|
            hint@ == hint_text(#[trigger] shown_path(path, home), context_block(raw@, ctx));
        let head = "[full output: "@ + shown_path(path, home) + "]"@;
        assert(head.push('\n') =~= head + seq!['\n']);
        home
    } else {
        None
    }
}

} // verus!
