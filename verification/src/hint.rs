//! The hint that tells a reader where the full output of a command was saved.
use crate::index::{compute_index, index_of, CompiledTeeIndexRule, IndexResult};
use crate::index::{law_index_has_no_empty_entry, law_index_points_to_lines};
use crate::index_block::{format_index_block, index_block};
use crate::lines::lines_of;
use crate::paths::{home_dir, show_path, shown_path};
use crate::tee::{law_saved_lines_keep_their_numbers, saved_text};
use crate::text::byte_len;
use std::path::PathBuf;
use vstd::prelude::*;

verus! {

/// Context passed to tee hint functions for index and truncation info.
#[derive(Debug)]
pub struct TeeHintContext<'a> {
    pub index_rules: &'a [CompiledTeeIndexRule],
    /// If set, indicates output was truncated after this line number.
    pub truncation_line: Option<usize>,
}

/// The hint for a saved output: where it is shown to be, and, on the lines below, the index block.
pub open spec fn hint_text(display: Seq<char>, block: Seq<char>) -> Seq<char> {
    let hint = "[full output: "@ + display + "]"@;
    if block.len() == 0 {
        hint
    } else {
        hint.push('\n') + block
    }
}

/// The index block that a context asks for; without a context, there is none.
pub open spec fn context_block(raw: Seq<char>, ctx: Option<&TeeHintContext>) -> Seq<char> {
    match ctx {
        Some(ctx) => index_block(index_of(lines_of(raw), ctx.index_rules@), ctx.truncation_line),
        None => Seq::empty(),
    }
}

/// The hint for a saved output, given how its path is shown and its index block.
pub fn render_hint(display: &str, block: &str) -> (res: String)
    ensures
        res@ == hint_text(display@, block@),
{
    let mut hint: String = "[full output: ".to_owned();
    hint.append(display);
    hint.append("]");
    if !block.is_empty() {
        hint.push('\n');
        hint.append(block);
    }
    hint
}

/// Formats the hint line with ~ shorthand for the home directory `home`.
/// If `ctx` is provided, appends index block with line-number hints.
pub fn format_hint_at(
    path: &PathBuf,
    home: &Option<PathBuf>,
    raw: &str,
    ctx: Option<&TeeHintContext>,
) -> (res: String)
    ensures
        res@ == hint_text(shown_path(*path, *home), context_block(raw@, ctx)),
{
    let display: String = show_path(path, home);
    let block: String = match ctx {
        Some(ctx) => {
            let index: Vec<IndexResult> = compute_index(raw, ctx.index_rules);
            format_index_block(index.as_slice(), ctx.truncation_line)
        },
        None => String::new(),
    };
    render_hint(display.as_str(), block.as_str())
}

/// Formats the hint line with ~ shorthand for the user's home directory.
/// If `ctx` is provided, appends index block with line-number hints.
pub fn format_hint(path: &PathBuf, raw: &str, ctx: Option<&TeeHintContext>) -> (res: String)
    ensures
        exists|home: Option<PathBuf>|
            res@ == hint_text(#[trigger] shown_path(*path, home), context_block(raw@, ctx)),
{
    let home: Option<PathBuf> = home_dir();
    format_hint_at(path, &home, raw, ctx)
}

/// Turns the outcome of saving an output into a hint: the hint if a file was written, None if
/// skipped. Pass `ctx` to include index hints.
pub fn tee_and_hint(saved: Option<PathBuf>, raw: &str, ctx: Option<&TeeHintContext>) -> (res:
    Option<String>)
    ensures
        saved is None <==> res is None,
        saved matches Some(path) ==> (res matches Some(hint) && exists|home: Option<PathBuf>|
            hint@ == hint_text(#[trigger] shown_path(path, home), context_block(raw@, ctx))),
{
    match saved {
        Some(path) => Some(format_hint(&path, raw, ctx)),
        None => None,
    }
}

// ---------------------------------------------------------------------------
// Laws
// ---------------------------------------------------------------------------

/// Without index rules and without a cut, a context changes nothing: the hint is the one line that
/// it is without a context.
pub proof fn law_hint_without_rules(display: Seq<char>, raw: Seq<char>, ctx: &TeeHintContext)
    requires
        ctx.index_rules@.len() == 0,
        ctx.truncation_line is None,
    ensures
        hint_text(display, context_block(raw, Some(ctx))) == hint_text(
            display,
            context_block(raw, None),
        ),
        hint_text(display, context_block(raw, None)) == "[full output: "@ + display + "]"@,
{
    law_index_has_no_empty_entry(lines_of(raw), ctx.index_rules@);
}

/// Rules that match no line leave the hint as it is without a context.
pub proof fn law_hint_without_matches(display: Seq<char>, raw: Seq<char>, ctx: &TeeHintContext)
    requires
        index_of(lines_of(raw), ctx.index_rules@).len() == 0,
        ctx.truncation_line is None,
    ensures
        hint_text(display, context_block(raw, Some(ctx))) == hint_text(
            display,
            context_block(raw, None),
        ),
{
}

/// A line that the index of an output refers to stands in the saved file at the same number, if it
/// ends within the maximum size. Here `end` is where such lines end.
pub proof fn law_index_points_into_saved_file(
    raw: Seq<char>,
    max_file_size: nat,
    rules: Seq<CompiledTeeIndexRule>,
    end: int,
    k: int,
    m: int,
)
    requires
        0 <= end <= raw.len(),
        end == 0 || raw[end - 1] == '\n',
        byte_len(raw.take(end)) <= max_file_size,
        0 <= k < index_of(lines_of(raw), rules).len(),
        0 <= m < index_of(lines_of(raw), rules)[k].matches.len(),
        index_of(lines_of(raw), rules)[k].matches[m].0 <= lines_of(raw.take(end)).len(),
    ensures
        ({
            let (number, text) = index_of(lines_of(raw), rules)[k].matches[m];
            let saved = lines_of(saved_text(raw, max_file_size));
            1 <= number <= saved.len() && saved[number - 1] == text
        }),
{
    law_index_points_to_lines(lines_of(raw), rules, k, m);
    law_saved_lines_keep_their_numbers(raw, max_file_size, end);
    let (number, text) = index_of(lines_of(raw), rules)[k].matches[m];
    assert(lines_of(raw.take(end))[number - 1] == text);
}

/// An output that is saved whole is indexed as its file is: a hint computed from the output fits
/// the file.
pub proof fn law_whole_file_has_the_same_index(
    raw: Seq<char>,
    max_file_size: nat,
    rules: Seq<CompiledTeeIndexRule>,
)
    requires
        byte_len(raw) <= max_file_size,
    ensures
        index_of(lines_of(saved_text(raw, max_file_size)), rules) == index_of(lines_of(raw), rules),
{
}

/// The first line of a hint is the same with and without a context: the index block only adds
/// lines below it.
pub proof fn law_hint_begins_with_path(display: Seq<char>, block: Seq<char>)
    ensures
        ("[full output: "@ + display + "]"@).is_prefix_of(hint_text(display, block)),
        block.len() > 0 ==> hint_text(display, block) == "[full output: "@ + display + "]"@
            + seq!['\n'] + block,
{
    let hint = "[full output: "@ + display + "]"@;
    assert(hint.push('\n') + block =~= hint + seq!['\n'] + block);
}

} // verus!
