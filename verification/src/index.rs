//! Tee index: structured hints that tell a reader which lines of a saved output matter.
use crate::index_rule::{KeepMode, TeeIndexRule};
use crate::lines::{lines_of, split_lines};
use crate::pattern::{error_text, is_match, new_regex};
use crate::pattern::{regex_error_text, regex_is_match, regex_new};
use crate::text::texts;
use regex::Regex;
use vstd::prelude::*;

verus! {

/// A compiled index rule with pre-compiled regex (avoids per-line recompilation).
#[derive(Debug)]
pub struct CompiledTeeIndexRule {
    pub name: String,
    pub pattern: Regex,
    pub keep: KeepMode,
    pub show_line: bool,
}

/// The lines that one rule found.
#[derive(Debug)]
pub struct IndexResult {
    pub name: String,
    /// (1-indexed line number, line text)
    pub matches: Vec<(usize, String)>,
    pub show_line: bool,
}

/// What an [`IndexResult`] holds.
#[verifier::ext_equal]
pub struct IndexEntry {
    pub name: Seq<char>,
    pub matches: Seq<(nat, Seq<char>)>,
    pub show_line: bool,
}

/// The numbers and texts of matched lines.
pub open spec fn matched(matches: Seq<(usize, String)>) -> Seq<(nat, Seq<char>)> {
    matches.map_values(|m: (usize, String)| (m.0 as nat, m.1@))
}

impl View for IndexResult {
    type V = IndexEntry;

    open spec fn view(&self) -> IndexEntry {
        IndexEntry {
            name: self.name@,
            matches: matched(self.matches@),
            show_line: self.show_line,
        }
    }
}

/// What a list of [`IndexResult`]s holds.
pub open spec fn entries(index: Seq<IndexResult>) -> Seq<IndexEntry> {
    index.map_values(|result: IndexResult| result@)
}

// ---------------------------------------------------------------------------
// Compiling rules
// ---------------------------------------------------------------------------

/// The warning about a rule whose pattern was refused.
pub open spec fn invalid_rule_warning(name: Seq<char>, why: Seq<char>) -> Seq<char> {
    "[rtk] warning: tee index rule '"@ + name + "': invalid regex: "@ + why
}

impl CompiledTeeIndexRule {
    /// Whether this is `rule` with the compiled pattern `pattern`.
    pub open spec fn compiles(self, rule: TeeIndexRule, pattern: Regex) -> bool {
        &&& self.name@ == rule.name@
        &&& self.pattern == pattern
        &&& self.keep == rule.keep
        &&& self.show_line == rule.show_line
    }

    /// Makes a compiled rule out of a rule and the outcome of compiling its pattern; where that
    /// failed, the error is the warning to give.
    pub fn with_pattern(rule: &TeeIndexRule, pattern: Result<Regex, String>) -> (res: Result<
        CompiledTeeIndexRule,
        String,
    >)
        ensures
            match pattern {
                Ok(regex) => res matches Ok(compiled) && compiled.compiles(*rule, regex),
                Err(why) => res matches Err(warning) && warning@ == invalid_rule_warning(
                    rule.name@,
                    why@,
                ),
            },
    {
        match pattern {
            Ok(regex) => Ok(
                CompiledTeeIndexRule {
                    name: rule.name.clone(),
                    pattern: regex,
                    keep: rule.keep,
                    show_line: rule.show_line,
                },
            ),
            Err(why) => {
                let mut warning: String = "[rtk] warning: tee index rule '".to_owned();
                warning.append(rule.name.as_str());
                warning.append("': invalid regex: ");
                warning.append(why.as_str());
                Err(warning)
            },
        }
    }

    /// Compiles a [`TeeIndexRule`]. If the regex pattern is invalid, the error is the warning to
    /// give.
    pub fn try_compile(rule: &TeeIndexRule) -> (res: Result<CompiledTeeIndexRule, String>)
        ensures
            match regex_new(rule.match_pattern@) {
                Ok(regex) => res matches Ok(compiled) && compiled.compiles(*rule, regex),
                Err(error) => res matches Err(warning) && warning@ == invalid_rule_warning(
                    rule.name@,
                    regex_error_text(error),
                ),
            },
    {
        let pattern: Result<Regex, String> = match new_regex(rule.match_pattern.as_str()) {
            Ok(regex) => Ok(regex),
            Err(error) => Err(error_text(&error)),
        };
        CompiledTeeIndexRule::with_pattern(rule, pattern)
    }

    /// Compiles a [`TeeIndexRule`]. Returns `None` if the regex pattern is invalid.
    pub fn compile(rule: &TeeIndexRule) -> (res: Option<CompiledTeeIndexRule>)
        ensures
            match regex_new(rule.match_pattern@) {
                Ok(regex) => res matches Some(compiled) && compiled.compiles(*rule, regex),
                Err(_) => res is None,
            },
    {
        match CompiledTeeIndexRule::try_compile(rule) {
            Ok(compiled) => Some(compiled),
            Err(_) => None,
        }
    }
}

// ---------------------------------------------------------------------------
// Finding lines
// ---------------------------------------------------------------------------

/// The lines on which `hits` is true, each with its number, counted from one. A line for which
/// `hits` has no value is no hit.
pub open spec fn hit_lines(lines: Seq<Seq<char>>, hits: Seq<bool>) -> Seq<(nat, Seq<char>)>
    decreases lines.len(),
{
    if lines.len() == 0 {
        Seq::empty()
    } else {
        let earlier = hit_lines(lines.drop_last(), hits);
        if lines.len() <= hits.len() && hits[lines.len() - 1] {
            earlier.push((lines.len(), lines.last()))
        } else {
            earlier
        }
    }
}

/// What a keep mode leaves of a list of matches.
pub open spec fn kept(matches: Seq<(nat, Seq<char>)>, keep: KeepMode) -> Seq<(nat, Seq<char>)> {
    match keep {
        KeepMode::First => if matches.len() == 0 {
            matches
        } else {
            seq![matches.first()]
        },
        KeepMode::Last => if matches.len() == 0 {
            matches
        } else {
            seq![matches.last()]
        },
        KeepMode::All => matches,
    }
}

/// On which lines a regular expression matches.
pub open spec fn match_flags(lines: Seq<Seq<char>>, pattern: Regex) -> Seq<bool> {
    Seq::new(lines.len(), |i: int| regex_is_match(pattern, lines[i]))
}

/// The lines that a rule keeps.
pub open spec fn rule_matches(
    lines: Seq<Seq<char>>,
    rule: CompiledTeeIndexRule,
) -> Seq<(nat, Seq<char>)> {
    kept(hit_lines(lines, match_flags(lines, rule.pattern)), rule.keep)
}

/// One entry for each rule that keeps a line, in the order of the rules, where rule `i` keeps the
/// lines `found[i]`. Lines that no rule stands for are left out.
pub open spec fn collected(
    rules: Seq<CompiledTeeIndexRule>,
    found: Seq<Seq<(nat, Seq<char>)>>,
) -> Seq<IndexEntry>
    decreases found.len(),
{
    if found.len() == 0 {
        Seq::empty()
    } else {
        let earlier = collected(rules, found.drop_last());
        let rule = rules[found.len() - 1];
        if found.last().len() == 0 || found.len() > rules.len() {
            earlier
        } else {
            earlier.push(
                IndexEntry {
                    name: rule.name@,
                    matches: found.last(),
                    show_line: rule.show_line,
                },
            )
        }
    }
}

/// The lines that each of some rules keeps.
pub open spec fn found_by(lines: Seq<Seq<char>>, rules: Seq<CompiledTeeIndexRule>) -> Seq<
    Seq<(nat, Seq<char>)>,
> {
    rules.map_values(|rule: CompiledTeeIndexRule| rule_matches(lines, rule))
}

/// The index of an output: one entry for each rule that keeps a line, in the order of the rules.
pub open spec fn index_of(lines: Seq<Seq<char>>, rules: Seq<CompiledTeeIndexRule>) -> Seq<
    IndexEntry,
> {
    collected(rules, found_by(lines, rules))
}

/// Keeps lines by a keep mode, given on which of them a rule matches.
pub fn keep_lines(lines: &Vec<String>, hits: &Vec<bool>, keep: KeepMode) -> (res: Vec<
    (usize, String),
>)
    ensures
        matched(res@) == kept(hit_lines(texts(lines@), hits@), keep),
{
    let mut res: Vec<(usize, String)> = Vec::new();
    let ghost all = texts(lines@);
    assert(matched(res@) =~= Seq::empty());
    assert(all.take(0) =~= Seq::empty());
    let mut i: usize = 0;
    while i < lines.len()
        invariant
            i <= lines.len(),
            all == texts(lines@),
            matched(res@) == kept(hit_lines(all.take(i as int), hits@), keep),
        decreases lines.len() - i,
    {
        let ghost before = hit_lines(all.take(i as int), hits@);
        assert(all.take(i + 1).drop_last() =~= all.take(i as int));
        if i < hits.len() && hits[i] {
            let ghost kept_before = res@;
            let number: usize = i + 1;
            match keep {
                KeepMode::First => {
                    if res.len() == 0 {
                        res.push((number, lines[i].clone()));
                        assert(matched(res@) =~= seq![(number as nat, all[i as int])]);
                    }
                },
                KeepMode::Last => {
                    res.clear();
                    res.push((number, lines[i].clone()));
                    assert(matched(res@) =~= seq![(number as nat, all[i as int])]);
                },
                KeepMode::All => {
                    res.push((number, lines[i].clone()));
                    assert(matched(res@) =~= matched(kept_before).push(
                        (number as nat, all[i as int]),
                    ));
                },
            }
            proof {
                let now = hit_lines(all.take(i + 1), hits@);
                assert(now == before.push((number as nat, all[i as int])));
                if keep == KeepMode::First && before.len() > 0 {
                    assert(kept(before, keep).len() == 1);
                    assert(matched(kept_before).len() == 1);
                    assert(now.first() == before.first());
                }
            }
        }
        i = i + 1;
    }
    assert(all.take(i as int) =~= all);
    res
}

/// On which lines a regular expression matches; where only the first match matters, the search
/// stops there.
fn find_hits(lines: &Vec<String>, pattern: &Regex, only_first: bool) -> (hits: Vec<bool>)
    ensures
        hits@.is_prefix_of(match_flags(texts(lines@), *pattern)),
        hits.len() < lines.len() ==> only_first && hits.len() > 0 && hits@.last(),
{
    let mut hits: Vec<bool> = Vec::new();
    let ghost all = texts(lines@);
    while hits.len() < lines.len()
        invariant_except_break
            hits@.is_prefix_of(match_flags(all, *pattern)),
        invariant
            all == texts(lines@),
        ensures
            hits@.is_prefix_of(match_flags(all, *pattern)),
            hits.len() < lines.len() ==> only_first && hits.len() > 0 && hits@.last(),
        decreases lines.len() - hits.len(),
    {
        let ghost before = hits@;
        let i: usize = hits.len();
        let hit: bool = is_match(pattern, lines[i].as_str());
        hits.push(hit);
        assert(hits@.is_prefix_of(match_flags(all, *pattern))) by {
            assert(all[i as int] == lines@[i as int]@);
            assert(hits@ =~= match_flags(all, *pattern).take(i + 1)) by {
                assert(before =~= match_flags(all, *pattern).take(i as int));
            }
        }
        if hit && only_first {
            break;
        }
    }
    hits
}

/// On lines that `fewer` reaches, both give the same hits; beyond, `more` may give further ones.
proof fn lemma_hit_lines_prefix(lines: Seq<Seq<char>>, fewer: Seq<bool>, more: Seq<bool>)
    requires
        fewer.is_prefix_of(more),
    ensures
        lines.len() <= fewer.len() ==> hit_lines(lines, fewer) == hit_lines(lines, more),
        hit_lines(lines, fewer).is_prefix_of(hit_lines(lines, more)),
        0 < fewer.len() <= lines.len() && fewer.last() ==> hit_lines(lines, fewer).len() > 0,
    decreases lines.len(),
{
    if lines.len() > 0 {
        lemma_hit_lines_prefix(lines.drop_last(), fewer, more);
        if lines.len() <= fewer.len() {
            assert(fewer[lines.len() - 1] == more[lines.len() - 1]);
        }
    }
}

/// Runs one rule over the lines of an output.
fn run_rule(lines: &Vec<String>, rule: &CompiledTeeIndexRule) -> (res: Vec<(usize, String)>)
    ensures
        matched(res@) == rule_matches(texts(lines@), *rule),
{
    let hits: Vec<bool> = find_hits(lines, &rule.pattern, rule.keep == KeepMode::First);
    proof {
        let all = texts(lines@);
        let flags = match_flags(all, rule.pattern);
        lemma_hit_lines_prefix(all, hits@, flags);
        if hits.len() == lines.len() {
            assert(hits@ =~= flags);
        } else {
            let found = hit_lines(all, hits@);
            assert(found.first() == hit_lines(all, flags).first());
        }
    }
    keep_lines(lines, &hits, rule.keep)
}

/// The kept lines of several rules.
pub open spec fn all_matched(found: Seq<Vec<(usize, String)>>) -> Seq<Seq<(nat, Seq<char>)>> {
    found.map_values(|matches: Vec<(usize, String)>| matched(matches@))
}

/// Collects what rules keep into an index: a rule that keeps nothing is left out.
pub fn collect_index(
    rules: &[CompiledTeeIndexRule],
    found: Vec<Vec<(usize, String)>>,
) -> (res: Vec<IndexResult>)
    ensures
        entries(res@) == collected(rules@, all_matched(found@)),
{
    let ghost all = all_matched(found@);
    let mut res: Vec<IndexResult> = Vec::new();
    assert(entries(res@) =~= Seq::empty());
    let mut i: usize = 0;
    for matches in it: found
        invariant
            it.seq() == found@,
            i == it.index(),
            i <= found.len(),
            all == all_matched(found@),
            entries(res@) == collected(rules@, all.take(i as int)),
    {
        let ghost before = res@;
        assert(all.take(i + 1).drop_last() =~= all.take(i as int));
        assert(all[i as int] == matched(matches@));
        if matches.len() > 0 && i < rules.len() {
            let rule: &CompiledTeeIndexRule = &rules[i];
            res.push(
                IndexResult {
                    name: rule.name.clone(),
                    matches: matches,
                    show_line: rule.show_line,
                },
            );
            assert(entries(res@) =~= entries(before).push(res@.last()@));
        }
        i = i + 1;
    }
    assert(all.take(i as int) =~= all);
    res
}

/// Computes index results by running rules against raw output.
pub fn compute_index(raw: &str, rules: &[CompiledTeeIndexRule]) -> (res: Vec<IndexResult>)
    ensures
        entries(res@) == index_of(lines_of(raw@), rules@),
{
    let lines: Vec<String> = split_lines(raw);
    let ghost all = lines_of(raw@);
    let mut found: Vec<Vec<(usize, String)>> = Vec::new();
    let mut i: usize = 0;
    while i < rules.len()
        invariant
            i <= rules.len(),
            found.len() == i,
            texts(lines@) == all,
            forall|k: int| 0 <= k < i ==> matched(#[trigger] found@[k]@) == rule_matches(all, rules@[k]),
        decreases rules.len() - i,
    {
        found.push(run_rule(&lines, &rules[i]));
        i = i + 1;
    }
    assert(all_matched(found@) =~= found_by(all, rules@));
    collect_index(rules, found)
}

// ---------------------------------------------------------------------------
// Laws
// ---------------------------------------------------------------------------

/// Every hit is a line of the output at the number that it is reported with, `hits` is true there,
/// and the numbers increase.
pub proof fn law_hits_point_to_lines(lines: Seq<Seq<char>>, hits: Seq<bool>)
    ensures
        forall|k: int|
            0 <= k < hit_lines(lines, hits).len() ==> {
                let (number, text) = #[trigger] hit_lines(lines, hits)[k];
                &&& 1 <= number <= lines.len()
                &&& lines[number - 1] == text
                &&& number <= hits.len() && hits[number - 1]
            },
        forall|j: int, k: int|
            0 <= j < k < hit_lines(lines, hits).len() ==> (#[trigger] hit_lines(lines, hits)[j]).0
                < (#[trigger] hit_lines(lines, hits)[k]).0,
    decreases lines.len(),
{
    if lines.len() > 0 {
        law_hits_point_to_lines(lines.drop_last(), hits);
        let earlier = hit_lines(lines.drop_last(), hits);
        let found = hit_lines(lines, hits);
        assert forall|k: int| 0 <= k < found.len() implies {
            let (number, text) = #[trigger] found[k];
            &&& 1 <= number <= lines.len()
            &&& lines[number - 1] == text
            &&& number <= hits.len() && hits[number - 1]
        } by {
            if k < earlier.len() {
                assert(found[k] == earlier[k]);
            }
        }
        assert forall|j: int, k: int| 0 <= j < k < found.len() implies (#[trigger] found[j]).0 < (
        #[trigger] found[k]).0 by {
            assert(found[j] == earlier[j]);
            if k < earlier.len() {
                assert(found[k] == earlier[k]);
            }
        }
    }
}

/// No line on which `hits` is true goes missing.
pub proof fn law_hits_are_complete(lines: Seq<Seq<char>>, hits: Seq<bool>, i: int)
    requires
        0 <= i < lines.len(),
        i < hits.len(),
        hits[i],
    ensures
        hit_lines(lines, hits).contains(((i + 1) as nat, lines[i])),
    decreases lines.len(),
{
    let earlier = hit_lines(lines.drop_last(), hits);
    let found = hit_lines(lines, hits);
    if i == lines.len() - 1 {
        assert(found.last() == ((i + 1) as nat, lines[i]));
        assert(found[found.len() - 1] == found.last());
    } else {
        law_hits_are_complete(lines.drop_last(), hits, i);
        let k = choose|k: int| 0 <= k < earlier.len() && earlier[k] == ((i + 1) as nat, lines[i]);
        assert(found[k] == earlier[k]);
    }
}

/// What a rule reports are lines of the output at the numbers that they are reported with, and its
/// pattern matches each of them; a rule that keeps the first or the last match reports one line at
/// most.
pub proof fn law_rule_reports_its_matches(lines: Seq<Seq<char>>, rule: CompiledTeeIndexRule)
    ensures
        forall|k: int|
            0 <= k < rule_matches(lines, rule).len() ==> {
                let (number, text) = #[trigger] rule_matches(lines, rule)[k];
                &&& 1 <= number <= lines.len()
                &&& lines[number - 1] == text
                &&& regex_is_match(rule.pattern, text)
            },
        rule.keep != KeepMode::All ==> rule_matches(lines, rule).len() <= 1,
{
    law_hits_point_to_lines(lines, match_flags(lines, rule.pattern));
}

/// A rule reports nothing exactly when its pattern matches no line, whatever it keeps.
pub proof fn law_rule_is_silent_without_matches(lines: Seq<Seq<char>>, rule: CompiledTeeIndexRule)
    ensures
        rule_matches(lines, rule).len() == 0 <==> forall|i: int|
            0 <= i < lines.len() ==> !regex_is_match(rule.pattern, #[trigger] lines[i]),
{
    let flags = match_flags(lines, rule.pattern);
    let found = hit_lines(lines, flags);
    law_hits_point_to_lines(lines, flags);
    if found.len() == 0 {
        assert forall|i: int| 0 <= i < lines.len() implies !regex_is_match(
            rule.pattern,
            #[trigger] lines[i],
        ) by {
            if regex_is_match(rule.pattern, lines[i]) {
                law_hits_are_complete(lines, flags, i);
            }
        }
    } else {
        let (number, text) = found[0];
        assert(regex_is_match(rule.pattern, lines[number - 1]));
    }
}

/// The line that a first-match rule reports is the first that its pattern matches, and the line
/// that a last-match rule reports is the last.
pub proof fn law_first_and_last(lines: Seq<Seq<char>>, rule: CompiledTeeIndexRule, i: int)
    requires
        0 <= i < lines.len(),
        regex_is_match(rule.pattern, lines[i]),
    ensures
        rule.keep == KeepMode::First ==> rule_matches(lines, rule)[0].0 <= i + 1,
        rule.keep == KeepMode::Last ==> rule_matches(lines, rule)[0].0 >= i + 1,
{
    let flags = match_flags(lines, rule.pattern);
    let found = hit_lines(lines, flags);
    law_hits_point_to_lines(lines, flags);
    law_hits_are_complete(lines, flags, i);
    let k = choose|k: int| 0 <= k < found.len() && found[k] == ((i + 1) as nat, lines[i]);
    if k > 0 {
        assert(found[0].0 < found[k].0);
    }
    if k < found.len() - 1 {
        assert(found[k].0 < found[found.len() - 1].0);
    }
}

/// The entries of the first rules do not depend on the rules after them.
proof fn lemma_collected_prefix(
    rules: Seq<CompiledTeeIndexRule>,
    more: Seq<CompiledTeeIndexRule>,
    found: Seq<Seq<(nat, Seq<char>)>>,
)
    requires
        found.len() <= rules.len(),
    ensures
        collected(rules + more, found) == collected(rules, found),
    decreases found.len(),
{
    if found.len() > 0 {
        lemma_collected_prefix(rules, more, found.drop_last());
        assert((rules + more)[found.len() - 1] == rules[found.len() - 1]);
    }
}

/// Collecting in two parts gives the entries of both.
proof fn lemma_collected_add(
    rules: Seq<CompiledTeeIndexRule>,
    more: Seq<CompiledTeeIndexRule>,
    found: Seq<Seq<(nat, Seq<char>)>>,
    found_more: Seq<Seq<(nat, Seq<char>)>>,
)
    requires
        found.len() == rules.len(),
        found_more.len() <= more.len(),
    ensures
        collected(rules + more, found + found_more) == collected(rules, found) + collected(
            more,
            found_more,
        ),
    decreases found_more.len(),
{
    if found_more.len() == 0 {
        assert(found + found_more =~= found);
        lemma_collected_prefix(rules, more, found);
        assert(collected(rules, found) + collected(more, found_more) =~= collected(rules, found));
    } else {
        lemma_collected_add(rules, more, found, found_more.drop_last());
        assert((found + found_more).drop_last() =~= found + found_more.drop_last());
        assert((rules + more)[found.len() + found_more.len() - 1] == more[found_more.len() - 1]);
        assert(collected(rules + more, found + found_more) =~= collected(rules, found) + collected(
            more,
            found_more,
        ));
    }
}

/// Each entry of an index is that of some rule, and not empty.
pub proof fn law_entries_come_from_rules(
    rules: Seq<CompiledTeeIndexRule>,
    found: Seq<Seq<(nat, Seq<char>)>>,
)
    ensures
        collected(rules, found).len() <= found.len(),
        forall|k: int|
            0 <= k < collected(rules, found).len() ==> {
                let entry = #[trigger] collected(rules, found)[k];
                &&& entry.matches.len() > 0
                &&& exists|i: int|
                    #![trigger rules[i]]
                    0 <= i < rules.len() && i < found.len() && entry.name == rules[i].name@
                        && entry.show_line == rules[i].show_line && entry.matches == found[i]
            },
    decreases found.len(),
{
    if found.len() > 0 {
        let shorter = found.drop_last();
        let earlier = collected(rules, shorter);
        let all = collected(rules, found);
        law_entries_come_from_rules(rules, shorter);
        assert forall|k: int| 0 <= k < all.len() implies {
            let entry = #[trigger] all[k];
            &&& entry.matches.len() > 0
            &&& exists|i: int|
                #![trigger rules[i]]
                0 <= i < rules.len() && i < found.len() && entry.name == rules[i].name@
                    && entry.show_line == rules[i].show_line && entry.matches == found[i]
        } by {
            if k < earlier.len() {
                assert(all[k] == earlier[k]);
                let i = choose|i: int|
                    #![trigger rules[i]]
                    0 <= i < rules.len() && i < shorter.len() && earlier[k].name == rules[i].name@
                        && earlier[k].show_line == rules[i].show_line && earlier[k].matches
                        == shorter[i];
                assert(shorter[i] == found[i]);
                assert(rules[i].name@ == all[k].name);
            } else {
                assert(rules[found.len() - 1].name@ == all[k].name);
            }
        }
    }
}

/// No entry of an index is empty, and there are no more entries than rules.
pub proof fn law_index_has_no_empty_entry(lines: Seq<Seq<char>>, rules: Seq<CompiledTeeIndexRule>)
    ensures
        index_of(lines, rules).len() <= rules.len(),
        forall|k: int|
            0 <= k < index_of(lines, rules).len() ==> (#[trigger] index_of(
                lines,
                rules,
            )[k]).matches.len() > 0,
{
    law_entries_come_from_rules(rules, found_by(lines, rules));
}

/// Whatever an index reports is a line of the output at the number that it is reported with.
pub proof fn law_index_points_to_lines(
    lines: Seq<Seq<char>>,
    rules: Seq<CompiledTeeIndexRule>,
    k: int,
    m: int,
)
    requires
        0 <= k < index_of(lines, rules).len(),
        0 <= m < index_of(lines, rules)[k].matches.len(),
    ensures
        ({
            let (number, text) = index_of(lines, rules)[k].matches[m];
            1 <= number <= lines.len() && lines[number - 1] == text
        }),
{
    let found = found_by(lines, rules);
    law_entries_come_from_rules(rules, found);
    let entry = collected(rules, found)[k];
    let i = choose|i: int|
        #![trigger rules[i]]
        0 <= i < rules.len() && i < found.len() && entry.name == rules[i].name@ && entry.show_line
            == rules[i].show_line && entry.matches == found[i];
    law_rule_reports_its_matches(lines, rules[i]);
    assert(rule_matches(lines, rules[i])[m] == entry.matches[m]);
}

/// Rules that are added at the end add their entries at the end: those of the earlier rules stay.
pub proof fn law_rules_augment(
    lines: Seq<Seq<char>>,
    rules: Seq<CompiledTeeIndexRule>,
    more: Seq<CompiledTeeIndexRule>,
)
    ensures
        index_of(lines, rules + more) == index_of(lines, rules) + index_of(lines, more),
{
    let found = found_by(lines, rules);
    let found_more = found_by(lines, more);
    assert(found_by(lines, rules + more) =~= found + found_more);
    lemma_collected_add(rules, more, found, found_more);
}

} // verus!
