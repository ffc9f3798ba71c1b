//! Laws on index rules and on the index of an output.
use crate::index::{all_matched, collect_index, collected, compute_index, entries, found_by};
use crate::index::{hit_lines, kept, keep_lines, match_flags, matched, rule_matches};
use crate::index::{law_hits_are_complete, law_hits_point_to_lines};
use crate::index::{CompiledTeeIndexRule, IndexEntry, IndexResult};
use crate::index_rule::{KeepMode, TeeIndexRule};
use crate::lines::lines_of;
use crate::pattern::{regex_error_text, regex_is_match, regex_new};
use crate::text::texts;
use regex::Regex;
use vstd::prelude::*;

verus! {

/// Whether `matches` reports lines for a rule that keeps `keep`, where `hit` says which lines its
/// pattern matches: each with its number, counted from one, and its text, in order, and only such
/// lines; of all of them the first one alone, the last one alone, or every one.
pub open spec fn reports(
    lines: Seq<Seq<char>>,
    hit: spec_fn(int) -> bool,
    keep: KeepMode,
    matches: Seq<(usize, String)>,
) -> bool {
    &&& forall|m: int|
        0 <= m < matches.len() ==> {
            let (number, text) = #[trigger] matches[m];
            &&& 1 <= number <= lines.len()
            &&& text@ == lines[number - 1]
            &&& hit(number - 1)
        }
    &&& forall|j: int, k: int|
        0 <= j < k < matches.len() ==> (#[trigger] matches[j]).0 < (#[trigger] matches[k]).0
    &&& forall|i: int|
        0 <= i < lines.len() && #[trigger] hit(i) ==> match keep {
            KeepMode::First => matches.len() == 1 && matches[0].0 <= i + 1,
            KeepMode::Last => matches.len() == 1 && matches[0].0 >= i + 1,
            KeepMode::All => exists|m: int|
                0 <= m < matches.len() && (#[trigger] matches[m]).0 == i + 1,
        }
}

proof fn lemma_reports(
    lines: Seq<Seq<char>>,
    hits: Seq<bool>,
    keep: KeepMode,
    matches: Seq<(usize, String)>,
)
    requires
        matched(matches) == kept(hit_lines(lines, hits), keep),
    ensures
        reports(lines, |i: int| i < hits.len() && hits[i], keep, matches),
{
    let found = hit_lines(lines, hits);
    let shown = matched(matches);
    let hit = |i: int| i < hits.len() && hits[i];
    law_hits_point_to_lines(lines, hits);
    assert(shown.len() == matches.len());
    assert forall|m: int| 0 <= m < matches.len() implies {
        let (number, text) = #[trigger] matches[m];
        &&& 1 <= number <= lines.len()
        &&& text@ == lines[number - 1]
        &&& hit(number - 1)
    } by {
        assert(shown[m] == (matches[m].0 as nat, matches[m].1@));
        let at = match keep {
            KeepMode::First => 0,
            KeepMode::Last => found.len() - 1,
            KeepMode::All => m,
        };
        assert(shown[m] == found[at]);
    }
    assert forall|j: int, k: int| 0 <= j < k < matches.len() implies (#[trigger] matches[j]).0 < (
    #[trigger] matches[k]).0 by {
        assert(shown[j].0 == matches[j].0 && shown[k].0 == matches[k].0);
        assert(keep == KeepMode::All);
        assert(found[j].0 < found[k].0);
    }
    assert forall|i: int| 0 <= i < lines.len() && #[trigger] hit(i) implies match keep {
        KeepMode::First => matches.len() == 1 && matches[0].0 <= i + 1,
        KeepMode::Last => matches.len() == 1 && matches[0].0 >= i + 1,
        KeepMode::All => exists|m: int|
            0 <= m < matches.len() && (#[trigger] matches[m]).0 == i + 1,
    } by {
        law_hits_are_complete(lines, hits, i);
        let at = choose|at: int| 0 <= at < found.len() && found[at] == ((i + 1) as nat, lines[i]);
        match keep {
            KeepMode::First => {
                assert(shown[0] == found[0] && shown[0].0 == matches[0].0);
                if at > 0 {
                    assert(found[0].0 < found[at].0);
                }
            },
            KeepMode::Last => {
                assert(shown[0] == found[found.len() - 1] && shown[0].0 == matches[0].0);
                if at < found.len() - 1 {
                    assert(found[at].0 < found[found.len() - 1].0);
                }
            },
            KeepMode::All => {
                assert(shown[at].0 == matches[at].0);
                assert(matches[at].0 == i + 1);
            },
        }
    }
}

/// Of the lines of which `hits` is true, the first, the last or all are kept.
pub proof fn law_keep_lines(
    lines: &Vec<String>,
    hits: &Vec<bool>,
    keep: KeepMode,
    res: Vec<(usize, String)>,
)
    requires
        call_ensures(keep_lines, (lines, hits, keep), res),
    ensures
        reports(
            Seq::new(lines@.len(), |i: int| lines@[i]@),
            |i: int| i < hits@.len() && hits@[i],
            keep,
            res@,
        ),
{
    assert(texts(lines@) =~= Seq::new(lines@.len(), |i: int| lines@[i]@));
    lemma_reports(texts(lines@), hits@, keep, res@);
}

/// A rule that keeps all matches reports every line that its pattern matches, and the numbers
/// increase.
pub proof fn law_all_matches_are_reported(
    lines: Seq<Seq<char>>,
    rule: CompiledTeeIndexRule,
    i: int,
)
    requires
        rule.keep == KeepMode::All,
        0 <= i < lines.len(),
        regex_is_match(rule.pattern, lines[i]),
    ensures
        rule_matches(lines, rule).contains(((i + 1) as nat, lines[i])),
        forall|j: int, k: int|
            0 <= j < k < rule_matches(lines, rule).len() ==> (#[trigger] rule_matches(
                lines,
                rule,
            )[j]).0 < (#[trigger] rule_matches(lines, rule)[k]).0,
{
    law_hits_are_complete(lines, match_flags(lines, rule.pattern), i);
    law_hits_point_to_lines(lines, match_flags(lines, rule.pattern));
}

/// Where the entries of an index come from: entry `k` is that of rule `at[k]`, the rules keep their
/// order, and the rules that keep a line are those that have an entry.
proof fn lemma_collected_positions(
    rules: Seq<CompiledTeeIndexRule>,
    found: Seq<Seq<(nat, Seq<char>)>>,
) -> (at: Seq<int>)
    ensures
        at.len() == collected(rules, found).len(),
        forall|k: int|
            0 <= k < at.len() ==> {
                &&& 0 <= #[trigger] at[k] < rules.len()
                &&& at[k] < found.len()
                &&& collected(rules, found)[k] == (IndexEntry {
                    name: rules[at[k]].name@,
                    matches: found[at[k]],
                    show_line: rules[at[k]].show_line,
                })
                &&& found[at[k]].len() > 0
            },
        forall|j: int, k: int| 0 <= j < k < at.len() ==> #[trigger] at[j] < #[trigger] at[k],
        forall|i: int|
            0 <= i < rules.len() && i < found.len() && (#[trigger] found[i]).len() > 0
                ==> at.contains(i),
    decreases found.len(),
{
    if found.len() == 0 {
        Seq::empty()
    } else {
        let shorter = found.drop_last();
        let before = lemma_collected_positions(rules, shorter);
        let last = found.len() - 1;
        let more = found.last().len() > 0 && found.len() <= rules.len();
        let at = if more {
            before.push(last)
        } else {
            before
        };
        let all = collected(rules, found);
        let earlier = collected(rules, shorter);
        assert forall|k: int| 0 <= k < at.len() implies {
            &&& 0 <= #[trigger] at[k] < rules.len()
            &&& at[k] < found.len()
            &&& all[k] == (IndexEntry {
                name: rules[at[k]].name@,
                matches: found[at[k]],
                show_line: rules[at[k]].show_line,
            })
            &&& found[at[k]].len() > 0
        } by {
            if k < before.len() {
                assert(at[k] == before[k] && all[k] == earlier[k]);
                assert(found[at[k]] == shorter[at[k]]);
            }
        }
        assert forall|i: int|
            0 <= i < rules.len() && i < found.len() && (#[trigger] found[i]).len()
                > 0 implies at.contains(i) by {
            if i < last {
                assert(shorter[i] == found[i]);
                assert(before.contains(i));
                let k = choose|k: int| 0 <= k < before.len() && before[k] == i;
                assert(at[k] == i);
            } else {
                assert(at[at.len() - 1] == i);
            }
        }
        at
    }
}

/// An index has an entry for each rule with a match, and for no other, in the order of the rules,
/// under the name of the rule, with the lines that the rule keeps. Entry `k` is that of rule `at[k]`.
pub proof fn law_compute_index(
    raw: &str,
    rules: &[CompiledTeeIndexRule],
    res: Vec<IndexResult>,
) -> (at: Seq<int>)
    requires
        call_ensures(compute_index, (raw, rules), res),
    ensures
        at.len() == res@.len(),
        forall|k: int|
            0 <= k < res@.len() ==> {
                let rule = rules@[at[k]];
                &&& 0 <= at[k] < rules@.len()
                &&& (#[trigger] res@[k]).name@ == rule.name@
                &&& res@[k].show_line == rule.show_line
                &&& res@[k].matches@.len() > 0
                &&& reports(
                    lines_of(raw@),
                    |i: int| regex_is_match(rule.pattern, lines_of(raw@)[i]),
                    rule.keep,
                    res@[k].matches@,
                )
            },
        forall|j: int, k: int| 0 <= j < k < at.len() ==> #[trigger] at[j] < #[trigger] at[k],
        forall|r: int, i: int|
            0 <= r < rules@.len() && 0 <= i < lines_of(raw@).len() && #[trigger] regex_is_match(
                rules@[r].pattern,
                lines_of(raw@)[i],
            ) ==> at.contains(r),
{
    let lines = lines_of(raw@);
    let found = found_by(lines, rules@);
    let at = lemma_collected_positions(rules@, found);
    assert(entries(res@).len() == res@.len());
    assert forall|k: int| 0 <= k < res@.len() implies {
        let rule = rules@[at[k]];
        &&& 0 <= at[k] < rules@.len()
        &&& (#[trigger] res@[k]).name@ == rule.name@
        &&& res@[k].show_line == rule.show_line
        &&& res@[k].matches@.len() > 0
        &&& reports(
            lines,
            |i: int| regex_is_match(rule.pattern, lines_of(raw@)[i]),
            rule.keep,
            res@[k].matches@,
        )
    } by {
        let rule = rules@[at[k]];
        let flags = match_flags(lines, rule.pattern);
        assert(entries(res@)[k] == res@[k]@);
        assert(found[at[k]] == rule_matches(lines, rule));
        assert(res@[k]@.matches == matched(res@[k].matches@));
        assert(matched(res@[k].matches@).len() == res@[k].matches@.len());
        lemma_reports(lines, flags, rule.keep, res@[k].matches@);
        let hit = |i: int| i < flags.len() && flags[i];
        let matches = res@[k].matches@;
        let matching = |i: int| regex_is_match(rule.pattern, lines_of(raw@)[i]);
        assert(reports(lines, hit, rule.keep, matches));
        assert forall|i: int| 0 <= i < lines.len() && #[trigger] matching(
            i,
        ) implies match rule.keep {
            KeepMode::First => matches.len() == 1 && matches[0].0 <= i + 1,
            KeepMode::Last => matches.len() == 1 && matches[0].0 >= i + 1,
            KeepMode::All => exists|m: int|
                0 <= m < matches.len() && (#[trigger] matches[m]).0 == i + 1,
        } by {
            assert(hit(i));
        }
        assert forall|m: int| 0 <= m < matches.len() implies {
            let (number, text) = #[trigger] matches[m];
            &&& 1 <= number <= lines.len()
            &&& text@ == lines[number - 1]
            &&& matching(number - 1)
        } by {
            let (number, text) = matches[m];
            assert(hit(number - 1));
        }
        assert(reports(lines, matching, rule.keep, matches));
    }
    assert forall|r: int, i: int|
        0 <= r < rules@.len() && 0 <= i < lines.len() && #[trigger] regex_is_match(
            rules@[r].pattern,
            lines_of(raw@)[i],
        ) implies at.contains(r) by {
        law_hits_are_complete(lines, match_flags(lines, rules@[r].pattern), i);
        assert(found[r] == rule_matches(lines, rules@[r]));
    }
    at
}

/// Lists of lines are collected under the names of their rules, in order, and empty lists are left
/// out. Entry `k` is that of rule `at[k]`.
pub proof fn law_collect_index(
    rules: &[CompiledTeeIndexRule],
    found: Vec<Vec<(usize, String)>>,
    res: Vec<IndexResult>,
) -> (at: Seq<int>)
    requires
        call_ensures(collect_index, (rules, found), res),
    ensures
        at.len() == res@.len(),
        forall|k: int|
            0 <= k < res@.len() ==> {
                let matches = found@[at[k]]@;
                &&& 0 <= at[k] < rules@.len() && at[k] < found@.len()
                &&& (#[trigger] res@[k]).name@ == rules@[at[k]].name@
                &&& res@[k].show_line == rules@[at[k]].show_line
                &&& 0 < res@[k].matches@.len() == matches.len()
                &&& forall|m: int|
                    0 <= m < matches.len() ==> (#[trigger] res@[k].matches@[m]).0 == matches[m].0
                        && res@[k].matches@[m].1@ == matches[m].1@
            },
        forall|j: int, k: int| 0 <= j < k < at.len() ==> #[trigger] at[j] < #[trigger] at[k],
        forall|i: int|
            0 <= i < rules@.len() && i < found@.len() && (#[trigger] found@[i])@.len() > 0
                ==> at.contains(i),
{
    let all = all_matched(found@);
    let at = lemma_collected_positions(rules@, all);
    assert(entries(res@).len() == res@.len());
    assert forall|k: int| 0 <= k < res@.len() implies {
        let matches = found@[at[k]]@;
        &&& 0 <= at[k] < rules@.len() && at[k] < found@.len()
        &&& (#[trigger] res@[k]).name@ == rules@[at[k]].name@
        &&& res@[k].show_line == rules@[at[k]].show_line
        &&& 0 < res@[k].matches@.len() == matches.len()
        &&& forall|m: int|
            0 <= m < matches.len() ==> (#[trigger] res@[k].matches@[m]).0 == matches[m].0
                && res@[k].matches@[m].1@ == matches[m].1@
    } by {
        let matches = found@[at[k]]@;
        assert(entries(res@)[k] == res@[k]@);
        assert(all[at[k]] == matched(matches));
        assert(matched(res@[k].matches@) == matched(matches));
        assert(matched(matches).len() == matches.len());
        assert(matched(res@[k].matches@).len() == res@[k].matches@.len());
        assert forall|m: int| 0 <= m < matches.len() implies (
        #[trigger] res@[k].matches@[m]).0 == matches[m].0 && res@[k].matches@[m].1@
            == matches[m].1@ by {
            assert(matched(res@[k].matches@)[m] == matched(matches)[m]);
        }
    }
    assert forall|i: int|
        0 <= i < rules@.len() && i < found@.len() && (#[trigger] found@[i])@.len()
            > 0 implies at.contains(i) by {
        assert(all[i] == matched(found@[i]@));
        assert(all[i].len() > 0);
    }
    at
}

/// A rule is compiled exactly if its pattern is valid, and then keeps its name, what it keeps and
/// whether it shows lines.
pub proof fn law_compile(rule: &TeeIndexRule, res: Option<CompiledTeeIndexRule>)
    requires
        call_ensures(CompiledTeeIndexRule::compile, (rule,), res),
    ensures
        res is Some <==> regex_new(rule.match_pattern@) is Ok,
        res matches Some(compiled) ==> {
            &&& regex_new(rule.match_pattern@) == Ok::<Regex, regex::Error>(compiled.pattern)
            &&& compiled.name@ == rule.name@
            &&& compiled.keep == rule.keep
            &&& compiled.show_line == rule.show_line
        },
{
}

/// Compiling with a warning compiles the same rules, and the warning names the rule and the reason.
pub proof fn law_try_compile(rule: &TeeIndexRule, res: Result<CompiledTeeIndexRule, String>)
    requires
        call_ensures(CompiledTeeIndexRule::try_compile, (rule,), res),
    ensures
        match regex_new(rule.match_pattern@) {
            Ok(pattern) => res matches Ok(compiled) && {
                &&& compiled.pattern == pattern
                &&& compiled.name@ == rule.name@
                &&& compiled.keep == rule.keep
                &&& compiled.show_line == rule.show_line
            },
            Err(error) => res matches Err(warning) && warning@
                == "[rtk] warning: tee index rule '"@ + rule.name@ + "': invalid regex: "@
                + regex_error_text(error),
        },
{
}

/// The outcome of compiling the pattern decides between the rule and the warning.
pub proof fn law_with_pattern(
    rule: &TeeIndexRule,
    pattern: Result<Regex, String>,
    res: Result<CompiledTeeIndexRule, String>,
)
    requires
        call_ensures(CompiledTeeIndexRule::with_pattern, (rule, pattern), res),
    ensures
        match pattern {
            Ok(regex) => res matches Ok(compiled) && {
                &&& compiled.pattern == regex
                &&& compiled.name@ == rule.name@
                &&& compiled.keep == rule.keep
                &&& compiled.show_line == rule.show_line
            },
            Err(why) => res matches Err(warning) && warning@
                == "[rtk] warning: tee index rule '"@ + rule.name@ + "': invalid regex: "@ + why@,
        },
{
}

} // verus!
