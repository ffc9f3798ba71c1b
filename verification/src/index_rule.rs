//! Tee index rules as a user writes them in the configuration.
use crate::text::same_text;
use vstd::prelude::*;

verus! {

/// Which matched lines to keep in the index result.
#[derive(Debug, Clone, Copy, PartialEq, Eq, Structural)]
pub enum KeepMode {
    First,
    Last,
    All,
}

impl KeepMode {
    /// The name of the mode in a configuration file.
    pub open spec fn name(self) -> Seq<char> {
        match self {
            KeepMode::First => "first"@,
            KeepMode::Last => "last"@,
            KeepMode::All => "all"@,
        }
    }

    /// The name of the mode in a configuration file.
    pub fn as_name(self) -> (res: &'static str)
        ensures
            res@ == self.name(),
    {
        match self {
            KeepMode::First => "first",
            KeepMode::Last => "last",
            KeepMode::All => "all",
        }
    }

    /// The mode with the given name, if there is one.
    pub open spec fn named(name: Seq<char>) -> Option<KeepMode> {
        if name == "first"@ {
            Some(KeepMode::First)
        } else if name == "last"@ {
            Some(KeepMode::Last)
        } else if name == "all"@ {
            Some(KeepMode::All)
        } else {
            None
        }
    }

    /// The mode with the given name, if there is one.
    pub fn from_name(name: &str) -> (res: Option<KeepMode>)
        ensures
            res == KeepMode::named(name@),
    {
        if same_text(name, "first") {
            Some(KeepMode::First)
        } else if same_text(name, "last") {
            Some(KeepMode::Last)
        } else if same_text(name, "all") {
            Some(KeepMode::All)
        } else {
            None
        }
    }
}

impl Default for KeepMode {
    fn default() -> (res: KeepMode)
        ensures
            res == KeepMode::First,
    {
        KeepMode::First
    }
}

/// The name of a mode is read back as the same mode, and nothing else is.
pub proof fn law_keep_mode_names(mode: KeepMode, name: Seq<char>)
    ensures
        KeepMode::named(mode.name()) == Some(mode),
        KeepMode::named(name) == Some(mode) <==> name == mode.name(),
{
    reveal_strlit("first");
    reveal_strlit("last");
    reveal_strlit("all");
    assert("first"@.len() == 5);
    assert("last"@.len() == 4);
    assert("all"@.len() == 3);
}

/// User-facing index rule.
#[derive(Debug, Clone)]
pub struct TeeIndexRule {
    pub name: String,
    /// Regex pattern to match against raw output lines.
    pub match_pattern: String,
    /// Which matches to keep.
    pub keep: KeepMode,
    /// Include matched line text in the hint (not just line number).
    pub show_line: bool,
}

/// An index rule as it stands in a configuration file, where two entries may be left out.
#[derive(Debug, Clone)]
pub struct TeeIndexRuleSection {
    pub name: String,
    pub match_pattern: String,
    pub keep: Option<KeepMode>,
    pub show_line: Option<bool>,
}

impl TeeIndexRuleSection {
    /// The rule that the section stands for.
    pub open spec fn filled(self) -> TeeIndexRule {
        TeeIndexRule {
            name: self.name,
            match_pattern: self.match_pattern,
            keep: match self.keep {
                Some(keep) => keep,
                None => KeepMode::First,
            },
            show_line: match self.show_line {
                Some(show_line) => show_line,
                None => false,
            },
        }
    }

    /// Fills in what the section leaves out: the first match is kept, and its text is not shown.
    pub fn fill(self) -> (res: TeeIndexRule)
        ensures
            res == self.filled(),
    {
        TeeIndexRule {
            name: self.name,
            match_pattern: self.match_pattern,
            keep: match self.keep {
                Some(keep) => keep,
                None => KeepMode::default(),
            },
            show_line: match self.show_line {
                Some(show_line) => show_line,
                None => false,
            },
        }
    }
}

impl TeeIndexRule {
    /// The section that says all of the rule.
    pub open spec fn section(self) -> TeeIndexRuleSection {
        TeeIndexRuleSection {
            name: self.name,
            match_pattern: self.match_pattern,
            keep: Some(self.keep),
            show_line: Some(self.show_line),
        }
    }

    /// The section that says all of the rule.
    pub fn into_section(self) -> (res: TeeIndexRuleSection)
        ensures
            res == self.section(),
    {
        TeeIndexRuleSection {
            name: self.name,
            match_pattern: self.match_pattern,
            keep: Some(self.keep),
            show_line: Some(self.show_line),
        }
    }
}

/// The sections that say all of a list of rules.
pub fn rule_sections(rules: Vec<TeeIndexRule>) -> (res: Vec<TeeIndexRuleSection>)
    ensures
        res@ == rules@.map_values(|rule: TeeIndexRule| rule.section()),
{
    let mut res: Vec<TeeIndexRuleSection> = Vec::new();
    for rule in it: rules
        invariant
            it.seq() == rules@,
            res@ == rules@.take(it.index() as int).map_values(|rule: TeeIndexRule| rule.section()),
    {
        res.push(rule.into_section());
    }
    assert(rules@.take(rules@.len() as int) =~= rules@);
    res
}

/// Fills in every rule of a list.
pub fn fill_rules(sections: Vec<TeeIndexRuleSection>) -> (res: Vec<TeeIndexRule>)
    ensures
        res@ == sections@.map_values(|section: TeeIndexRuleSection| section.filled()),
{
    let mut res: Vec<TeeIndexRule> = Vec::new();
    for section in it: sections
        invariant
            it.seq() == sections@,
            res@ == sections@.take(it.index() as int).map_values(
                |section: TeeIndexRuleSection| section.filled(),
            ),
    {
        res.push(section.fill());
    }
    assert(sections@.take(sections@.len() as int) =~= sections@);
    res
}

} // verus!
