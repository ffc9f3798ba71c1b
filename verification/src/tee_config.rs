//! Settings of the tee feature, which saves the unfiltered output of a command to disk.
use crate::index_rule::{fill_rules, rule_sections, TeeIndexRule, TeeIndexRuleSection};
use crate::text::same_text;
use std::path::PathBuf;
use vstd::prelude::*;

verus! {

/// Minimum output size to tee, in bytes (smaller outputs don't need recovery).
pub const MIN_TEE_SIZE: usize = 500;

/// Default max files to keep in tee directory.
pub const DEFAULT_MAX_FILES: usize = 20;

/// Default max file size (1MB).
pub const DEFAULT_MAX_FILE_SIZE: usize = 1_048_576;

/// TeeMode controls when tee writes files.
#[derive(Debug, Clone, Copy, PartialEq, Eq, Structural)]
pub enum TeeMode {
    Failures,
    Always,
    Never,
}

impl TeeMode {
    /// The name of the mode in a configuration file.
    pub open spec fn name(self) -> Seq<char> {
        match self {
            TeeMode::Failures => "failures"@,
            TeeMode::Always => "always"@,
            TeeMode::Never => "never"@,
        }
    }

    /// The name of the mode in a configuration file.
    pub fn as_name(self) -> (res: &'static str)
        ensures
            res@ == self.name(),
    {
        match self {
            TeeMode::Failures => "failures",
            TeeMode::Always => "always",
            TeeMode::Never => "never",
        }
    }

    /// The mode with the given name, if there is one.
    pub open spec fn named(name: Seq<char>) -> Option<TeeMode> {
        if name == "failures"@ {
            Some(TeeMode::Failures)
        } else if name == "always"@ {
            Some(TeeMode::Always)
        } else if name == "never"@ {
            Some(TeeMode::Never)
        } else {
            None
        }
    }

    /// The mode with the given name, if there is one.
    pub fn from_name(name: &str) -> (res: Option<TeeMode>)
        ensures
            res == TeeMode::named(name@),
    {
        if same_text(name, "failures") {
            Some(TeeMode::Failures)
        } else if same_text(name, "always") {
            Some(TeeMode::Always)
        } else if same_text(name, "never") {
            Some(TeeMode::Never)
        } else {
            None
        }
    }
}

impl Default for TeeMode {
    fn default() -> (res: TeeMode)
        ensures
            res == TeeMode::Failures,
    {
        TeeMode::Failures
    }
}

/// The name of a mode is read back as the same mode, and nothing else is.
pub proof fn law_tee_mode_names(mode: TeeMode, name: Seq<char>)
    ensures
        TeeMode::named(mode.name()) == Some(mode),
        TeeMode::named(name) == Some(mode) <==> name == mode.name(),
{
    reveal_strlit("failures");
    reveal_strlit("always");
    reveal_strlit("never");
    assert("failures"@.len() == 8);
    assert("always"@.len() == 6);
    assert("never"@.len() == 5);
}

/// Configuration for the tee feature.
#[derive(Debug, Clone)]
pub struct TeeConfig {
    pub enabled: bool,
    pub mode: TeeMode,
    pub max_files: usize,
    pub max_file_size: usize,
    pub directory: Option<PathBuf>,
    /// Global tee index rules: emit line-number hints in tee output.
    pub index: Vec<TeeIndexRule>,
}

impl TeeConfig {
    /// Whether every setting has its default value.
    pub open spec fn is_default(self) -> bool {
        &&& self.enabled
        &&& self.mode == TeeMode::Failures
        &&& self.max_files == DEFAULT_MAX_FILES
        &&& self.max_file_size == DEFAULT_MAX_FILE_SIZE
        &&& self.directory is None
        &&& self.index@.len() == 0
    }
}

impl Default for TeeConfig {
    fn default() -> (res: TeeConfig)
        ensures
            res.is_default(),
    {
        TeeConfig {
            enabled: true,
            mode: TeeMode::default(),
            max_files: DEFAULT_MAX_FILES,
            max_file_size: DEFAULT_MAX_FILE_SIZE,
            directory: None,
            index: Vec::new(),
        }
    }
}

/// The tee settings as they stand in a configuration file, where the directory and the index rules
/// may be left out.
#[derive(Debug, Clone)]
pub struct TeeSection {
    pub enabled: bool,
    pub mode: TeeMode,
    pub max_files: usize,
    pub max_file_size: usize,
    pub directory: Option<PathBuf>,
    pub index: Option<Vec<TeeIndexRuleSection>>,
}

impl TeeSection {
    /// Whether `config` holds what the section says, and the defaults of what it leaves out.
    pub open spec fn filled_as(self, config: TeeConfig) -> bool {
        &&& config.enabled == self.enabled
        &&& config.mode == self.mode
        &&& config.max_files == self.max_files
        &&& config.max_file_size == self.max_file_size
        &&& config.directory == self.directory
        &&& config.index@ == match self.index {
            Some(rules) => rules@.map_values(|rule: TeeIndexRuleSection| rule.filled()),
            None => Seq::empty(),
        }
    }

    /// Whether the section says all of `config`.
    pub open spec fn says_all(self, config: TeeConfig) -> bool {
        &&& self.enabled == config.enabled
        &&& self.mode == config.mode
        &&& self.max_files == config.max_files
        &&& self.max_file_size == config.max_file_size
        &&& self.directory == config.directory
        &&& self.index matches Some(rules)
        &&& rules@ == config.index@.map_values(|rule: TeeIndexRule| rule.section())
    }

    /// Fills in what the section leaves out.
    pub fn fill(self) -> (res: TeeConfig)
        ensures
            self.filled_as(res),
    {
        TeeConfig {
            enabled: self.enabled,
            mode: self.mode,
            max_files: self.max_files,
            max_file_size: self.max_file_size,
            directory: self.directory,
            index: match self.index {
                Some(rules) => fill_rules(rules),
                None => Vec::new(),
            },
        }
    }
}

impl TeeConfig {
    /// The section that says all of the settings.
    pub fn into_section(self) -> (res: TeeSection)
        ensures
            res.says_all(self),
    {
        TeeSection {
            enabled: self.enabled,
            mode: self.mode,
            max_files: self.max_files,
            max_file_size: self.max_file_size,
            directory: self.directory,
            index: Some(rule_sections(self.index)),
        }
    }

    /// Whether both hold the same settings.
    pub open spec fn same_settings(self, other: TeeConfig) -> bool {
        &&& self.enabled == other.enabled
        &&& self.mode == other.mode
        &&& self.max_files == other.max_files
        &&& self.max_file_size == other.max_file_size
        &&& self.directory == other.directory
        &&& self.index@ == other.index@
    }
}

/// What is written of tee settings is read back as the same settings.
pub proof fn law_tee_settings_are_read_back(config: TeeConfig, section: TeeSection, read: TeeConfig)
    requires
        section.says_all(config),
        section.filled_as(read),
    ensures
        read.same_settings(config),
{
    assert(read.index@ =~= config.index@);
}

} // verus!
