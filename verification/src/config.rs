//! User settings, and what they say of output limits.
use crate::constants::DEFAULT_HISTORY_DAYS;
use crate::paths::{config_path_in, display, get_config_path, path_display, text_of};
use crate::tee_config::{law_tee_settings_are_read_back, TeeConfig, TeeSection};
use crate::text::texts;
use std::path::PathBuf;
use vstd::prelude::*;

verus! {

// ---------------------------------------------------------------------------
// Settings
// ---------------------------------------------------------------------------

/// All settings of the program.
#[derive(Debug, Clone)]
pub struct Config {
    pub tracking: TrackingConfig,
    pub display: DisplayConfig,
    pub filters: FilterConfig,
    pub tee: TeeConfig,
    pub telemetry: TelemetryConfig,
    pub hooks: HooksConfig,
    pub limits: LimitsConfig,
}

#[derive(Debug, Clone)]
pub struct HooksConfig {
    /// Commands to exclude from auto-rewrite (e.g. ["curl", "playwright"]).
    pub exclude_commands: Vec<String>,
}

#[derive(Debug, Clone)]
pub struct TrackingConfig {
    pub enabled: bool,
    pub history_days: u32,
    pub database_path: Option<PathBuf>,
}

#[derive(Debug, Clone)]
pub struct DisplayConfig {
    pub colors: bool,
    pub emoji: bool,
    pub max_width: usize,
}

#[derive(Debug, Clone)]
pub struct FilterConfig {
    pub ignore_dirs: Vec<String>,
    pub ignore_files: Vec<String>,
}

#[derive(Debug, Clone)]
pub struct TelemetryConfig {
    pub enabled: bool,
    pub consent_given: Option<bool>,
    pub consent_date: Option<String>,
}

#[derive(Debug, Clone, Copy, PartialEq, Eq, Structural)]
pub struct LimitsConfig {
    /// When true, applies only lossless operations (ANSI strip, dedup, reformat).
    /// Disables all lossy truncation (line caps, result limits).
    pub lossless: bool,
    /// Max total grep results to show (default: 200)
    pub grep_max_results: usize,
    /// Max matches per file in grep output (default: 25)
    pub grep_max_per_file: usize,
    /// Max staged/modified files shown in git status (default: 15)
    pub status_max_files: usize,
    /// Max untracked files shown in git status (default: 10)
    pub status_max_untracked: usize,
    /// Max chars for parser passthrough fallback (default: 2000)
    pub passthrough_max_chars: usize,
}

// ---------------------------------------------------------------------------
// Defaults
// ---------------------------------------------------------------------------

impl Config {
    /// Whether every setting has its default value.
    pub open spec fn is_default(self) -> bool {
        &&& self.tracking.is_default()
        &&& self.display.is_default()
        &&& self.filters.is_default()
        &&& self.tee.is_default()
        &&& self.telemetry.is_default()
        &&& self.hooks.is_default()
        &&& self.limits == default_limits()
    }
}

impl HooksConfig {
    /// Whether every setting has its default value.
    pub open spec fn is_default(self) -> bool {
        self.exclude_commands@.len() == 0
    }
}

impl TrackingConfig {
    /// Whether every setting has its default value.
    pub open spec fn is_default(self) -> bool {
        &&& self.enabled
        &&& self.history_days == DEFAULT_HISTORY_DAYS
        &&& self.database_path is None
    }
}

impl DisplayConfig {
    /// Whether every setting has its default value.
    pub open spec fn is_default(self) -> bool {
        &&& self.colors
        &&& self.emoji
        &&& self.max_width == 120
    }
}

impl FilterConfig {
    /// Whether every setting has its default value.
    pub open spec fn is_default(self) -> bool {
        &&& texts(self.ignore_dirs@) == seq![
            ".git"@,
            "node_modules"@,
            "target"@,
            "__pycache__"@,
            ".venv"@,
            "vendor"@,
        ]
        &&& texts(self.ignore_files@) == seq!["*.lock"@, "*.min.js"@, "*.min.css"@]
    }
}

impl TelemetryConfig {
    /// Whether every setting has its default value.
    pub open spec fn is_default(self) -> bool {
        &&& !self.enabled
        &&& self.consent_given is None
        &&& self.consent_date is None
    }
}

/// The default limits.
pub open spec fn default_limits() -> LimitsConfig {
    LimitsConfig {
        lossless: false,
        grep_max_results: 200,
        grep_max_per_file: 25,
        status_max_files: 15,
        status_max_untracked: 10,
        passthrough_max_chars: 2000,
    }
}

pub fn default_grep_max_results() -> (res: usize)
    ensures
        res == default_limits().grep_max_results,
{
    200
}

pub fn default_grep_max_per_file() -> (res: usize)
    ensures
        res == default_limits().grep_max_per_file,
{
    25
}

pub fn default_status_max_files() -> (res: usize)
    ensures
        res == default_limits().status_max_files,
{
    15
}

pub fn default_status_max_untracked() -> (res: usize)
    ensures
        res == default_limits().status_max_untracked,
{
    10
}

pub fn default_passthrough_max_chars() -> (res: usize)
    ensures
        res == default_limits().passthrough_max_chars,
{
    2000
}

impl Default for Config {
    fn default() -> (res: Config)
        ensures
            res.is_default(),
    {
        Config {
            tracking: TrackingConfig::default(),
            display: DisplayConfig::default(),
            filters: FilterConfig::default(),
            tee: TeeConfig::default(),
            telemetry: TelemetryConfig::default(),
            hooks: HooksConfig::default(),
            limits: LimitsConfig::default(),
        }
    }
}

impl Default for HooksConfig {
    fn default() -> (res: HooksConfig)
        ensures
            res.is_default(),
    {
        HooksConfig { exclude_commands: Vec::new() }
    }
}

impl Default for TrackingConfig {
    fn default() -> (res: TrackingConfig)
        ensures
            res.is_default(),
    {
        TrackingConfig { enabled: true, history_days: DEFAULT_HISTORY_DAYS, database_path: None }
    }
}

impl Default for DisplayConfig {
    fn default() -> (res: DisplayConfig)
        ensures
            res.is_default(),
    {
        DisplayConfig { colors: true, emoji: true, max_width: 120 }
    }
}

impl Default for FilterConfig {
    fn default() -> (res: FilterConfig)
        ensures
            res.is_default(),
    {
        let mut ignore_dirs: Vec<String> = Vec::new();
        ignore_dirs.push(".git".to_owned());
        ignore_dirs.push("node_modules".to_owned());
        ignore_dirs.push("target".to_owned());
        ignore_dirs.push("__pycache__".to_owned());
        ignore_dirs.push(".venv".to_owned());
        ignore_dirs.push("vendor".to_owned());
        let mut ignore_files: Vec<String> = Vec::new();
        ignore_files.push("*.lock".to_owned());
        ignore_files.push("*.min.js".to_owned());
        ignore_files.push("*.min.css".to_owned());
        assert(texts(ignore_dirs@) =~= seq![
            ".git"@,
            "node_modules"@,
            "target"@,
            "__pycache__"@,
            ".venv"@,
            "vendor"@,
        ]);
        assert(texts(ignore_files@) =~= seq!["*.lock"@, "*.min.js"@, "*.min.css"@]);
        FilterConfig { ignore_dirs, ignore_files }
    }
}

impl Default for TelemetryConfig {
    fn default() -> (res: TelemetryConfig)
        ensures
            res.is_default(),
    {
        TelemetryConfig { enabled: false, consent_given: None, consent_date: None }
    }
}

impl Default for LimitsConfig {
    fn default() -> (res: LimitsConfig)
        ensures
            res == default_limits(),
    {
        LimitsConfig {
            lossless: false,
            grep_max_results: default_grep_max_results(),
            grep_max_per_file: default_grep_max_per_file(),
            status_max_files: default_status_max_files(),
            status_max_untracked: default_status_max_untracked(),
            passthrough_max_chars: default_passthrough_max_chars(),
        }
    }
}

// ---------------------------------------------------------------------------
// The configuration file
// ---------------------------------------------------------------------------

/// The hook settings as they stand in a configuration file.
#[derive(Debug, Clone)]
pub struct HooksSection {
    pub exclude_commands: Option<Vec<String>>,
}

/// The limits as they stand in a configuration file, where each may be left out.
#[derive(Debug, Clone, Copy)]
pub struct LimitsSection {
    pub lossless: Option<bool>,
    pub grep_max_results: Option<usize>,
    pub grep_max_per_file: Option<usize>,
    pub status_max_files: Option<usize>,
    pub status_max_untracked: Option<usize>,
    pub passthrough_max_chars: Option<usize>,
}

/// What a configuration file holds: every section may be left out.
#[derive(Debug, Clone)]
pub struct ConfigSections {
    pub tracking: Option<TrackingConfig>,
    pub display: Option<DisplayConfig>,
    pub filters: Option<FilterConfig>,
    pub tee: Option<TeeSection>,
    pub telemetry: Option<TelemetryConfig>,
    pub hooks: Option<HooksSection>,
    pub limits: Option<LimitsSection>,
}

/// The given value, or a default.
pub open spec fn given_or<T>(given: Option<T>, default: T) -> T {
    match given {
        Some(value) => value,
        None => default,
    }
}

impl HooksSection {
    /// Whether `config` holds what the section says, and the defaults of what it leaves out.
    pub open spec fn filled_as(self, config: HooksConfig) -> bool {
        match self.exclude_commands {
            Some(commands) => config.exclude_commands == commands,
            None => config.is_default(),
        }
    }

    /// Fills in what the section leaves out.
    pub fn fill(self) -> (res: HooksConfig)
        ensures
            self.filled_as(res),
    {
        match self.exclude_commands {
            Some(commands) => HooksConfig { exclude_commands: commands },
            None => HooksConfig::default(),
        }
    }
}

impl LimitsConfig {
    /// The section that says all of the limits.
    pub open spec fn section(self) -> LimitsSection {
        LimitsSection {
            lossless: Some(self.lossless),
            grep_max_results: Some(self.grep_max_results),
            grep_max_per_file: Some(self.grep_max_per_file),
            status_max_files: Some(self.status_max_files),
            status_max_untracked: Some(self.status_max_untracked),
            passthrough_max_chars: Some(self.passthrough_max_chars),
        }
    }

    /// The section that says all of the limits.
    pub fn into_section(self) -> (res: LimitsSection)
        ensures
            res == self.section(),
    {
        LimitsSection {
            lossless: Some(self.lossless),
            grep_max_results: Some(self.grep_max_results),
            grep_max_per_file: Some(self.grep_max_per_file),
            status_max_files: Some(self.status_max_files),
            status_max_untracked: Some(self.status_max_untracked),
            passthrough_max_chars: Some(self.passthrough_max_chars),
        }
    }
}

impl LimitsSection {
    /// The limits that the section stands for.
    pub open spec fn filled(self) -> LimitsConfig {
        LimitsConfig {
            lossless: given_or(self.lossless, default_limits().lossless),
            grep_max_results: given_or(self.grep_max_results, default_limits().grep_max_results),
            grep_max_per_file: given_or(self.grep_max_per_file, default_limits().grep_max_per_file),
            status_max_files: given_or(self.status_max_files, default_limits().status_max_files),
            status_max_untracked: given_or(
                self.status_max_untracked,
                default_limits().status_max_untracked,
            ),
            passthrough_max_chars: given_or(
                self.passthrough_max_chars,
                default_limits().passthrough_max_chars,
            ),
        }
    }

    /// Fills in the default of each limit that is left out.
    pub fn fill(self) -> (res: LimitsConfig)
        ensures
            res == self.filled(),
    {
        LimitsConfig {
            lossless: self.lossless.unwrap_or(false),
            grep_max_results: self.grep_max_results.unwrap_or(default_grep_max_results()),
            grep_max_per_file: self.grep_max_per_file.unwrap_or(default_grep_max_per_file()),
            status_max_files: self.status_max_files.unwrap_or(default_status_max_files()),
            status_max_untracked: self.status_max_untracked.unwrap_or(
                default_status_max_untracked(),
            ),
            passthrough_max_chars: self.passthrough_max_chars.unwrap_or(
                default_passthrough_max_chars(),
            ),
        }
    }
}

impl ConfigSections {
    /// Whether `config` holds what the sections say, and the defaults of what they leave out.
    pub open spec fn filled_as(self, config: Config) -> bool {
        &&& match self.tracking {
            Some(tracking) => config.tracking == tracking,
            None => config.tracking.is_default(),
        }
        &&& match self.display {
            Some(display) => config.display == display,
            None => config.display.is_default(),
        }
        &&& match self.filters {
            Some(filters) => config.filters == filters,
            None => config.filters.is_default(),
        }
        &&& match self.tee {
            Some(tee) => tee.filled_as(config.tee),
            None => config.tee.is_default(),
        }
        &&& match self.telemetry {
            Some(telemetry) => config.telemetry == telemetry,
            None => config.telemetry.is_default(),
        }
        &&& match self.hooks {
            Some(hooks) => hooks.filled_as(config.hooks),
            None => config.hooks.is_default(),
        }
        &&& match self.limits {
            Some(limits) => config.limits == limits.filled(),
            None => config.limits == default_limits(),
        }
    }

    /// Whether the sections say all of `config`.
    pub open spec fn says_all(self, config: Config) -> bool {
        &&& self.tracking == Some(config.tracking)
        &&& self.display == Some(config.display)
        &&& self.filters == Some(config.filters)
        &&& self.tee matches Some(tee)
        &&& tee.says_all(config.tee)
        &&& self.telemetry == Some(config.telemetry)
        &&& self.hooks == Some(
            HooksSection { exclude_commands: Some(config.hooks.exclude_commands) },
        )
        &&& self.limits == Some(config.limits.section())
    }

    /// Fills in what the sections leave out.
    pub fn fill(self) -> (res: Config)
        ensures
            self.filled_as(res),
    {
        Config {
            tracking: match self.tracking {
                Some(tracking) => tracking,
                None => TrackingConfig::default(),
            },
            display: match self.display {
                Some(display) => display,
                None => DisplayConfig::default(),
            },
            filters: match self.filters {
                Some(filters) => filters,
                None => FilterConfig::default(),
            },
            tee: match self.tee {
                Some(tee) => tee.fill(),
                None => TeeConfig::default(),
            },
            telemetry: match self.telemetry {
                Some(telemetry) => telemetry,
                None => TelemetryConfig::default(),
            },
            hooks: match self.hooks {
                Some(hooks) => hooks.fill(),
                None => HooksConfig::default(),
            },
            limits: match self.limits {
                Some(limits) => limits.fill(),
                None => LimitsConfig::default(),
            },
        }
    }
}

/// What was found where the configuration file should be.
#[derive(Debug)]
pub enum ConfigFile {
    /// There is no file.
    Absent,
    /// The file could not be read, for the given reason.
    Unreadable(String),
    /// The file is not a valid configuration, for the given reason.
    Malformed(String),
    /// The file holds these sections.
    Parsed(ConfigSections),
}

/// Why no configuration could be loaded.
#[derive(Debug)]
pub enum ConfigError {
    /// The file could not be read.
    Unreadable(String),
    /// The file is not a valid configuration.
    Malformed(String),
}

/// What is to be written to a configuration file, and where the file is.
#[derive(Debug)]
pub struct ConfigWrite {
    pub path: PathBuf,
    pub sections: ConfigSections,
}

/// Whether `loaded` is what loading a configuration from `file` gives.
pub open spec fn loads_as(file: ConfigFile, loaded: Result<Config, ConfigError>) -> bool {
    match file {
        ConfigFile::Absent => loaded matches Ok(config) && config.is_default(),
        ConfigFile::Unreadable(why) => loaded == Err::<Config, _>(ConfigError::Unreadable(why)),
        ConfigFile::Malformed(why) => loaded == Err::<Config, _>(ConfigError::Malformed(why)),
        ConfigFile::Parsed(sections) => loaded matches Ok(config) && sections.filled_as(config),
    }
}

impl Config {
    /// The configuration that the configuration file gives: without a file, the defaults.
    pub fn load(file: ConfigFile) -> (res: Result<Config, ConfigError>)
        ensures
            loads_as(file, res),
    {
        match file {
            ConfigFile::Absent => Ok(Config::default()),
            ConfigFile::Unreadable(why) => Err(ConfigError::Unreadable(why)),
            ConfigFile::Malformed(why) => Err(ConfigError::Malformed(why)),
            ConfigFile::Parsed(sections) => Ok(sections.fill()),
        }
    }

    /// The sections that say all of the configuration.
    pub fn into_sections(self) -> (res: ConfigSections)
        ensures
            res.says_all(self),
    {
        ConfigSections {
            tracking: Some(self.tracking),
            display: Some(self.display),
            filters: Some(self.filters),
            tee: Some(self.tee.into_section()),
            telemetry: Some(self.telemetry),
            hooks: Some(HooksSection { exclude_commands: Some(self.hooks.exclude_commands) }),
            limits: Some(self.limits.into_section()),
        }
    }

    /// What saving this configuration writes, and where: the user's configuration file.
    pub fn save(self) -> (res: ConfigWrite)
        ensures
            res.sections.says_all(self),
            exists|config_dir: Option<PathBuf>| res.path == #[trigger] config_path_in(config_dir),
    {
        ConfigWrite { path: get_config_path(), sections: self.into_sections() }
    }

    /// What creating the user's configuration file writes, and where: the default configuration.
    pub fn create_default() -> (res: ConfigWrite)
        ensures
            exists|config: Config| config.is_default() && #[trigger] res.sections.says_all(config),
            exists|config_dir: Option<PathBuf>| res.path == #[trigger] config_path_in(config_dir),
    {
        Config::default().save()
    }
}

// ---------------------------------------------------------------------------
// Showing the configuration
// ---------------------------------------------------------------------------

/// The configuration to show.
#[derive(Debug)]
pub enum ConfigToShow {
    /// The configuration that the file gives.
    Stored(Config),
    /// There is no file; the default configuration.
    Missing(Config),
}

/// Whether `found` is what there is to show of the configuration file `file`: what it gives, or,
/// without a file, the defaults. A file that gives no configuration is an error.
pub open spec fn shows_as(file: ConfigFile, found: Result<ConfigToShow, ConfigError>) -> bool {
    match file {
        ConfigFile::Absent => found matches Ok(ConfigToShow::Missing(config))
            && config.is_default(),
        ConfigFile::Parsed(sections) => found matches Ok(ConfigToShow::Stored(config))
            && sections.filled_as(config),
        ConfigFile::Unreadable(why) => found == Err::<ConfigToShow, _>(
            ConfigError::Unreadable(why),
        ),
        ConfigFile::Malformed(why) => found == Err::<ConfigToShow, _>(ConfigError::Malformed(why)),
    }
}

/// Chooses the configuration to show, given what was found where its file should be.
pub fn config_to_show(file: ConfigFile) -> (res: Result<ConfigToShow, ConfigError>)
    ensures
        shows_as(file, res),
{
    match file {
        ConfigFile::Absent => Ok(ConfigToShow::Missing(Config::default())),
        ConfigFile::Parsed(sections) => Ok(ConfigToShow::Stored(sections.fill())),
        ConfigFile::Unreadable(why) => Err(ConfigError::Unreadable(why)),
        ConfigFile::Malformed(why) => Err(ConfigError::Malformed(why)),
    }
}

/// The report on the configuration: where its file is, and the configuration that was found, as
/// `text`. There is no text where the configuration could not be put in writing.
pub open spec fn report_text(
    path: Seq<char>,
    found: Result<ConfigToShow, ConfigError>,
    text: Option<Seq<char>>,
) -> Seq<char> {
    let header = "Config: "@ + path + "\n\n"@;
    match found {
        Ok(ConfigToShow::Stored(_)) => match text {
            Some(text) => header + text + "\n"@,
            None => header,
        },
        Ok(ConfigToShow::Missing(_)) => match text {
            Some(text) => header + "(default config, file not created)\n\n"@ + text + "\n"@,
            None => header + "(default config, file not created)\n\n"@,
        },
        Err(_) => header,
    }
}

/// The report on the configuration, given the text of the path of its file, what was found there,
/// and the text of the configuration to show.
pub fn config_report(
    path: &str,
    found: &Result<ConfigToShow, ConfigError>,
    text: &Option<String>,
) -> (res: String)
    ensures
        res@ == report_text(path@, *found, text_of(*text)),
{
    let mut res: String = "Config: ".to_owned();
    res.append(path);
    res.append("\n\n");
    match found {
        Ok(to_show) => {
            match to_show {
                ConfigToShow::Stored(_) => {},
                ConfigToShow::Missing(_) => {
                    res.append("(default config, file not created)\n\n");
                },
            }
            match text {
                Some(text) => {
                    res.append(text.as_str());
                    res.append("\n");
                },
                None => {},
            }
        },
        Err(_) => {},
    }
    res
}

/// The report on the configuration whose file is `path`, given what was found there and the text
/// of the configuration to show.
pub fn show_config(
    path: &PathBuf,
    found: &Result<ConfigToShow, ConfigError>,
    text: &Option<String>,
) -> (res: String)
    ensures
        res@ == report_text(path_display(*path), *found, text_of(*text)),
{
    let shown_path: String = display(path);
    config_report(shown_path.as_str(), found, text)
}

// ---------------------------------------------------------------------------
// Laws
// ---------------------------------------------------------------------------

/// What is written of a configuration is read back as the same settings.
pub proof fn law_saved_settings_are_read_back(
    config: Config,
    sections: ConfigSections,
    read: Config,
)
    requires
        sections.says_all(config),
        sections.filled_as(read),
    ensures
        read.tracking == config.tracking,
        read.display == config.display,
        read.filters == config.filters,
        read.tee.same_settings(config.tee),
        read.telemetry == config.telemetry,
        read.hooks == config.hooks,
        read.limits == config.limits,
{
    law_tee_settings_are_read_back(config.tee, sections.tee->0, read.tee);
}

/// The configuration to show is the one that loading gives, and there is none exactly when loading
/// fails, for the same reason.
pub proof fn law_shown_config_is_the_loaded_one(
    file: ConfigFile,
    found: Result<ConfigToShow, ConfigError>,
)
    requires
        shows_as(file, found),
    ensures
        match found {
            Ok(ConfigToShow::Stored(config)) => loads_as(file, Ok(config)),
            Ok(ConfigToShow::Missing(config)) => loads_as(file, Ok(config)),
            Err(error) => loads_as(file, Err(error)),
        },
        found is Err <==> (file is Unreadable || file is Malformed),
{
}

/// Without a file, the report shows the configuration below a note that there is none; of a file
/// that gives a configuration, it shows that alone; of any other, it consists of the header.
pub proof fn law_report_follows_the_file(
    path: Seq<char>,
    file: ConfigFile,
    found: Result<ConfigToShow, ConfigError>,
    text: Seq<char>,
)
    requires
        shows_as(file, found),
    ensures
        ({
            let header = "Config: "@ + path + "\n\n"@;
            let report = report_text(path, found, Some(text));
            match file {
                ConfigFile::Absent => report == header + "(default config, file not created)\n\n"@
                    + text + "\n"@,
                ConfigFile::Parsed(_) => report == header + text + "\n"@,
                _ => report == header && found is Err,
            }
        }),
{
}

/// A file without any section gives the defaults, as no file does.
pub proof fn law_empty_file_gives_defaults(sections: ConfigSections, config: Config)
    requires
        sections.tracking is None,
        sections.display is None,
        sections.filters is None,
        sections.tee is None,
        sections.telemetry is None,
        sections.hooks is None,
        sections.limits is None,
        sections.filled_as(config),
    ensures
        config.is_default(),
{
}

/// An empty section of limits gives the default limits, as no section does.
pub proof fn law_empty_limits_give_defaults(limits: LimitsSection)
    requires
        limits.lossless is None,
        limits.grep_max_results is None,
        limits.grep_max_per_file is None,
        limits.status_max_files is None,
        limits.status_max_untracked is None,
        limits.passthrough_max_chars is None,
    ensures
        limits.filled() == default_limits(),
{
}

/// Lossless mode, telemetry and exclusions are off unless a file turns them on.
pub proof fn law_opt_in_settings(sections: ConfigSections, config: Config)
    requires
        sections.filled_as(config),
    ensures
        config.limits.lossless ==> (sections.limits matches Some(limits) && limits.lossless == Some(
            true,
        )),
        config.telemetry.enabled ==> (sections.telemetry matches Some(telemetry)
            && telemetry.enabled),
        config.hooks.exclude_commands@.len() > 0 ==> (sections.hooks matches Some(hooks)
            && hooks.exclude_commands is Some),
        config.tee.index@.len() > 0 ==> (sections.tee matches Some(tee) && tee.index is Some),
{
}

/// What a section gives does not depend on which other sections there are.
pub proof fn law_sections_are_independent(
    one: ConfigSections,
    other: ConfigSections,
    one_config: Config,
    other_config: Config,
)
    requires
        one.filled_as(one_config),
        other.filled_as(other_config),
    ensures
        one.tracking == other.tracking ==> one_config.tracking == other_config.tracking,
        one.display == other.display ==> one_config.display == other_config.display,
        one.filters == other.filters ==> {
            &&& texts(one_config.filters.ignore_dirs@) == texts(other_config.filters.ignore_dirs@)
            &&& texts(one_config.filters.ignore_files@) == texts(other_config.filters.ignore_files@)
        },
        one.tee == other.tee ==> one_config.tee.same_settings(other_config.tee),
        one.telemetry == other.telemetry ==> one_config.telemetry == other_config.telemetry,
        one.hooks == other.hooks ==> one_config.hooks.exclude_commands@
            == other_config.hooks.exclude_commands@,
        one.limits == other.limits ==> one_config.limits == other_config.limits,
{
    if one.tee == other.tee {
        assert(one_config.tee.index@ =~= other_config.tee.index@);
    }
}

} // verus!
