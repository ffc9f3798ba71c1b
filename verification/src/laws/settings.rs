//! Laws on the settings: their defaults, what a configuration file gives, and what is written to it.
use crate::config::{config_report, config_to_show, show_config};
use crate::config::{default_grep_max_per_file, default_grep_max_results, default_status_max_files};
use crate::config::{default_passthrough_max_chars, default_status_max_untracked};
use crate::config::{Config, ConfigError, ConfigFile, ConfigSections, ConfigToShow, ConfigWrite};
use crate::config::{DisplayConfig, FilterConfig, HooksConfig, HooksSection, LimitsConfig};
use crate::config::{LimitsSection, TelemetryConfig, TrackingConfig};
use crate::index_rule::{fill_rules, rule_sections, KeepMode, TeeIndexRule, TeeIndexRuleSection};
use crate::paths::{config_path_in, path_display, path_joined, path_of};
use crate::tee_config::{TeeConfig, TeeMode, TeeSection};
use crate::text::texts;
use std::path::PathBuf;
use vstd::prelude::*;

verus! {

// ---------------------------------------------------------------------------
// Names of modes
// ---------------------------------------------------------------------------

/// The names of the tee modes in a configuration file.
pub proof fn law_tee_mode_as_name(mode: TeeMode, res: &'static str)
    requires
        call_ensures(TeeMode::as_name, (mode,), res),
    ensures
        mode == TeeMode::Failures ==> res@ == "failures"@,
        mode == TeeMode::Always ==> res@ == "always"@,
        mode == TeeMode::Never ==> res@ == "never"@,
{
}

/// Each tee mode is read from its name, and from nothing else.
pub proof fn law_tee_mode_from_name(name: &str, res: Option<TeeMode>)
    requires
        call_ensures(TeeMode::from_name, (name,), res),
    ensures
        res == Some(TeeMode::Failures) <==> name@ == "failures"@,
        res == Some(TeeMode::Always) <==> name@ == "always"@,
        res == Some(TeeMode::Never) <==> name@ == "never"@,
{
    crate::tee_config::law_tee_mode_names(TeeMode::Failures, name@);
    crate::tee_config::law_tee_mode_names(TeeMode::Always, name@);
    crate::tee_config::law_tee_mode_names(TeeMode::Never, name@);
}

/// The names of the keep modes in a configuration file.
pub proof fn law_keep_mode_as_name(mode: KeepMode, res: &'static str)
    requires
        call_ensures(KeepMode::as_name, (mode,), res),
    ensures
        mode == KeepMode::First ==> res@ == "first"@,
        mode == KeepMode::Last ==> res@ == "last"@,
        mode == KeepMode::All ==> res@ == "all"@,
{
}

/// Each keep mode is read from its name, and from nothing else.
pub proof fn law_keep_mode_from_name(name: &str, res: Option<KeepMode>)
    requires
        call_ensures(KeepMode::from_name, (name,), res),
    ensures
        res == Some(KeepMode::First) <==> name@ == "first"@,
        res == Some(KeepMode::Last) <==> name@ == "last"@,
        res == Some(KeepMode::All) <==> name@ == "all"@,
{
    crate::index_rule::law_keep_mode_names(KeepMode::First, name@);
    crate::index_rule::law_keep_mode_names(KeepMode::Last, name@);
    crate::index_rule::law_keep_mode_names(KeepMode::All, name@);
}

/// Failures are saved and first matches are kept by default.
pub proof fn law_default_modes(mode: TeeMode, keep: KeepMode)
    requires
        call_ensures(TeeMode::default, (), mode),
        call_ensures(KeepMode::default, (), keep),
    ensures
        mode == TeeMode::Failures,
        keep == KeepMode::First,
{
}

// ---------------------------------------------------------------------------
// Defaults
// ---------------------------------------------------------------------------

/// Whether a list holds these texts.
pub open spec fn holds(list: Seq<String>, expected: Seq<Seq<char>>) -> bool {
    &&& list.len() == expected.len()
    &&& forall|i: int| 0 <= i < list.len() ==> (#[trigger] list[i])@ == expected[i]
}

proof fn lemma_holds(list: Seq<String>, expected: Seq<Seq<char>>)
    ensures
        texts(list) == expected <==> holds(list, expected),
{
    assert(texts(list).len() == list.len());
    if texts(list) == expected {
        assert forall|i: int| 0 <= i < list.len() implies (#[trigger] list[i])@ == expected[i] by {
            assert(texts(list)[i] == list[i]@);
        }
    }
    if holds(list, expected) {
        assert(texts(list) =~= expected);
    }
}

/// The tracking settings by default: on, for 90 days, in the default place.
pub open spec fn default_tracking(tracking: TrackingConfig) -> bool {
    tracking == (TrackingConfig { enabled: true, history_days: 90, database_path: None })
}

/// The display settings by default: colors and emoji, 120 columns.
pub open spec fn default_display(display: DisplayConfig) -> bool {
    display == (DisplayConfig { colors: true, emoji: true, max_width: 120 })
}

/// What filters ignore by default.
pub open spec fn default_filters(filters: FilterConfig) -> bool {
    &&& holds(
        filters.ignore_dirs@,
        seq![".git"@, "node_modules"@, "target"@, "__pycache__"@, ".venv"@, "vendor"@],
    )
    &&& holds(filters.ignore_files@, seq!["*.lock"@, "*.min.js"@, "*.min.css"@])
}

/// The tee settings by default: on, for failures, 20 files of 1 MB, without rules.
pub open spec fn default_tee(tee: TeeConfig) -> bool {
    &&& tee.enabled
    &&& tee.mode == TeeMode::Failures
    &&& tee.max_files == 20
    &&& tee.max_file_size == 1048576
    &&& tee.directory is None
    &&& tee.index@.len() == 0
}

/// The telemetry settings by default: off, and no consent.
pub open spec fn default_telemetry(telemetry: TelemetryConfig) -> bool {
    telemetry == (TelemetryConfig { enabled: false, consent_given: None, consent_date: None })
}

/// The limits by default.
pub open spec fn limits_by_default(limits: LimitsConfig) -> bool {
    limits == (LimitsConfig {
        lossless: false,
        grep_max_results: 200,
        grep_max_per_file: 25,
        status_max_files: 15,
        status_max_untracked: 10,
        passthrough_max_chars: 2000,
    })
}

/// Whether every setting has its default value.
pub open spec fn default_settings(config: Config) -> bool {
    &&& default_tracking(config.tracking)
    &&& default_display(config.display)
    &&& default_filters(config.filters)
    &&& default_tee(config.tee)
    &&& default_telemetry(config.telemetry)
    &&& config.hooks.exclude_commands@.len() == 0
    &&& limits_by_default(config.limits)
}

/// What it is to have default settings.
pub proof fn law_default_settings(config: Config)
    ensures
        config.is_default() <==> default_settings(config),
{
    lemma_holds(
        config.filters.ignore_dirs@,
        seq![".git"@, "node_modules"@, "target"@, "__pycache__"@, ".venv"@, "vendor"@],
    );
    lemma_holds(
        config.filters.ignore_files@,
        seq!["*.lock"@, "*.min.js"@, "*.min.css"@],
    );
}

/// The default configuration has the default settings, and so has each of its parts.
pub proof fn law_defaults(
    config: Config,
    tracking: TrackingConfig,
    display: DisplayConfig,
    filters: FilterConfig,
    tee: TeeConfig,
    telemetry: TelemetryConfig,
    hooks: HooksConfig,
    limits: LimitsConfig,
)
    requires
        call_ensures(Config::default, (), config),
        call_ensures(TrackingConfig::default, (), tracking),
        call_ensures(DisplayConfig::default, (), display),
        call_ensures(FilterConfig::default, (), filters),
        call_ensures(TeeConfig::default, (), tee),
        call_ensures(TelemetryConfig::default, (), telemetry),
        call_ensures(HooksConfig::default, (), hooks),
        call_ensures(LimitsConfig::default, (), limits),
    ensures
        default_settings(config),
        default_tracking(tracking),
        default_display(display),
        default_filters(filters),
        default_tee(tee),
        default_telemetry(telemetry),
        hooks.exclude_commands@.len() == 0,
        limits_by_default(limits),
{
    law_default_settings(config);
    lemma_holds(
        filters.ignore_dirs@,
        seq![".git"@, "node_modules"@, "target"@, "__pycache__"@, ".venv"@, "vendor"@],
    );
    lemma_holds(filters.ignore_files@, seq!["*.lock"@, "*.min.js"@, "*.min.css"@]);
}

/// The default of each limit.
pub proof fn law_default_limits(a: usize, b: usize, c: usize, d: usize, e: usize)
    requires
        call_ensures(default_grep_max_results, (), a),
        call_ensures(default_grep_max_per_file, (), b),
        call_ensures(default_status_max_files, (), c),
        call_ensures(default_status_max_untracked, (), d),
        call_ensures(default_passthrough_max_chars, (), e),
    ensures
        a == 200,
        b == 25,
        c == 15,
        d == 10,
        e == 2000,
{
}

// ---------------------------------------------------------------------------
// What a configuration file gives
// ---------------------------------------------------------------------------

/// Whether a rule is what its section says: by default it keeps the first match and shows no lines.
pub open spec fn rule_follows(section: TeeIndexRuleSection, rule: TeeIndexRule) -> bool {
    &&& rule.name@ == section.name@
    &&& rule.match_pattern@ == section.match_pattern@
    &&& section.keep matches Some(keep) ==> rule.keep == keep
    &&& section.keep is None ==> rule.keep == KeepMode::First
    &&& section.show_line matches Some(show_line) ==> rule.show_line == show_line
    &&& section.show_line is None ==> !rule.show_line
}

/// Whether rules are what their sections say, one by one.
pub open spec fn rules_follow(
    sections: Seq<TeeIndexRuleSection>,
    rules: Seq<TeeIndexRule>,
) -> bool {
    &&& rules.len() == sections.len()
    &&& forall|i: int| 0 <= i < rules.len() ==> rule_follows(sections[i], #[trigger] rules[i])
}

/// Whether tee settings are what their section says, with or without index rules.
pub open spec fn tee_follows(section: TeeSection, tee: TeeConfig) -> bool {
    &&& tee.enabled == section.enabled
    &&& tee.mode == section.mode
    &&& tee.max_files == section.max_files
    &&& tee.max_file_size == section.max_file_size
    &&& tee.directory == section.directory
    &&& section.index matches Some(rules) ==> rules_follow(rules@, tee.index@)
    &&& section.index is None ==> tee.index@.len() == 0
}

/// Whether a limit is the given one, or the default where none is given.
pub open spec fn limit_follows(given: Option<usize>, default: usize, limit: usize) -> bool {
    &&& given matches Some(value) ==> limit == value
    &&& given is None ==> limit == default
}

/// Whether limits are what their section says.
pub open spec fn limits_follow(section: LimitsSection, limits: LimitsConfig) -> bool {
    &&& limits.lossless <==> section.lossless == Some(true)
    &&& limit_follows(section.grep_max_results, 200, limits.grep_max_results)
    &&& limit_follows(section.grep_max_per_file, 25, limits.grep_max_per_file)
    &&& limit_follows(section.status_max_files, 15, limits.status_max_files)
    &&& limit_follows(section.status_max_untracked, 10, limits.status_max_untracked)
    &&& limit_follows(section.passthrough_max_chars, 2000, limits.passthrough_max_chars)
}

/// Whether hook settings are what their section says.
pub open spec fn hooks_follow(section: HooksSection, hooks: HooksConfig) -> bool {
    &&& section.exclude_commands matches Some(commands) ==> hooks.exclude_commands == commands
    &&& section.exclude_commands is None ==> hooks.exclude_commands@.len() == 0
}

/// Whether a configuration is what the sections of a file say, and has the defaults for the sections
/// that are not there.
pub open spec fn config_follows(sections: ConfigSections, config: Config) -> bool {
    &&& sections.tracking matches Some(tracking) ==> config.tracking == tracking
    &&& sections.tracking is None ==> default_tracking(config.tracking)
    &&& sections.display matches Some(display) ==> config.display == display
    &&& sections.display is None ==> default_display(config.display)
    &&& sections.filters matches Some(filters) ==> config.filters == filters
    &&& sections.filters is None ==> default_filters(config.filters)
    &&& sections.tee matches Some(tee) ==> tee_follows(tee, config.tee)
    &&& sections.tee is None ==> default_tee(config.tee)
    &&& sections.telemetry matches Some(telemetry) ==> config.telemetry == telemetry
    &&& sections.telemetry is None ==> default_telemetry(config.telemetry)
    &&& sections.hooks matches Some(hooks) ==> hooks_follow(hooks, config.hooks)
    &&& sections.hooks is None ==> config.hooks.exclude_commands@.len() == 0
    &&& sections.limits matches Some(limits) ==> limits_follow(limits, config.limits)
    &&& sections.limits is None ==> limits_by_default(config.limits)
}

/// A rule is what its section says.
pub proof fn law_fill_rule(section: TeeIndexRuleSection, res: TeeIndexRule)
    requires
        call_ensures(TeeIndexRuleSection::fill, (section,), res),
    ensures
        rule_follows(section, res),
{
}

/// Rules are what their sections say, one by one.
pub proof fn law_fill_rules(sections: Vec<TeeIndexRuleSection>, res: Vec<TeeIndexRule>)
    requires
        call_ensures(fill_rules, (sections,), res),
    ensures
        rules_follow(sections@, res@),
{
    assert forall|i: int| 0 <= i < res@.len() implies rule_follows(
        sections@[i],
        #[trigger] res@[i],
    ) by {
        assert(res@[i] == sections@[i].filled());
    }
}

/// What a tee section says is kept, whether or not it has index rules.
pub proof fn law_tee_section_is_kept(section: TeeSection, config: TeeConfig)
    requires
        section.filled_as(config),
    ensures
        config.enabled == section.enabled,
        config.mode == section.mode,
        config.max_files == section.max_files,
        config.max_file_size == section.max_file_size,
        config.directory == section.directory,
        tee_follows(section, config),
{
    if let Some(rules) = section.index {
        assert forall|i: int| 0 <= i < config.index@.len() implies rule_follows(
            rules@[i],
            #[trigger] config.index@[i],
        ) by {
            assert(config.index@[i] == rules@[i].filled());
        }
    }
}

/// Tee settings are what their section says.
pub proof fn law_fill_tee(section: TeeSection, res: TeeConfig)
    requires
        call_ensures(TeeSection::fill, (section,), res),
    ensures
        tee_follows(section, res),
{
    law_tee_section_is_kept(section, res);
}

/// Limits are what their section says.
pub proof fn law_fill_limits(section: LimitsSection, res: LimitsConfig)
    requires
        call_ensures(LimitsSection::fill, (section,), res),
    ensures
        limits_follow(section, res),
{
}

/// Hook settings are what their section says.
pub proof fn law_fill_hooks(section: HooksSection, res: HooksConfig)
    requires
        call_ensures(HooksSection::fill, (section,), res),
    ensures
        hooks_follow(section, res),
{
}

proof fn lemma_config_follows(sections: ConfigSections, config: Config)
    requires
        sections.filled_as(config),
    ensures
        config_follows(sections, config),
{
    if let Some(tee) = sections.tee {
        law_tee_section_is_kept(tee, config.tee);
    }
    lemma_holds(
        config.filters.ignore_dirs@,
        seq![".git"@, "node_modules"@, "target"@, "__pycache__"@, ".venv"@, "vendor"@],
    );
    lemma_holds(
        config.filters.ignore_files@,
        seq!["*.lock"@, "*.min.js"@, "*.min.css"@],
    );
}

/// A configuration is what the sections of its file say.
pub proof fn law_fill_config(sections: ConfigSections, res: Config)
    requires
        call_ensures(ConfigSections::fill, (sections,), res),
    ensures
        config_follows(sections, res),
{
    lemma_config_follows(sections, res);
}

/// Without a file the defaults are loaded, and from a valid file what it says; a file that cannot be
/// read, or is not valid, is an error with its reason.
pub proof fn law_load(file: ConfigFile, res: Result<Config, ConfigError>)
    requires
        call_ensures(Config::load, (file,), res),
    ensures
        file is Absent ==> (res matches Ok(config) && default_settings(config)),
        file matches ConfigFile::Parsed(sections) ==> (res matches Ok(config) && config_follows(
            sections,
            config,
        )),
        file matches ConfigFile::Unreadable(why) ==> (res matches Err(ConfigError::Unreadable(said))
            && said == why),
        file matches ConfigFile::Malformed(why) ==> (res matches Err(ConfigError::Malformed(said))
            && said == why),
{
    if let Ok(config) = res {
        law_default_settings(config);
        if let ConfigFile::Parsed(sections) = file {
            lemma_config_follows(sections, config);
        }
    }
}

// ---------------------------------------------------------------------------
// What is written to a configuration file
// ---------------------------------------------------------------------------

/// Whether a section says all of a rule.
pub open spec fn says_rule(section: TeeIndexRuleSection, rule: TeeIndexRule) -> bool {
    &&& section.name@ == rule.name@
    &&& section.match_pattern@ == rule.match_pattern@
    &&& section.keep == Some(rule.keep)
    &&& section.show_line == Some(rule.show_line)
}

/// Whether sections say all of rules, one by one.
pub open spec fn say_rules(sections: Seq<TeeIndexRuleSection>, rules: Seq<TeeIndexRule>) -> bool {
    &&& sections.len() == rules.len()
    &&& forall|i: int| 0 <= i < rules.len() ==> says_rule(sections[i], #[trigger] rules[i])
}

/// Whether a section says all of the tee settings.
pub open spec fn says_tee(section: TeeSection, tee: TeeConfig) -> bool {
    &&& section.enabled == tee.enabled
    &&& section.mode == tee.mode
    &&& section.max_files == tee.max_files
    &&& section.max_file_size == tee.max_file_size
    &&& section.directory == tee.directory
    &&& section.index matches Some(rules)
    &&& say_rules(rules@, tee.index@)
}

/// Whether a section says all of the limits.
pub open spec fn says_limits(section: LimitsSection, limits: LimitsConfig) -> bool {
    &&& section.lossless == Some(limits.lossless)
    &&& section.grep_max_results == Some(limits.grep_max_results)
    &&& section.grep_max_per_file == Some(limits.grep_max_per_file)
    &&& section.status_max_files == Some(limits.status_max_files)
    &&& section.status_max_untracked == Some(limits.status_max_untracked)
    &&& section.passthrough_max_chars == Some(limits.passthrough_max_chars)
}

/// Whether sections say all of a configuration.
pub open spec fn says_config(sections: ConfigSections, config: Config) -> bool {
    &&& sections.tracking == Some(config.tracking)
    &&& sections.display == Some(config.display)
    &&& sections.filters == Some(config.filters)
    &&& sections.tee matches Some(tee)
    &&& says_tee(tee, config.tee)
    &&& sections.telemetry == Some(config.telemetry)
    &&& sections.hooks matches Some(hooks)
    &&& hooks.exclude_commands == Some(config.hooks.exclude_commands)
    &&& sections.limits matches Some(limits)
    &&& says_limits(limits, config.limits)
}

proof fn lemma_says_tee(section: TeeSection, tee: TeeConfig)
    requires
        section.says_all(tee),
    ensures
        says_tee(section, tee),
{
    let rules = section.index->0;
    assert forall|i: int| 0 <= i < tee.index@.len() implies says_rule(
        rules@[i],
        #[trigger] tee.index@[i],
    ) by {
        assert(rules@[i] == tee.index@[i].section());
    }
}

/// Sections say all of what they are made from.
pub proof fn law_into_sections(
    rule: TeeIndexRule,
    rule_section: TeeIndexRuleSection,
    rules: Vec<TeeIndexRule>,
    sections_of_rules: Vec<TeeIndexRuleSection>,
    tee: TeeConfig,
    tee_section: TeeSection,
    limits: LimitsConfig,
    limits_section: LimitsSection,
    config: Config,
    sections: ConfigSections,
)
    requires
        call_ensures(TeeIndexRule::into_section, (rule,), rule_section),
        call_ensures(rule_sections, (rules,), sections_of_rules),
        call_ensures(TeeConfig::into_section, (tee,), tee_section),
        call_ensures(LimitsConfig::into_section, (limits,), limits_section),
        call_ensures(Config::into_sections, (config,), sections),
    ensures
        says_rule(rule_section, rule),
        say_rules(sections_of_rules@, rules@),
        says_tee(tee_section, tee),
        says_limits(limits_section, limits),
        says_config(sections, config),
{
    assert forall|i: int| 0 <= i < rules@.len() implies says_rule(
        sections_of_rules@[i],
        #[trigger] rules@[i],
    ) by {
        assert(sections_of_rules@[i] == rules@[i].section());
    }
    lemma_says_tee(tee_section, tee);
    lemma_says_tee(sections.tee->0, config.tee);
}

/// Saving writes all of the configuration, to "rtk/config.toml" below some directory.
pub proof fn law_save(config: Config, res: ConfigWrite)
    requires
        call_ensures(Config::save, (config,), res),
    ensures
        says_config(res.sections, config),
        exists|base: PathBuf|
            res.path == path_joined(#[trigger] path_joined(base, "rtk"@), "config.toml"@),
{
    lemma_says_tee(res.sections.tee->0, config.tee);
    lemma_config_path(res.path);
}

proof fn lemma_config_path(path: PathBuf)
    requires
        exists|config_dir: Option<PathBuf>| path == #[trigger] config_path_in(config_dir),
    ensures
        exists|base: PathBuf|
            path == path_joined(#[trigger] path_joined(base, "rtk"@), "config.toml"@),
{
    let config_dir = choose|config_dir: Option<PathBuf>|
        path == #[trigger] config_path_in(config_dir);
    let base = match config_dir {
        Some(dir) => dir,
        None => path_of("."@),
    };
    assert(path == path_joined(path_joined(base, "rtk"@), "config.toml"@));
}

/// Creating the configuration file writes all of the defaults, to "rtk/config.toml" below some
/// directory.
pub proof fn law_create_default(res: ConfigWrite) -> (config: Config)
    requires
        call_ensures(Config::create_default, (), res),
    ensures
        default_settings(config),
        says_config(res.sections, config),
        exists|base: PathBuf|
            res.path == path_joined(#[trigger] path_joined(base, "rtk"@), "config.toml"@),
{
    let config = choose|config: Config|
        config.is_default() && #[trigger] res.sections.says_all(config);
    law_default_settings(config);
    lemma_says_tee(res.sections.tee->0, config.tee);
    lemma_config_path(res.path);
    config
}

/// Whatever configuration is saved, loading what was written gives the same settings.
pub proof fn law_saved_config_loads_back(
    config: Config,
    write: ConfigWrite,
    read: Result<Config, ConfigError>,
)
    requires
        call_ensures(Config::save, (config,), write),
        call_ensures(Config::load, (ConfigFile::Parsed(write.sections),), read),
    ensures
        read matches Ok(read) && {
            &&& read.tracking == config.tracking
            &&& read.display == config.display
            &&& read.filters == config.filters
            &&& read.tee.enabled == config.tee.enabled
            &&& read.tee.mode == config.tee.mode
            &&& read.tee.max_files == config.tee.max_files
            &&& read.tee.max_file_size == config.tee.max_file_size
            &&& read.tee.directory == config.tee.directory
            &&& read.tee.index@ == config.tee.index@
            &&& read.telemetry == config.telemetry
            &&& read.hooks == config.hooks
            &&& read.limits == config.limits
        },
{
    crate::config::law_saved_settings_are_read_back(config, write.sections, read->Ok_0);
}

// ---------------------------------------------------------------------------
// What is shown of the configuration
// ---------------------------------------------------------------------------

/// Without a file the defaults are shown as missing, and of a valid file what it says as stored; a
/// file that cannot be read, or is not valid, is an error with its reason.
pub proof fn law_config_to_show(file: ConfigFile, res: Result<ConfigToShow, ConfigError>)
    requires
        call_ensures(config_to_show, (file,), res),
    ensures
        file is Absent ==> (res matches Ok(ConfigToShow::Missing(config)) && default_settings(
            config,
        )),
        file matches ConfigFile::Parsed(sections) ==> (res matches Ok(ConfigToShow::Stored(config))
            && config_follows(sections, config)),
        file matches ConfigFile::Unreadable(why) ==> (res matches Err(ConfigError::Unreadable(said))
            && said == why),
        file matches ConfigFile::Malformed(why) ==> (res matches Err(ConfigError::Malformed(said))
            && said == why),
{
    match res {
        Ok(ConfigToShow::Missing(config)) => {
            law_default_settings(config);
        },
        Ok(ConfigToShow::Stored(config)) => {
            if let ConfigFile::Parsed(sections) = file {
                lemma_config_follows(sections, config);
            }
        },
        Err(_) => {},
    }
}

/// The report for a file, given the text of the configuration: a header with the path, then, without
/// a file, a note, and then the text, unless the file gives no configuration.
pub proof fn law_config_report(
    file: ConfigFile,
    found: Result<ConfigToShow, ConfigError>,
    path: &str,
    text: String,
    res: String,
)
    requires
        call_ensures(config_to_show, (file,), found),
        call_ensures(config_report, (path, &found, &Some(text)), res),
    ensures
        file is Absent ==> res@ == "Config: "@ + path@ + "\n\n"@
            + "(default config, file not created)\n\n"@ + text@ + "\n"@,
        file is Parsed ==> res@ == "Config: "@ + path@ + "\n\n"@ + text@ + "\n"@,
        file is Unreadable || file is Malformed ==> res@ == "Config: "@ + path@ + "\n\n"@,
{
}

/// The report for a file where there is no text of the configuration.
pub proof fn law_config_report_without_text(
    file: ConfigFile,
    found: Result<ConfigToShow, ConfigError>,
    path: &str,
    res: String,
)
    requires
        call_ensures(config_to_show, (file,), found),
        call_ensures(config_report, (path, &found, &None::<String>), res),
    ensures
        file is Absent ==> res@ == "Config: "@ + path@ + "\n\n"@
            + "(default config, file not created)\n\n"@,
        !(file is Absent) ==> res@ == "Config: "@ + path@ + "\n\n"@,
{
}

/// Showing the configuration reports on the path as it is displayed.
pub proof fn law_show_config(
    path: &PathBuf,
    shown: &str,
    found: Result<ConfigToShow, ConfigError>,
    text: Option<String>,
    report: String,
    res: String,
)
    requires
        call_ensures(show_config, (path, &found, &text), res),
        shown@ == path_display(*path),
        call_ensures(config_report, (shown, &found, &text), report),
    ensures
        res@ == report@,
{
}

} // verus!
