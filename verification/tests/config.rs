use rtk_core::config::{
    config_report, config_to_show, default_grep_max_per_file, default_grep_max_results,
    default_passthrough_max_chars, default_status_max_files, default_status_max_untracked,
    show_config, Config, ConfigError, ConfigFile, ConfigSections, ConfigToShow, DisplayConfig, FilterConfig,
    HooksSection, LimitsConfig, LimitsSection, TelemetryConfig, TrackingConfig,
};
use rtk_core::index_rule::{KeepMode, TeeIndexRule};
use rtk_core::limits::compute_passthrough_limit;
use std::path::PathBuf;
use toml::{Table, Value};

fn text(table: &Table, key: &str) -> Option<String> {
    table.get(key).and_then(Value::as_str).map(str::to_string)
}

fn flag(table: &Table, key: &str) -> Option<bool> {
    table.get(key).and_then(Value::as_bool)
}

fn number(table: &Table, key: &str) -> Option<usize> {
    table.get(key).and_then(Value::as_integer).map(|n| n as usize)
}

fn list(table: &Table, key: &str) -> Option<Vec<String>> {
    table.get(key).and_then(Value::as_array).map(|items| {
        items
            .iter()
            .map(|item| item.as_str().expect("a string").to_string())
            .collect()
    })
}

/// The sections of a configuration text.
fn sections(source: &str) -> ConfigSections {
    let root: Table = toml::from_str(source).expect("valid toml");
    let section = |key: &str| root.get(key).and_then(Value::as_table);
    ConfigSections {
        tracking: section("tracking").map(|t| TrackingConfig {
            enabled: flag(t, "enabled").expect("enabled"),
            history_days: number(t, "history_days").expect("history_days") as u32,
            database_path: text(t, "database_path").map(PathBuf::from),
        }),
        display: section("display").map(|t| DisplayConfig {
            colors: flag(t, "colors").expect("colors"),
            emoji: flag(t, "emoji").expect("emoji"),
            max_width: number(t, "max_width").expect("max_width"),
        }),
        filters: section("filters").map(|t| FilterConfig {
            ignore_dirs: list(t, "ignore_dirs").expect("ignore_dirs"),
            ignore_files: list(t, "ignore_files").expect("ignore_files"),
        }),
        tee: None,
        telemetry: section("telemetry").map(|t| TelemetryConfig {
            enabled: flag(t, "enabled").expect("enabled"),
            consent_given: flag(t, "consent_given"),
            consent_date: text(t, "consent_date"),
        }),
        hooks: section("hooks").map(|t| HooksSection {
            exclude_commands: list(t, "exclude_commands"),
        }),
        limits: section("limits").map(|t| LimitsSection {
            lossless: flag(t, "lossless"),
            grep_max_results: number(t, "grep_max_results"),
            grep_max_per_file: number(t, "grep_max_per_file"),
            status_max_files: number(t, "status_max_files"),
            status_max_untracked: number(t, "status_max_untracked"),
            passthrough_max_chars: number(t, "passthrough_max_chars"),
        }),
    }
}

fn parse(source: &str) -> Config {
    Config::load(ConfigFile::Parsed(sections(source))).expect("valid config")
}

#[test]
fn test_hooks_config_deserialize() {
    let toml = r#"
[hooks]
exclude_commands = ["curl", "gh"]
"#;
    let config = parse(toml);
    assert_eq!(config.hooks.exclude_commands, vec!["curl", "gh"]);
}

#[test]
fn test_hooks_config_default_empty() {
    let config = Config::default();
    assert!(config.hooks.exclude_commands.is_empty());
}

#[test]
fn test_config_without_hooks_section_is_valid() {
    let toml = r#"
[tracking]
enabled = true
history_days = 90
"#;
    let config = parse(toml);
    assert!(config.hooks.exclude_commands.is_empty());
}

#[test]
fn test_old_toml_without_consent_fields() {
    let toml = r#"
[telemetry]
enabled = true
"#;
    let config = parse(toml);
    assert!(config.telemetry.enabled);
    assert!(config.telemetry.consent_given.is_none());
    assert!(config.telemetry.consent_date.is_none());
}

#[test]
fn test_telemetry_default_disabled() {
    let config = Config::default();
    assert!(!config.telemetry.enabled);
    assert!(config.telemetry.consent_given.is_none());
}

#[test]
fn test_lossless_default() {
    let config = Config::default();
    assert!(!config.limits.lossless);
}

#[test]
fn test_lossless_deserialize_true() {
    let toml = r#"
[limits]
lossless = true
"#;
    let config = parse(toml);
    assert!(config.limits.lossless);
}

#[test]
fn test_lossless_deserialize_false() {
    let toml = r#"
[limits]
lossless = false
"#;
    let config = parse(toml);
    assert!(!config.limits.lossless);
}

#[test]
fn test_config_without_limits_section_defaults_lossless() {
    let toml = r#"
[tracking]
enabled = true
history_days = 90
"#;
    let config = parse(toml);
    assert!(!config.limits.lossless);
}

#[test]
fn test_old_config_with_safety_section_still_parses() {
    // Backward compat: configs from before the [safety] -> [limits] move
    // should deserialize without error (unknown sections are ignored).
    let toml = r#"
[safety]
no_truncation = true

[limits]
grep_max_results = 200
"#;
    let config = parse(toml);
    // The old [safety] section is silently ignored; lossless defaults to false
    assert!(!config.limits.lossless);
    assert_eq!(config.limits.grep_max_results, 200);
}

#[test]
fn test_passthrough_limit_default() {
    let limits = LimitsConfig::default();
    assert_eq!(
        compute_passthrough_limit(false, limits.passthrough_max_chars),
        2000
    );
}

#[test]
fn test_passthrough_limit_lossless() {
    assert_eq!(
        compute_passthrough_limit(true, LimitsConfig::default().passthrough_max_chars),
        usize::MAX
    );
}

#[test]
fn test_limits_config_partial_eq() {
    let a = LimitsConfig::default();
    let b = LimitsConfig::default();
    assert_eq!(a, b);

    let c = LimitsConfig {
        grep_max_results: 999,
        ..LimitsConfig::default()
    };
    assert_ne!(a, c);
}

#[test]
fn test_telemetry_consent_roundtrip() {
    let toml = r#"
[telemetry]
enabled = true
consent_given = true
consent_date = "2026-04-10T12:00:00Z"
"#;
    let config = parse(toml);
    assert_eq!(config.telemetry.consent_given, Some(true));
    assert_eq!(
        config.telemetry.consent_date.as_deref(),
        Some("2026-04-10T12:00:00Z")
    );
}

#[test]
fn defaults_of_every_section() {
    let config = Config::default();
    assert!(config.tracking.enabled);
    assert_eq!(config.tracking.history_days, 90);
    assert_eq!(config.tracking.database_path, None);
    assert!(config.display.colors);
    assert!(config.display.emoji);
    assert_eq!(config.display.max_width, 120);
    assert_eq!(
        config.filters.ignore_dirs,
        vec![".git", "node_modules", "target", "__pycache__", ".venv", "vendor"]
    );
    assert_eq!(
        config.filters.ignore_files,
        vec!["*.lock", "*.min.js", "*.min.css"]
    );
    assert_eq!(config.limits.grep_max_results, 200);
    assert_eq!(config.limits.grep_max_per_file, 25);
    assert_eq!(config.limits.status_max_files, 15);
    assert_eq!(config.limits.status_max_untracked, 10);
    assert_eq!(config.limits.passthrough_max_chars, 2000);
    assert_eq!(config.limits.grep_max_results, default_grep_max_results());
    assert_eq!(config.limits.grep_max_per_file, default_grep_max_per_file());
    assert_eq!(config.limits.status_max_files, default_status_max_files());
    assert_eq!(
        config.limits.status_max_untracked,
        default_status_max_untracked()
    );
    assert_eq!(
        config.limits.passthrough_max_chars,
        default_passthrough_max_chars()
    );
}

#[test]
fn empty_file_gives_defaults() {
    let config = parse("");
    assert_eq!(config.limits, LimitsConfig::default());
    assert_eq!(config.display.max_width, 120);
    assert!(config.tee.enabled);
    assert_eq!(config.filters.ignore_dirs.len(), 6);
}

#[test]
fn empty_sections_give_defaults() {
    let config = parse("[limits]\n[hooks]\n");
    assert_eq!(config.limits, LimitsConfig::default());
    assert!(config.hooks.exclude_commands.is_empty());
}

#[test]
fn given_limits_are_kept_and_others_filled_in() {
    let config = parse("[limits]\nstatus_max_files = 3\npassthrough_max_chars = 7\n");
    assert_eq!(
        config.limits,
        LimitsConfig {
            status_max_files: 3,
            passthrough_max_chars: 7,
            ..LimitsConfig::default()
        }
    );
}

#[test]
fn given_sections_are_kept() {
    let config = parse(
        "[display]\ncolors = false\nemoji = true\nmax_width = 80\n\
         [filters]\nignore_dirs = [\"out\"]\nignore_files = []\n\
         [tracking]\nenabled = false\nhistory_days = 7\ndatabase_path = \"/tmp/db\"\n",
    );
    assert!(!config.display.colors);
    assert_eq!(config.display.max_width, 80);
    assert_eq!(config.filters.ignore_dirs, vec!["out"]);
    assert!(config.filters.ignore_files.is_empty());
    assert!(!config.tracking.enabled);
    assert_eq!(config.tracking.history_days, 7);
    assert_eq!(config.tracking.database_path, Some(PathBuf::from("/tmp/db")));
}

#[test]
fn missing_file_gives_defaults() {
    let config = Config::load(ConfigFile::Absent).expect("defaults");
    assert_eq!(config.limits, LimitsConfig::default());
    assert!(!config.telemetry.enabled);
}

#[test]
fn unreadable_file_is_an_error() {
    match Config::load(ConfigFile::Unreadable("no permission".to_string())) {
        Err(ConfigError::Unreadable(why)) => assert_eq!(why, "no permission"),
        other => panic!("unexpected: {:?}", other),
    }
}

#[test]
fn malformed_file_is_an_error() {
    match Config::load(ConfigFile::Malformed("line 1".to_string())) {
        Err(ConfigError::Malformed(why)) => assert_eq!(why, "line 1"),
        other => panic!("unexpected: {:?}", other),
    }
}

#[test]
fn created_config_is_the_default_below_the_program_directory() {
    let write = Config::create_default();
    assert_eq!(write.sections.tracking.as_ref().unwrap().history_days, 90);
    assert_eq!(
        write.sections.limits.as_ref().unwrap().passthrough_max_chars,
        Some(2000)
    );
    assert_eq!(
        write.sections.hooks.as_ref().unwrap().exclude_commands,
        Some(Vec::new())
    );
    assert_eq!(write.sections.fill().limits, LimitsConfig::default());
    assert!(write.path.ends_with("rtk/config.toml"));
}

#[test]
fn saved_config_keeps_its_settings() {
    let mut config = Config::default();
    config.display.max_width = 99;
    config.limits.grep_max_results = 3;
    config.limits.lossless = true;
    config.hooks.exclude_commands = vec!["curl".to_string()];
    config.telemetry.consent_given = Some(false);
    config.tracking.database_path = Some(PathBuf::from("/db"));
    config.filters.ignore_dirs = vec!["out".to_string()];
    config.tee.max_files = 7;
    config.tee.index = vec![TeeIndexRule {
        name: "err".to_string(),
        match_pattern: "^E".to_string(),
        keep: KeepMode::Last,
        show_line: true,
    }];
    let limits = config.limits;
    let write = config.save();
    assert!(write.path.ends_with("rtk/config.toml"));

    let read = Config::load(ConfigFile::Parsed(write.sections)).unwrap();
    assert_eq!(read.display.max_width, 99);
    assert_eq!(read.limits, limits);
    assert_eq!(read.hooks.exclude_commands, vec!["curl"]);
    assert_eq!(read.telemetry.consent_given, Some(false));
    assert_eq!(read.tracking.database_path, Some(PathBuf::from("/db")));
    assert_eq!(read.filters.ignore_dirs, vec!["out"]);
    assert_eq!(read.tee.max_files, 7);
    assert_eq!(read.tee.index.len(), 1);
    assert_eq!(read.tee.index[0].match_pattern, "^E");
    assert_eq!(read.tee.index[0].keep, KeepMode::Last);
    assert!(read.tee.index[0].show_line);
}

/// A configuration file that sets the number of grep results.
fn stored() -> ConfigFile {
    ConfigFile::Parsed(sections("[limits]\ngrep_max_results = 3\n"))
}

#[test]
fn shown_config_follows_the_file() {
    match config_to_show(ConfigFile::Absent) {
        Ok(ConfigToShow::Missing(config)) => assert_eq!(config.limits, LimitsConfig::default()),
        other => panic!("unexpected: {:?}", other),
    }
    match config_to_show(stored()) {
        Ok(ConfigToShow::Stored(config)) => assert_eq!(config.limits.grep_max_results, 3),
        other => panic!("unexpected: {:?}", other),
    }
    match config_to_show(ConfigFile::Unreadable("denied".to_string())) {
        Err(ConfigError::Unreadable(why)) => assert_eq!(why, "denied"),
        other => panic!("unexpected: {:?}", other),
    }
    match config_to_show(ConfigFile::Malformed("line 3".to_string())) {
        Err(ConfigError::Malformed(why)) => assert_eq!(why, "line 3"),
        other => panic!("unexpected: {:?}", other),
    }
}

#[test]
fn report_of_a_stored_config() {
    let found = config_to_show(stored());
    assert_eq!(
        config_report("/c.toml", &found, &Some("a = 1\n".to_string())),
        "Config: /c.toml\n\na = 1\n\n"
    );
    assert_eq!(config_report("/c.toml", &found, &None), "Config: /c.toml\n\n");
}

#[test]
fn report_of_a_missing_config() {
    let path = PathBuf::from("/c.toml");
    let found = config_to_show(ConfigFile::Absent);
    assert_eq!(
        show_config(&path, &found, &Some("a = 1\n".to_string())),
        "Config: /c.toml\n\n(default config, file not created)\n\na = 1\n\n"
    );
    assert_eq!(
        show_config(&path, &found, &None),
        "Config: /c.toml\n\n(default config, file not created)\n\n"
    );
}

#[test]
fn report_of_a_failed_config_is_its_header() {
    let path = PathBuf::from("/c.toml");
    let found = config_to_show(ConfigFile::Malformed("line 3".to_string()));
    assert_eq!(show_config(&path, &found, &None), "Config: /c.toml\n\n");
    assert_eq!(
        show_config(&path, &found, &Some("a = 1\n".to_string())),
        "Config: /c.toml\n\n"
    );
}

#[test]
fn sections_do_not_affect_each_other() {
    let alone = parse("[limits]\ngrep_max_results = 3\n");
    let together = parse(
        "[limits]\ngrep_max_results = 3\n\n[hooks]\nexclude_commands = [\"gh\"]\n\n[display]\ncolors = false\nemoji = false\nmax_width = 80\n",
    );
    assert_eq!(alone.limits, together.limits);
    assert_eq!(together.hooks.exclude_commands, vec!["gh"]);
    assert_eq!(alone.tracking.history_days, together.tracking.history_days);
    assert_eq!(alone.filters.ignore_dirs, together.filters.ignore_dirs);
}
