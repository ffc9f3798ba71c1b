use rtk_core::index_rule::{KeepMode, TeeIndexRule, TeeIndexRuleSection};
use rtk_core::tee_config::{TeeConfig, TeeMode, TeeSection};
use std::path::PathBuf;
use toml::{Table, Value};

fn text(table: &Table, key: &str) -> Option<String> {
    table.get(key).and_then(Value::as_str).map(str::to_string)
}

fn flag(table: &Table, key: &str) -> Option<bool> {
    table.get(key).and_then(Value::as_bool)
}

fn number(table: &Table, key: &str) -> usize {
    table
        .get(key)
        .and_then(Value::as_integer)
        .expect("an integer") as usize
}

fn rule_section(table: &Table) -> TeeIndexRuleSection {
    TeeIndexRuleSection {
        name: text(table, "name").expect("name"),
        match_pattern: text(table, "match").expect("match"),
        keep: text(table, "keep").map(|name| KeepMode::from_name(&name).expect("a keep mode")),
        show_line: flag(table, "show_line"),
    }
}

fn parse_rule(source: &str) -> TeeIndexRule {
    let table: Table = toml::from_str(source).unwrap();
    rule_section(&table).fill()
}

fn parse(source: &str) -> TeeConfig {
    let table: Table = toml::from_str(source).unwrap();
    let section = TeeSection {
        enabled: flag(&table, "enabled").expect("enabled"),
        mode: TeeMode::from_name(&text(&table, "mode").expect("mode")).expect("a tee mode"),
        max_files: number(&table, "max_files"),
        max_file_size: number(&table, "max_file_size"),
        directory: text(&table, "directory").map(PathBuf::from),
        index: table.get("index").and_then(Value::as_array).map(|rules| {
            rules
                .iter()
                .map(|rule| rule_section(rule.as_table().expect("a table")))
                .collect()
        }),
    };
    section.fill()
}

fn serialize(config: &TeeConfig) -> String {
    let section = config.clone().into_section();
    let mut table = Table::new();
    table.insert("enabled".to_string(), Value::Boolean(section.enabled));
    table.insert(
        "mode".to_string(),
        Value::String(section.mode.as_name().to_string()),
    );
    table.insert(
        "max_files".to_string(),
        Value::Integer(section.max_files as i64),
    );
    table.insert(
        "max_file_size".to_string(),
        Value::Integer(section.max_file_size as i64),
    );
    if let Some(directory) = section.directory {
        let directory = directory.to_str().unwrap().to_string();
        table.insert("directory".to_string(), Value::String(directory));
    }
    toml::to_string_pretty(&table).unwrap()
}

#[test]
fn test_tee_config_default() {
    let config = TeeConfig::default();
    assert!(config.enabled);
    assert_eq!(config.mode, TeeMode::Failures);
    assert_eq!(config.max_files, 20);
    assert_eq!(config.max_file_size, 1_048_576);
    assert!(config.directory.is_none());
}

#[test]
fn test_tee_config_deserialize() {
    let toml_str = r#"
enabled = true
mode = "always"
max_files = 10
max_file_size = 524288
directory = "/tmp/rtk-tee"
"#;
    let config = parse(toml_str);
    assert!(config.enabled);
    assert_eq!(config.mode, TeeMode::Always);
    assert_eq!(config.max_files, 10);
    assert_eq!(config.max_file_size, 524288);
    assert_eq!(config.directory, Some(PathBuf::from("/tmp/rtk-tee")));

    // Round-trip
    let serialized = serialize(&config);
    let deserialized = parse(&serialized);
    assert_eq!(deserialized.mode, TeeMode::Always);
    assert_eq!(deserialized.max_files, 10);
    assert_eq!(deserialized.directory, Some(PathBuf::from("/tmp/rtk-tee")));
}

#[test]
fn test_tee_mode_serde() {
    // Test all modes via JSON
    let name: String = serde_json::from_str(r#""always""#).unwrap();
    assert_eq!(TeeMode::from_name(&name).unwrap(), TeeMode::Always);

    let name: String = serde_json::from_str(r#""failures""#).unwrap();
    assert_eq!(TeeMode::from_name(&name).unwrap(), TeeMode::Failures);

    let name: String = serde_json::from_str(r#""never""#).unwrap();
    assert_eq!(TeeMode::from_name(&name).unwrap(), TeeMode::Never);
}

#[test]
fn test_keep_mode_default_is_first() {
    let mode = KeepMode::default();
    assert_eq!(mode, KeepMode::First);
}

#[test]
fn test_tee_index_rule_deserialize() {
    let toml_str = r#"
name = "first_error"
match = "error|^FAIL|^fatal"
keep = "first"
show_line = true
"#;
    let rule = parse_rule(toml_str);
    assert_eq!(rule.name, "first_error");
    assert_eq!(rule.match_pattern, "error|^FAIL|^fatal");
    assert_eq!(rule.keep, KeepMode::First);
    assert!(rule.show_line);
}

#[test]
fn test_tee_index_rule_defaults() {
    let toml_str = r#"
name = "summary"
match = "^test result"
"#;
    let rule = parse_rule(toml_str);
    assert_eq!(rule.keep, KeepMode::First);
    assert!(!rule.show_line);
}

#[test]
fn test_tee_config_with_index_rules() {
    let toml_str = r#"
enabled = true
mode = "always"
max_files = 20
max_file_size = 1048576

[[index]]
name = "first_error"
match = "error|^FAIL"
keep = "first"
show_line = true

[[index]]
name = "test_summary"
match = "^(ok|FAIL|---)"
keep = "all"
show_line = true
"#;
    let config = parse(toml_str);
    assert_eq!(config.index.len(), 2);
    assert_eq!(config.index[0].name, "first_error");
    assert_eq!(config.index[1].keep, KeepMode::All);
}

#[test]
fn test_tee_config_without_index_backward_compat() {
    let toml_str = r#"
enabled = true
mode = "failures"
max_files = 20
max_file_size = 1048576
"#;
    let config = parse(toml_str);
    assert!(config.index.is_empty());
}

#[test]
fn default_tee_mode_is_failures() {
    assert_eq!(TeeMode::default(), TeeMode::Failures);
}

#[test]
fn mode_names_read_back() {
    for mode in [TeeMode::Failures, TeeMode::Always, TeeMode::Never] {
        assert_eq!(TeeMode::from_name(mode.as_name()), Some(mode));
    }
    for keep in [KeepMode::First, KeepMode::Last, KeepMode::All] {
        assert_eq!(KeepMode::from_name(keep.as_name()), Some(keep));
    }
    assert_eq!(KeepMode::Last.as_name(), "last");
    assert_eq!(TeeMode::Never.as_name(), "never");
}

#[test]
fn unknown_mode_names_are_refused() {
    assert_eq!(TeeMode::from_name("Always"), None);
    assert_eq!(TeeMode::from_name(""), None);
    assert_eq!(KeepMode::from_name("none"), None);
}
