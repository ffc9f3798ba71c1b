use regex::Regex;
use rtk_core::config::{Config, ConfigError};
use rtk_core::hint::{
    format_hint, format_hint_at, render_hint, tee_and_hint, TeeHintContext,
};
use rtk_core::index::CompiledTeeIndexRule;
use rtk_core::index_rule::KeepMode;
use rtk_core::paths::{choose_tee_dir, config_path, home_shorthand, show_path};
use rtk_core::tee::{get_tee_dir, run_settings, sanitize_slug, should_tee, tee_file_name};
use rtk_core::tee_config::{TeeConfig, TeeMode};
use std::path::PathBuf;

#[test]
fn test_sanitize_slug() {
    assert_eq!(sanitize_slug("cargo_test"), "cargo_test");
    assert_eq!(sanitize_slug("cargo test"), "cargo_test");
    assert_eq!(sanitize_slug("cargo-test"), "cargo-test");
    assert_eq!(sanitize_slug("go/test/./pkg"), "go_test___pkg");
    // Truncate at 40
    let long = "a".repeat(50);
    assert_eq!(sanitize_slug(&long).len(), 40);
}

#[test]
fn test_should_tee_disabled() {
    let config = TeeConfig {
        enabled: false,
        ..TeeConfig::default()
    };
    let dir = PathBuf::from("/tmp/tee");
    assert!(should_tee(&config, 1000, 1, Some(dir)).is_none());
}

#[test]
fn test_should_tee_never_mode() {
    let config = TeeConfig {
        mode: TeeMode::Never,
        ..TeeConfig::default()
    };
    let dir = PathBuf::from("/tmp/tee");
    assert!(should_tee(&config, 1000, 1, Some(dir)).is_none());
}

#[test]
fn test_should_tee_skip_small_output() {
    let config = TeeConfig::default();
    let dir = PathBuf::from("/tmp/tee");
    // Below MIN_TEE_SIZE (500)
    assert!(should_tee(&config, 100, 1, Some(dir)).is_none());
}

#[test]
fn test_should_tee_skip_success_in_failures_mode() {
    let config = TeeConfig::default(); // mode = Failures
    let dir = PathBuf::from("/tmp/tee");
    assert!(should_tee(&config, 1000, 0, Some(dir)).is_none());
}

#[test]
fn test_should_tee_proceed_on_failure() {
    let config = TeeConfig::default(); // mode = Failures
    let dir = PathBuf::from("/tmp/tee");
    assert!(should_tee(&config, 1000, 1, Some(dir)).is_some());
}

#[test]
fn test_should_tee_always_mode_success() {
    let config = TeeConfig {
        mode: TeeMode::Always,
        ..TeeConfig::default()
    };
    let dir = PathBuf::from("/tmp/tee");
    assert!(should_tee(&config, 1000, 0, Some(dir)).is_some());
}

#[test]
fn test_format_hint() {
    let path = PathBuf::from("/tmp/rtk/tee/123_cargo_test.log");
    let hint = format_hint(&path, "", None);
    assert!(hint.starts_with("[full output: "));
    assert!(hint.ends_with(']'));
    assert!(hint.contains("123_cargo_test.log"));
}

#[test]
fn should_tee_gives_the_directory_back() {
    let dir = PathBuf::from("/tmp/tee");
    let config = TeeConfig::default();
    assert_eq!(should_tee(&config, 500, -1, Some(dir.clone())), Some(dir.clone()));
    assert_eq!(should_tee(&config, 499, -1, Some(dir)), None);
    assert_eq!(should_tee(&config, 500, -1, None), None);
}

#[test]
fn slugs_are_ascii_and_short() {
    assert_eq!(sanitize_slug("é→ß"), "___");
    assert_eq!(sanitize_slug(""), "");
    assert_eq!(sanitize_slug(&"é".repeat(50)), "_".repeat(40));
    let once = sanitize_slug("npm run build:prod && echo 'done' > /dev/null 2>&1");
    assert_eq!(sanitize_slug(&once), once);
}

#[test]
fn file_names() {
    assert_eq!(
        tee_file_name(1713200000, "cargo test"),
        "1713200000_cargo_test.log"
    );
    assert_eq!(tee_file_name(0, ""), "0_.log");
    assert_eq!(
        tee_file_name(u64::MAX, "x"),
        "18446744073709551615_x.log"
    );
}

#[test]
fn tee_dir_of_the_environment_comes_first() {
    let mut config = Config::default();
    config.tee.directory = Some(PathBuf::from("/configured"));
    assert_eq!(
        get_tee_dir(&config, Some("/env".to_string())),
        Some(PathBuf::from("/env"))
    );
    assert_eq!(
        get_tee_dir(&config, None),
        Some(PathBuf::from("/configured"))
    );
}

#[test]
fn tee_dir_by_default() {
    if let Some(dir) = get_tee_dir(&Config::default(), None) {
        assert!(dir.ends_with("rtk/tee"));
    }
    assert_eq!(
        choose_tee_dir(None, &None, Some(PathBuf::from("/data"))),
        Some(PathBuf::from("/data/rtk/tee"))
    );
    assert_eq!(choose_tee_dir(None, &None, None), None);
}

#[test]
fn config_paths() {
    assert_eq!(
        config_path(Some(PathBuf::from("/home/me/.config"))),
        PathBuf::from("/home/me/.config/rtk/config.toml")
    );
    assert_eq!(config_path(None), PathBuf::from("./rtk/config.toml"));
}

#[test]
fn paths_below_home_are_shortened() {
    let home = Some(PathBuf::from("/home/me"));
    assert_eq!(
        show_path(&PathBuf::from("/home/me/tee/1_x.log"), &home),
        "~/tee/1_x.log"
    );
    assert_eq!(
        show_path(&PathBuf::from("/home/meg/1_x.log"), &home),
        "/home/meg/1_x.log"
    );
    assert_eq!(show_path(&PathBuf::from("/tmp/1_x.log"), &None), "/tmp/1_x.log");
    assert_eq!(
        home_shorthand("/full".to_string(), Some("rest".to_string())),
        "~/rest"
    );
    assert_eq!(home_shorthand("/full".to_string(), None), "/full");
}

#[test]
fn hints_with_and_without_a_block() {
    assert_eq!(render_hint("~/x.log", ""), "[full output: ~/x.log]");
    assert_eq!(
        render_hint("~/x.log", "  a → L1"),
        "[full output: ~/x.log]\n  a → L1"
    );
}

fn error_rule() -> CompiledTeeIndexRule {
    CompiledTeeIndexRule {
        name: "first_error".to_string(),
        pattern: Regex::new("FAIL").unwrap(),
        keep: KeepMode::First,
        show_line: true,
    }
}

#[test]
fn hint_with_an_index() {
    let rules = vec![error_rule()];
    let ctx = TeeHintContext {
        index_rules: &rules,
        truncation_line: Some(89),
    };
    let hint = format_hint_at(
        &PathBuf::from("/home/me/1_x.log"),
        &Some(PathBuf::from("/home/me")),
        "ok\nFAIL: TestFoo (timeout)\n",
        Some(&ctx),
    );
    assert_eq!(
        hint,
        "[full output: ~/1_x.log]\n  first_error → L2: \"FAIL: TestFoo (timeout)\"\n  truncated → \
         output truncated after L89; full results from L89 in tee file"
    );
}

#[test]
fn hint_is_unchanged_where_nothing_is_to_be_shown() {
    let path = PathBuf::from("/tmp/1_x.log");
    let none = TeeHintContext {
        index_rules: &[],
        truncation_line: None,
    };
    assert_eq!(
        format_hint_at(&path, &None, "FAIL", Some(&none)),
        "[full output: /tmp/1_x.log]"
    );
    let rules = vec![error_rule()];
    let silent = TeeHintContext {
        index_rules: &rules,
        truncation_line: None,
    };
    assert_eq!(
        format_hint_at(&path, &None, "all good", Some(&silent)),
        format_hint_at(&path, &None, "all good", None)
    );
}

#[test]
fn hint_follows_the_saving() {
    assert_eq!(tee_and_hint(None, "raw", None), None);
    let hint = tee_and_hint(Some(PathBuf::from("/nowhere/1_x.log")), "raw", None).unwrap();
    assert!(hint.ends_with("1_x.log]"));
}

#[test]
fn settings_of_a_run() {
    let mut config = Config::default();
    config.tee.max_files = 3;
    config.tee.directory = Some(PathBuf::from("/configured"));
    let (tee, dir) = run_settings(Ok(config), None).unwrap();
    assert_eq!(tee.max_files, 3);
    assert_eq!(dir, Some(PathBuf::from("/configured")));

    let mut config = Config::default();
    config.tee.directory = Some(PathBuf::from("/configured"));
    let (_, dir) = run_settings(Ok(config), Some("/env".to_string())).unwrap();
    assert_eq!(dir, Some(PathBuf::from("/env")));

    let failed = Err(ConfigError::Malformed("line 3".to_string()));
    assert!(run_settings(failed, Some("/env".to_string())).is_none());
}
