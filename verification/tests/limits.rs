use rtk_core::config::{Config, ConfigError, LimitsConfig};
use rtk_core::limits::{
    cached_config, enable_lossless_for_process, limits, lossless, lossless_cap, passthrough_limit,
    ProcessConfig,
};

fn lossless_config() -> Config {
    Config {
        limits: LimitsConfig {
            lossless: true,
            passthrough_max_chars: 7,
            ..LimitsConfig::default()
        },
        ..Config::default()
    }
}

fn failed() -> Result<Config, ConfigError> {
    Err(ConfigError::Malformed("bad".to_string()))
}

fn never() -> Result<Config, ConfigError> {
    panic!("the configuration is loaded a second time")
}

#[test]
fn config_is_loaded_once() {
    let mut process = ProcessConfig::new();
    assert!(cached_config(&mut process, || Ok(lossless_config())).limits.lossless);
    assert!(cached_config(&mut process, never).limits.lossless);
    assert_eq!(limits(&mut process, never).passthrough_max_chars, 7);
}

#[test]
fn failed_load_falls_back_to_defaults() {
    let mut process = ProcessConfig::new();
    assert_eq!(*limits(&mut process, failed), LimitsConfig::default());
    assert_eq!(*limits(&mut process, never), LimitsConfig::default());
}

#[test]
fn lossless_follows_the_config() {
    let mut process = ProcessConfig::new();
    assert!(lossless(&mut process, || Ok(lossless_config())));
    let mut process = ProcessConfig::new();
    assert!(!lossless(&mut process, || Ok(Config::default())));
}

#[test]
fn command_line_takes_priority_and_loads_nothing() {
    let mut process = ProcessConfig::new();
    enable_lossless_for_process(&mut process);
    assert!(lossless(&mut process, never));
    assert_eq!(lossless_cap(&mut process, never, 10), usize::MAX);
    assert!(!limits(&mut process, || Ok(Config::default())).lossless);
    assert!(lossless(&mut process, never));
}

#[test]
fn enabling_has_no_effect_after_the_first_question() {
    let mut process = ProcessConfig::new();
    assert!(!lossless(&mut process, || Ok(Config::default())));
    enable_lossless_for_process(&mut process);
    assert!(!lossless(&mut process, never));
    assert_eq!(lossless_cap(&mut process, never, 10), 10);
}

#[test]
fn enabling_has_an_effect_after_the_limits_were_read() {
    let mut process = ProcessConfig::new();
    assert!(!limits(&mut process, || Ok(Config::default())).lossless);
    enable_lossless_for_process(&mut process);
    assert!(lossless(&mut process, never));
}

#[test]
fn caps_are_lifted_in_lossless_mode_only() {
    let mut process = ProcessConfig::new();
    assert_eq!(lossless_cap(&mut process, || Ok(lossless_config()), 10), usize::MAX);
    let mut process = ProcessConfig::new();
    assert_eq!(lossless_cap(&mut process, failed, 10), 10);
}

#[test]
fn passthrough_limit_in_force() {
    let mut process = ProcessConfig::new();
    assert_eq!(passthrough_limit(&mut process, failed), 2000);
    let mut process = ProcessConfig::new();
    assert_eq!(
        passthrough_limit(&mut process, || Ok(lossless_config())),
        usize::MAX
    );
    let mut process = ProcessConfig::new();
    enable_lossless_for_process(&mut process);
    assert_eq!(passthrough_limit(&mut process, failed), usize::MAX);
    assert_eq!(limits(&mut process, never).passthrough_max_chars, 2000);
}

#[test]
fn passthrough_limit_settles_lossless_mode() {
    let mut process = ProcessConfig::new();
    assert_eq!(passthrough_limit(&mut process, failed), 2000);
    enable_lossless_for_process(&mut process);
    assert_eq!(passthrough_limit(&mut process, never), 2000);
}
