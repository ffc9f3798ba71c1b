//! Output limits in force in a process, and the lossless mode that lifts them.
//!
//! [`ProcessConfig`] is the state that a process keeps about its settings: the configuration,
//! which is loaded at most once, and the command line's choice of lossless mode, which takes
//! priority over the configuration and is settled by the first question about it.
use crate::config::{Config, ConfigError, LimitsConfig};
use vstd::prelude::*;

verus! {

/// The settings that a process has read or been given so far.
#[derive(Debug)]
pub struct ProcessConfig {
    cached: Option<Config>,
    lossless_override: bool,
    lossless_asked: bool,
}

impl ProcessConfig {
    /// The cached configuration, if it has been loaded.
    pub closed spec fn config(self) -> Option<Config> {
        self.cached
    }

    /// Whether lossless mode was enabled for the process.
    pub closed spec fn overridden(self) -> bool {
        self.lossless_override
    }

    /// Whether the process has asked for lossless mode yet.
    pub closed spec fn asked(self) -> bool {
        self.lossless_asked
    }

    /// Whether lossless mode is on, as far as that is known without loading the configuration.
    pub open spec fn lossless(self) -> Option<bool> {
        if self.overridden() {
            Some(true)
        } else {
            match self.config() {
                Some(config) => Some(config.limits.lossless),
                None => None,
            }
        }
    }

    /// The state of a process that has read nothing yet.
    pub fn new() -> (res: ProcessConfig)
        ensures
            res.config() is None,
            !res.overridden(),
            !res.asked(),
    {
        ProcessConfig { cached: None, lossless_override: false, lossless_asked: false }
    }

    /// Whether the state `after` can follow this one: a loaded configuration stays, an override
    /// stays, and none is added once lossless mode has been asked for.
    pub open spec fn may_become(self, after: ProcessConfig) -> bool {
        &&& self.config() is Some ==> after.config() == self.config()
        &&& self.overridden() ==> after.overridden()
        &&& self.asked() ==> after.asked()
        &&& self.asked() ==> after.overridden() == self.overridden()
    }
}

/// Whether `config` is what a process uses when loading its configuration gave `loaded`: the
/// loaded one, or the defaults where loading failed.
pub open spec fn loaded_or_default(loaded: Result<Config, ConfigError>, config: Config) -> bool {
    match loaded {
        Ok(loaded) => config == loaded,
        Err(_) => config.is_default(),
    }
}

/// Whether the configuration of `after` is that of `before`, or, where `before` has none, what
/// `load` gave.
pub open spec fn cached_with<F: FnOnce() -> Result<Config, ConfigError>>(
    before: ProcessConfig,
    load: F,
    after: ProcessConfig,
) -> bool {
    after.config() matches Some(config) && match before.config() {
        Some(cached) => config == cached,
        None => exists|loaded: Result<Config, ConfigError>| #[trigger]
            load.ensures((), loaded) && loaded_or_default(loaded, config),
    }
}

/// Enables lossless mode for this process (call it once, after command line parsing).
/// Has no effect if called after the first call to [`lossless`].
pub fn enable_lossless_for_process(process: &mut ProcessConfig)
    ensures
        final(process).config() == old(process).config(),
        final(process).asked() == old(process).asked(),
        final(process).overridden() == (old(process).overridden() || !old(process).asked()),
        old(process).may_become(*final(process)),
{
    if !process.lossless_asked {
        process.lossless_override = true;
    }
}

/// Gets the cached config, which `load` loads once per process. Falls back to defaults.
pub fn cached_config<F: FnOnce() -> Result<Config, ConfigError>>(
    process: &mut ProcessConfig,
    load: F,
) -> (res: &Config)
    requires
        load.requires(()),
    ensures
        final(process).config() == Some(*res),
        cached_with(*old(process), load, *final(process)),
        final(process).overridden() == old(process).overridden(),
        final(process).asked() == old(process).asked(),
        old(process).may_become(*final(process)),
{
    if process.cached.is_none() {
        let config: Config = match load() {
            Ok(config) => config,
            Err(_) => Config::default(),
        };
        process.cached = Some(config);
    }
    process.cached.as_ref().unwrap()
}

/// Gets the limits config (cached per process).
pub fn limits<F: FnOnce() -> Result<Config, ConfigError>>(
    process: &mut ProcessConfig,
    load: F,
) -> (res: &LimitsConfig)
    requires
        load.requires(()),
    ensures
        cached_with(*old(process), load, *final(process)),
        final(process).config() matches Some(config) && *res == config.limits,
        final(process).overridden() == old(process).overridden(),
        final(process).asked() == old(process).asked(),
        old(process).may_become(*final(process)),
{
    &cached_config(process, load).limits
}

/// Checks if lossless mode is enabled. The command line flag takes priority over the config,
/// which is not even loaded then.
pub fn lossless<F: FnOnce() -> Result<Config, ConfigError>>(
    process: &mut ProcessConfig,
    load: F,
) -> (res: bool)
    requires
        load.requires(()),
    ensures
        final(process).lossless() == Some(res),
        final(process).asked(),
        final(process).overridden() == old(process).overridden(),
        old(process).overridden() ==> final(process).config() == old(process).config(),
        !old(process).overridden() ==> cached_with(*old(process), load, *final(process)),
        old(process).may_become(*final(process)),
{
    process.lossless_asked = true;
    if process.lossless_override {
        return true;
    }
    limits(process, load).lossless
}

/// The limit in force: none in lossless mode, else the given one.
pub open spec fn effective_limit(is_lossless: bool, limit: usize) -> usize {
    if is_lossless {
        usize::MAX
    } else {
        limit
    }
}

/// Computes the effective passthrough limit from its components.
pub fn compute_passthrough_limit(is_lossless: bool, max_chars: usize) -> (res: usize)
    ensures
        res == effective_limit(is_lossless, max_chars),
{
    if is_lossless {
        usize::MAX
    } else {
        max_chars
    }
}

/// Effective passthrough char limit: `usize::MAX` when lossless, else the configured limit.
pub fn passthrough_limit<F: FnOnce() -> Result<Config, ConfigError>>(
    process: &mut ProcessConfig,
    load: F,
) -> (res: usize)
    requires
        load.requires(()),
    ensures
        final(process).lossless() matches Some(is_lossless)
            && final(process).config() matches Some(config)
            && res == effective_limit(is_lossless, config.limits.passthrough_max_chars),
        cached_with(*old(process), load, *final(process)),
        final(process).asked(),
        final(process).overridden() == old(process).overridden(),
        old(process).may_become(*final(process)),
{
    let found: LimitsConfig = *limits(process, load);
    process.lossless_asked = true;
    compute_passthrough_limit(
        process.lossless_override || found.lossless,
        found.passthrough_max_chars,
    )
}

/// Returns `usize::MAX` in lossless mode, otherwise `n`.
///
/// Use this for **every** output item cap (line counts, result counts, error limits) so that
/// lossless mode is respected automatically.
///
/// **Do NOT use this for:**
/// - line-width display truncation, which is always active
/// - top-N stat summaries ("Top linters", "Top files"), which summarize on purpose
/// - internal pipeline data structures not shown to the user
pub fn lossless_cap<F: FnOnce() -> Result<Config, ConfigError>>(
    process: &mut ProcessConfig,
    load: F,
    n: usize,
) -> (res: usize)
    requires
        load.requires(()),
    ensures
        final(process).lossless() matches Some(is_lossless) && res == effective_limit(
            is_lossless,
            n,
        ),
        final(process).asked(),
        final(process).overridden() == old(process).overridden(),
        old(process).overridden() ==> final(process).config() == old(process).config(),
        !old(process).overridden() ==> cached_with(*old(process), load, *final(process)),
        old(process).may_become(*final(process)),
{
    if lossless(process, load) {
        usize::MAX
    } else {
        n
    }
}

// ---------------------------------------------------------------------------
// Laws
// ---------------------------------------------------------------------------

/// What each call guarantees of the next state holds over any number of calls.
pub proof fn law_states_compose(a: ProcessConfig, b: ProcessConfig, c: ProcessConfig)
    requires
        a.may_become(b),
        b.may_become(c),
    ensures
        a.may_become(c),
{
}

/// Once a process has been told whether lossless mode is on, the answer never changes: not by
/// enabling it later, and not by anything that loads a configuration.
pub proof fn law_lossless_is_settled(answered: ProcessConfig, later: ProcessConfig)
    requires
        answered.asked(),
        answered.lossless() is Some,
        answered.may_become(later),
    ensures
        later.lossless() == answered.lossless(),
{
}

/// The command line flag takes priority over whatever the configuration says, for as long as the
/// process lives.
pub proof fn law_override_wins(enabled: ProcessConfig, later: ProcessConfig)
    requires
        enabled.overridden(),
        enabled.may_become(later),
    ensures
        later.lossless() == Some(true),
{
}

/// The configuration is loaded at most once: what was cached stays.
pub proof fn law_config_is_loaded_once(loaded: ProcessConfig, later: ProcessConfig)
    requires
        loaded.config() is Some,
        loaded.may_become(later),
    ensures
        later.config() == loaded.config(),
{
}

/// Lossless mode never lowers a limit, and lifts every one: no count of items exceeds the limit in
/// force. Outside it the limit is the given one.
pub proof fn law_lossless_lifts_limits(limit: usize, count: usize)
    ensures
        effective_limit(true, limit) >= limit,
        count <= effective_limit(true, limit),
        effective_limit(false, limit) == limit,
{
}

} // verus!
