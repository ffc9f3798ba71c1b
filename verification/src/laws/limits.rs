//! Laws on the limits in force in a process, over the calls that a process makes.
use crate::config::{Config, ConfigError, LimitsConfig};
use crate::limits::{cached_config, compute_passthrough_limit, enable_lossless_for_process, limits};
use crate::limits::{lossless, lossless_cap, passthrough_limit, ProcessConfig};
use vstd::prelude::*;

verus! {

/// Whether `load` gives `config` and nothing else.
pub open spec fn gives<F: FnOnce() -> Result<Config, ConfigError>>(load: F, config: Config) -> bool {
    forall|loaded: Result<Config, ConfigError>| #[trigger]
        load.ensures((), loaded) ==> loaded == Ok::<Config, ConfigError>(config)
}

/// Whether `load` fails.
pub open spec fn fails<F: FnOnce() -> Result<Config, ConfigError>>(load: F) -> bool {
    forall|loaded: Result<Config, ConfigError>| #[trigger] load.ensures((), loaded) ==> loaded is Err
}

/// The effective limit is the given one, or the greatest there is in lossless mode.
pub proof fn law_compute_passthrough_limit(is_lossless: bool, max_chars: usize, res: usize)
    requires
        call_ensures(compute_passthrough_limit, (is_lossless, max_chars), res),
    ensures
        is_lossless ==> res == usize::MAX,
        !is_lossless ==> res == max_chars,
{
}

/// A process that has read nothing takes its limits from the configuration that is loaded, and from
/// the defaults where loading fails.
pub proof fn law_limits_of_a_new_process<F: FnOnce() -> Result<Config, ConfigError>>(
    new: ProcessConfig,
    process: &mut ProcessConfig,
    load: F,
    res: &LimitsConfig,
    config: Config,
)
    requires
        call_ensures(ProcessConfig::new, (), new),
        *old(process) == new,
        call_ensures(limits::<F>, (process, load), res),
    ensures
        gives(load, config) ==> *res == config.limits,
        fails(load) ==> {
            &&& !res.lossless
            &&& res.grep_max_results == 200
            &&& res.grep_max_per_file == 25
            &&& res.status_max_files == 15
            &&& res.status_max_untracked == 10
            &&& res.passthrough_max_chars == 2000
        },
{
}

/// A process that has read nothing uses the configuration that is loaded, as it is.
pub proof fn law_config_of_a_new_process<F: FnOnce() -> Result<Config, ConfigError>>(
    new: ProcessConfig,
    process: &mut ProcessConfig,
    load: F,
    res: &Config,
    config: Config,
)
    requires
        call_ensures(ProcessConfig::new, (), new),
        *old(process) == new,
        call_ensures(cached_config::<F>, (process, load), res),
        gives(load, config),
    ensures
        *res == config,
{
}

/// The configuration is loaded once: a second call gives what the first gave, whatever loading would
/// give now.
pub proof fn law_second_config_is_the_first<
    F: FnOnce() -> Result<Config, ConfigError>,
    G: FnOnce() -> Result<Config, ConfigError>,
>(
    first: &mut ProcessConfig,
    second: &mut ProcessConfig,
    load: F,
    load_again: G,
    one: &Config,
    two: &Config,
)
    requires
        call_ensures(cached_config::<F>, (first, load), one),
        call_ensures(cached_config::<G>, (second, load_again), two),
        *old(second) == *final(first),
    ensures
        *two == *one,
{
}

/// The limits are those of the configuration.
pub proof fn law_limits_are_of_the_config<
    F: FnOnce() -> Result<Config, ConfigError>,
    G: FnOnce() -> Result<Config, ConfigError>,
>(
    first: &mut ProcessConfig,
    second: &mut ProcessConfig,
    load: F,
    load_again: G,
    config: &Config,
    res: &LimitsConfig,
)
    requires
        call_ensures(cached_config::<F>, (first, load), config),
        call_ensures(limits::<G>, (second, load_again), res),
        *old(second) == *final(first),
    ensures
        *res == config.limits,
{
}

/// In a process that has read nothing, lossless mode is on exactly if the configuration says so; by
/// default it is off.
pub proof fn law_lossless_of_a_new_process<F: FnOnce() -> Result<Config, ConfigError>>(
    new: ProcessConfig,
    process: &mut ProcessConfig,
    load: F,
    res: bool,
    config: Config,
)
    requires
        call_ensures(ProcessConfig::new, (), new),
        *old(process) == new,
        call_ensures(lossless::<F>, (process, load), res),
    ensures
        gives(load, config) ==> res == config.limits.lossless,
        fails(load) ==> !res,
{
}

/// Once enabled for a process that has not asked yet, lossless mode is on, whatever the
/// configuration says, and nothing is loaded to find out: what was loaded before is all that is
/// there after.
pub proof fn law_enabled_lossless_is_on<F: FnOnce() -> Result<Config, ConfigError>>(
    new: ProcessConfig,
    enabled: &mut ProcessConfig,
    asking: &mut ProcessConfig,
    load: F,
    res: bool,
)
    requires
        call_ensures(ProcessConfig::new, (), new),
        *old(enabled) == new,
        call_ensures(enable_lossless_for_process, (enabled,), ()),
        *old(asking) == *final(enabled),
        call_ensures(lossless::<F>, (asking, load), res),
    ensures
        res,
        final(asking).config() == new.config(),
{
}

/// Reading the limits before does not keep lossless mode from being enabled.
pub proof fn law_lossless_can_be_enabled_after_limits<
    F: FnOnce() -> Result<Config, ConfigError>,
    G: FnOnce() -> Result<Config, ConfigError>,
>(
    new: ProcessConfig,
    reading: &mut ProcessConfig,
    enabled: &mut ProcessConfig,
    asking: &mut ProcessConfig,
    load: F,
    load_again: G,
    read: &LimitsConfig,
    res: bool,
)
    requires
        call_ensures(ProcessConfig::new, (), new),
        *old(reading) == new,
        call_ensures(limits::<F>, (reading, load), read),
        *old(enabled) == *final(reading),
        call_ensures(enable_lossless_for_process, (enabled,), ()),
        *old(asking) == *final(enabled),
        call_ensures(lossless::<G>, (asking, load_again), res),
    ensures
        res,
{
}

/// Enabling lossless mode after the first question has no effect: the second answer is the first.
pub proof fn law_enabling_late_has_no_effect<
    F: FnOnce() -> Result<Config, ConfigError>,
    G: FnOnce() -> Result<Config, ConfigError>,
>(
    asking: &mut ProcessConfig,
    enabled: &mut ProcessConfig,
    asking_again: &mut ProcessConfig,
    load: F,
    load_again: G,
    one: bool,
    two: bool,
)
    requires
        call_ensures(lossless::<F>, (asking, load), one),
        *old(enabled) == *final(asking),
        call_ensures(enable_lossless_for_process, (enabled,), ()),
        *old(asking_again) == *final(enabled),
        call_ensures(lossless::<G>, (asking_again, load_again), two),
    ensures
        two == one,
{
}

/// Asked again, a process gives the same answer.
pub proof fn law_lossless_does_not_change<
    F: FnOnce() -> Result<Config, ConfigError>,
    G: FnOnce() -> Result<Config, ConfigError>,
>(
    asking: &mut ProcessConfig,
    asking_again: &mut ProcessConfig,
    load: F,
    load_again: G,
    one: bool,
    two: bool,
)
    requires
        call_ensures(lossless::<F>, (asking, load), one),
        *old(asking_again) == *final(asking),
        call_ensures(lossless::<G>, (asking_again, load_again), two),
    ensures
        two == one,
{
}

/// A cap on items is lifted exactly if lossless mode is on.
pub proof fn law_cap_follows_lossless<
    F: FnOnce() -> Result<Config, ConfigError>,
    G: FnOnce() -> Result<Config, ConfigError>,
>(
    asking: &mut ProcessConfig,
    capping: &mut ProcessConfig,
    load: F,
    load_again: G,
    is_lossless: bool,
    n: usize,
    cap: usize,
)
    requires
        call_ensures(lossless::<F>, (asking, load), is_lossless),
        *old(capping) == *final(asking),
        call_ensures(lossless_cap::<G>, (capping, load_again, n), cap),
    ensures
        is_lossless ==> cap == usize::MAX,
        !is_lossless ==> cap == n,
{
}

/// A cap in a process that has read nothing: lifted if the configuration asks for lossless mode,
/// and as given otherwise.
pub proof fn law_cap_of_a_new_process<F: FnOnce() -> Result<Config, ConfigError>>(
    new: ProcessConfig,
    process: &mut ProcessConfig,
    load: F,
    n: usize,
    cap: usize,
    config: Config,
)
    requires
        call_ensures(ProcessConfig::new, (), new),
        *old(process) == new,
        call_ensures(lossless_cap::<F>, (process, load, n), cap),
    ensures
        gives(load, config) && config.limits.lossless ==> cap == usize::MAX,
        gives(load, config) && !config.limits.lossless ==> cap == n,
        fails(load) ==> cap == n,
{
}

/// A cap, too, settles whether lossless mode is on.
pub proof fn law_cap_settles_lossless<
    F: FnOnce() -> Result<Config, ConfigError>,
    G: FnOnce() -> Result<Config, ConfigError>,
>(
    capping: &mut ProcessConfig,
    enabled: &mut ProcessConfig,
    capping_again: &mut ProcessConfig,
    load: F,
    load_again: G,
    n: usize,
    one: usize,
    two: usize,
)
    requires
        call_ensures(lossless_cap::<F>, (capping, load, n), one),
        *old(enabled) == *final(capping),
        call_ensures(enable_lossless_for_process, (enabled,), ()),
        *old(capping_again) == *final(enabled),
        call_ensures(lossless_cap::<G>, (capping_again, load_again, n), two),
    ensures
        two == one,
{
}

/// The passthrough limit in a process that has read nothing: that of the configuration, lifted if it
/// asks for lossless mode; by default 2000.
pub proof fn law_passthrough_of_a_new_process<F: FnOnce() -> Result<Config, ConfigError>>(
    new: ProcessConfig,
    process: &mut ProcessConfig,
    load: F,
    res: usize,
    config: Config,
)
    requires
        call_ensures(ProcessConfig::new, (), new),
        *old(process) == new,
        call_ensures(passthrough_limit::<F>, (process, load), res),
    ensures
        gives(load, config) && config.limits.lossless ==> res == usize::MAX,
        gives(load, config) && !config.limits.lossless ==> res
            == config.limits.passthrough_max_chars,
        fails(load) ==> res == 2000,
{
}

/// The passthrough limit is lifted once lossless mode is enabled for the process.
pub proof fn law_enabled_lossless_lifts_passthrough<F: FnOnce() -> Result<Config, ConfigError>>(
    new: ProcessConfig,
    enabled: &mut ProcessConfig,
    process: &mut ProcessConfig,
    load: F,
    res: usize,
)
    requires
        call_ensures(ProcessConfig::new, (), new),
        *old(enabled) == new,
        call_ensures(enable_lossless_for_process, (enabled,), ()),
        *old(process) == *final(enabled),
        call_ensures(passthrough_limit::<F>, (process, load), res),
    ensures
        res == usize::MAX,
{
}

/// The passthrough limit follows the limits and lossless mode as they were found before, whatever
/// loading would give now.
pub proof fn law_passthrough_follows_limits<
    F: FnOnce() -> Result<Config, ConfigError>,
    G: FnOnce() -> Result<Config, ConfigError>,
    H: FnOnce() -> Result<Config, ConfigError>,
>(
    reading: &mut ProcessConfig,
    asking: &mut ProcessConfig,
    process: &mut ProcessConfig,
    load: F,
    load_again: G,
    load_once_more: H,
    read: &LimitsConfig,
    is_lossless: bool,
    res: usize,
)
    requires
        call_ensures(limits::<F>, (reading, load), read),
        *old(asking) == *final(reading),
        call_ensures(lossless::<G>, (asking, load_again), is_lossless),
        *old(process) == *final(asking),
        call_ensures(passthrough_limit::<H>, (process, load_once_more), res),
    ensures
        is_lossless ==> res == usize::MAX,
        !is_lossless ==> res == read.passthrough_max_chars,
{
}

} // verus!
