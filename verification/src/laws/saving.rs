//! Laws on what is saved of an output, under which name, when, and where.
use crate::config::{Config, ConfigError};
use crate::laws::text::{law_decimal_denotes_the_number, number_of};
use crate::paths::{choose_tee_dir, config_path, get_config_path, home_shorthand, path_below};
use crate::paths::{config_path_in, path_display, path_joined, path_of, show_path};
use crate::tee::{get_tee_dir, run_settings, sanitize_slug, should_tee, tee_content, tee_file_name};
use crate::tee::{sanitized, settings_of};
use crate::tee_config::{TeeConfig, TeeMode};
use crate::text::{byte_len, decimal};
use crate::truncate::{fitting_within, law_fitting_prefix, lemma_fitting_within_bounds};
use std::path::PathBuf;
use vstd::prelude::*;

verus! {

/// A slug has a character for each of the first forty characters of the text: the same one, if it is
/// an ASCII letter, a digit, an underscore or a hyphen, and an underscore otherwise.
pub proof fn law_sanitize_slug(slug: &str, res: String)
    requires
        call_ensures(sanitize_slug, (slug,), res),
    ensures
        slug@.len() <= 40 ==> res@.len() == slug@.len(),
        slug@.len() > 40 ==> res@.len() == 40,
        forall|i: int|
            0 <= i < res@.len() ==> #[trigger] res@[i] == (if 'a' <= slug@[i] <= 'z' || 'A'
                <= slug@[i] <= 'Z' || '0' <= slug@[i] <= '9' || slug@[i] == '-' {
                slug@[i]
            } else {
                '_'
            }),
{
}

/// A file name is the time, an underscore, the slug of the command and ".log".
pub proof fn law_tee_file_name(epoch: u64, command_slug: &str, slug: String, res: String)
    requires
        call_ensures(tee_file_name, (epoch, command_slug), res),
        call_ensures(sanitize_slug, (command_slug,), slug),
    ensures
        ({
            let digits = res@.len() - slug@.len() - 5;
            &&& digits >= 1
            &&& number_of(res@.take(digits)) == epoch
            &&& forall|i: int| 0 <= i < digits ==> '0' <= #[trigger] res@[i] <= '9'
            &&& res@.skip(digits) == seq!['_'] + slug@ + seq!['.', 'l', 'o', 'g']
        }),
{
    reveal_strlit("_");
    reveal_strlit(".log");
    law_decimal_denotes_the_number(epoch as nat);
    let number = decimal(epoch as nat);
    let digits = res@.len() - slug@.len() - 5;
    assert(slug@ == sanitized(command_slug@));
    assert("_"@ =~= seq!['_']);
    assert(".log"@ =~= seq!['.', 'l', 'o', 'g']);
    assert(res@.take(digits) =~= number);
    assert(res@.skip(digits) =~= seq!['_'] + slug@ + seq!['.', 'l', 'o', 'g']);
    assert forall|i: int| 0 <= i < digits implies '0' <= #[trigger] res@[i] <= '9' by {
        assert(res@[i] == number[i]);
    }
}

/// An output that fits is saved as it is. Of any other, a prefix is saved that fits, and that one
/// more character would make too long, with a note of the size behind it.
pub proof fn law_tee_content(raw: &str, max_file_size: usize, res: String)
    requires
        call_ensures(tee_content, (raw, max_file_size), res),
    ensures
        byte_len(raw@) <= max_file_size ==> res@ == raw@,
        byte_len(raw@) > max_file_size ==> {
            let note = "\n\n--- truncated at "@ + decimal(max_file_size as nat) + " bytes ---"@;
            let cut = res@.len() - note.len();
            &&& 0 <= cut < raw@.len()
            &&& res@ == raw@.take(cut) + note
            &&& byte_len(raw@.take(cut)) <= max_file_size
            &&& byte_len(raw@.take(cut + 1)) > max_file_size
        },
{
    if byte_len(raw@) > max_file_size {
        lemma_fitting_within_bounds(raw@, max_file_size as nat);
        law_fitting_prefix(raw@, max_file_size as nat);
        let note = "\n\n--- truncated at "@ + decimal(max_file_size as nat) + " bytes ---"@;
        let cut = fitting_within(raw@, max_file_size as nat) as int;
        assert(res@ == raw@.take(cut) + note);
    }
}

/// A larger maximum never saves less of an output.
pub proof fn law_larger_maximum_saves_no_less(raw: Seq<char>, less: nat, more: nat)
    requires
        less <= more,
    ensures
        fitting_within(raw, less) <= fitting_within(raw, more),
{
    lemma_fitting_within_bounds(raw, less);
    law_fitting_prefix(raw, more);
}

/// An output is saved exactly if tee is enabled, the output has at least 500 bytes, and the mode is
/// "always", or is "failures" and the command failed; the directory is then the given one.
pub proof fn law_should_tee(
    config: &TeeConfig,
    raw_len: usize,
    exit_code: i32,
    tee_dir: Option<PathBuf>,
    res: Option<PathBuf>,
)
    requires
        call_ensures(should_tee, (config, raw_len, exit_code, tee_dir), res),
    ensures
        config.enabled && raw_len >= 500 && config.mode == TeeMode::Always ==> res == tee_dir,
        config.enabled && raw_len >= 500 && config.mode == TeeMode::Failures && exit_code != 0
            ==> res == tee_dir,
        !config.enabled ==> res is None,
        raw_len < 500 ==> res is None,
        config.mode == TeeMode::Never ==> res is None,
        config.mode == TeeMode::Failures && exit_code == 0 ==> res is None,
{
}

/// In mode "always" the exit code does not count; in every mode, one failure is like another.
pub proof fn law_exit_code_counts_as_failure_only(
    config: &TeeConfig,
    raw_len: usize,
    one_code: i32,
    other_code: i32,
    tee_dir: Option<PathBuf>,
    one: Option<PathBuf>,
    other: Option<PathBuf>,
)
    requires
        call_ensures(should_tee, (config, raw_len, one_code, tee_dir), one),
        call_ensures(should_tee, (config, raw_len, other_code, tee_dir), other),
        config.mode == TeeMode::Always || (one_code == 0 <==> other_code == 0),
    ensures
        one == other,
{
}

/// Mode "always" saves no less than "failures", and "failures" no less than "never"; a longer output
/// is saved whenever a shorter one is.
pub proof fn law_saving_is_monotone(
    config: &TeeConfig,
    wider: &TeeConfig,
    raw_len: usize,
    longer: usize,
    exit_code: i32,
    tee_dir: Option<PathBuf>,
    res: Option<PathBuf>,
    wider_res: Option<PathBuf>,
)
    requires
        call_ensures(should_tee, (config, raw_len, exit_code, tee_dir), res),
        call_ensures(should_tee, (wider, longer, exit_code, tee_dir), wider_res),
        config.enabled ==> wider.enabled,
        wider.mode == config.mode || wider.mode == TeeMode::Always || config.mode == TeeMode::Never,
        raw_len <= longer,
        res is Some,
    ensures
        wider_res == res,
{
}

/// The directory of saved outputs: what the environment names, even if that is empty; else what the
/// configuration names; else "rtk/tee" below the local data directory; else none.
pub proof fn law_choose_tee_dir(
    env_dir: Option<String>,
    configured: &Option<PathBuf>,
    data_dir: Option<PathBuf>,
    res: Option<PathBuf>,
)
    requires
        call_ensures(choose_tee_dir, (env_dir, configured, data_dir), res),
    ensures
        env_dir matches Some(text) ==> res == Some(path_of(text@)),
        env_dir is None && *configured is Some ==> res == *configured,
        env_dir is None && *configured is None ==> match data_dir {
            Some(base) => res == Some(path_joined(path_joined(base, "rtk"@), "tee"@)),
            None => res is None,
        },
{
}

/// What the environment or the configuration names does not depend on the local data directory.
pub proof fn law_get_tee_dir(config: &Config, env_dir: Option<String>, res: Option<PathBuf>)
    requires
        call_ensures(get_tee_dir, (config, env_dir), res),
    ensures
        env_dir matches Some(text) ==> res == Some(path_of(text@)),
        env_dir is None && config.tee.directory is Some ==> res == config.tee.directory,
        env_dir is None && config.tee.directory is None && res is Some ==> exists|base: PathBuf|
            res == Some(path_joined(#[trigger] path_joined(base, "rtk"@), "tee"@)),
{
    let data_dir = choose|data_dir: Option<PathBuf>|
        res == #[trigger] crate::paths::chosen_tee_dir(
            crate::paths::text_of(env_dir),
            config.tee.directory,
            data_dir,
        );
    if env_dir is None && config.tee.directory is None && res is Some {
        let base = data_dir->0;
        assert(res == Some(path_joined(path_joined(base, "rtk"@), "tee"@)));
    }
}

/// A run is told the tee settings of the loaded configuration as they are, and the directory that
/// the environment or else they name; without a configuration, nothing.
pub proof fn law_run_settings(
    loaded: Result<Config, ConfigError>,
    env_dir: Option<String>,
    res: Option<(TeeConfig, Option<PathBuf>)>,
)
    requires
        call_ensures(run_settings, (loaded, env_dir), res),
    ensures
        loaded is Err <==> res is None,
        loaded matches Ok(config) ==> (res matches Some((tee, dir)) && {
            &&& tee == config.tee
            &&& env_dir matches Some(text) ==> dir == Some(path_of(text@))
            &&& env_dir is None && config.tee.directory is Some ==> dir == config.tee.directory
            &&& env_dir is None && config.tee.directory is None && dir is Some ==> exists|
                base: PathBuf,
            |
                dir == Some(path_joined(#[trigger] path_joined(base, "rtk"@), "tee"@))
        }),
{
    let data_dir = choose|data_dir: Option<PathBuf>|
        res == #[trigger] settings_of(loaded, crate::paths::text_of(env_dir), data_dir);
    if let Some((tee, Some(dir))) = res {
        if env_dir is None && tee.directory is None {
            let base = data_dir->0;
            assert(dir == path_joined(path_joined(base, "rtk"@), "tee"@));
        }
    }
}

/// The configuration file is "rtk/config.toml" below the configuration directory, or below the
/// working directory where there is none.
pub proof fn law_config_path(config_dir: Option<PathBuf>, res: PathBuf)
    requires
        call_ensures(config_path, (config_dir,), res),
    ensures
        res == path_joined(
            path_joined(
                match config_dir {
                    Some(dir) => dir,
                    None => path_of("."@),
                },
                "rtk"@,
            ),
            "config.toml"@,
        ),
{
}

/// Whatever the configuration directory is, the file is "rtk/config.toml" below some directory.
pub proof fn law_get_config_path(res: PathBuf)
    requires
        call_ensures(get_config_path, (), res),
    ensures
        exists|base: PathBuf|
            res == path_joined(#[trigger] path_joined(base, "rtk"@), "config.toml"@),
{
    let config_dir = choose|config_dir: Option<PathBuf>|
        res == #[trigger] config_path_in(config_dir);
    let base = match config_dir {
        Some(dir) => dir,
        None => path_of("."@),
    };
    assert(res == path_joined(path_joined(base, "rtk"@), "config.toml"@));
}

/// A path is shown in full, unless it lies below the home directory: then as what is left of it
/// there, behind "~/".
pub proof fn law_show_path(path: &PathBuf, home: &Option<PathBuf>, res: String)
    requires
        call_ensures(show_path, (path, home), res),
    ensures
        *home is None ==> res@ == path_display(*path),
        *home matches Some(dir) ==> match path_below(*path, dir) {
            Some(rest) => res@ == seq!['~', '/'] + path_display(rest),
            None => res@ == path_display(*path),
        },
{
    reveal_strlit("~/");
    assert("~/"@ =~= seq!['~', '/']);
}

/// The shorthand is "~/" and what is left below the home directory, or the full text.
pub proof fn law_home_shorthand(full: String, below_home: Option<String>, res: String)
    requires
        call_ensures(home_shorthand, (full, below_home), res),
    ensures
        below_home matches Some(rest) ==> res@ == seq!['~', '/'] + rest@,
        below_home is None ==> res@ == full@,
{
    reveal_strlit("~/");
    assert("~/"@ =~= seq!['~', '/']);
}

} // verus!
