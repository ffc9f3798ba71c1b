//! File system paths: where the configuration and the saved outputs live, and how a path is shown.
//!
//! Paths stay `std::path::PathBuf` values, the paths of the target that the crate is built for, so
//! that no file name is lost for not being UTF-8. What the standard library and the `dirs` crate
//! compute of them enters through the items of the first section, whose contracts are taken on
//! trust.
use crate::constants::{CONFIG_TOML, RTK_DATA_DIR, TEE_DIR};
use std::path::PathBuf;
use vstd::prelude::*;

verus! {

// ---------------------------------------------------------------------------
// What is taken on trust
// ---------------------------------------------------------------------------

/// Declares `std::path::PathBuf`, an owned path, as an opaque type.
#[verifier::external_type_specification]
#[verifier::external_body]
pub struct ExPathBuf(std::path::PathBuf);

/// `PathBuf::clone`: the clone is the same path.
pub assume_specification[ <PathBuf as Clone>::clone ](path: &PathBuf) -> (res: PathBuf)
    ensures
        res == *path,
;

/// The path that a text denotes.
pub uninterp spec fn path_of(text: Seq<char>) -> PathBuf;

/// `path` with `part` adjoined.
pub uninterp spec fn path_joined(path: PathBuf, part: Seq<char>) -> PathBuf;

/// What is left of `path` below `base`, if `base` is a prefix of it.
pub uninterp spec fn path_below(path: PathBuf, base: PathBuf) -> Option<PathBuf>;

/// The text that shows `path` to a user.
pub uninterp spec fn path_display(path: PathBuf) -> Seq<char>;

/// `PathBuf::from`, on a text: the path is determined by the text.
#[verifier::external_body]
fn path_from(text: &str) -> (res: PathBuf)
    ensures
        res == path_of(text@),
{
    PathBuf::from(text)
}

/// `Path::join`, on a text: the joined path is determined by the path and the text.
#[verifier::external_body]
pub(crate) fn join(path: &PathBuf, part: &str) -> (res: PathBuf)
    ensures
        res == path_joined(*path, part@),
{
    path.join(part)
}

/// `Path::strip_prefix`: whether `base` is a prefix of `path`, and what is left below it, are
/// determined by the two paths. The error carries nothing else.
#[verifier::external_body]
fn below(path: &PathBuf, base: &PathBuf) -> (res: Option<PathBuf>)
    ensures
        res == path_below(*path, *base),
{
    match path.strip_prefix(base) {
        Ok(rest) => Some(rest.to_path_buf()),
        Err(_) => None,
    }
}

/// `Path::display`: the text that shows a path is determined by the path.
#[verifier::external_body]
pub(crate) fn display(path: &PathBuf) -> (res: String)
    ensures
        res@ == path_display(*path),
{
    path.display().to_string()
}

/// `dirs::home_dir`: the user's home directory, or nothing where none is known. It depends on the
/// environment and on the user database, so nothing is claimed of it.
#[verifier::external_body]
pub(crate) fn home_dir() -> (res: Option<PathBuf>)
{
    dirs::home_dir()
}

/// `dirs::data_local_dir`: the user's local data directory, or nothing where none is known. It
/// depends on the environment and on the user database, so nothing is claimed of it.
#[verifier::external_body]
pub(crate) fn data_local_dir() -> (res: Option<PathBuf>)
{
    dirs::data_local_dir()
}

/// `dirs::config_dir`: the user's configuration directory, or nothing where none is known. It
/// depends on the environment and on the user database, so nothing is claimed of it.
#[verifier::external_body]
fn config_dir() -> (res: Option<PathBuf>)
{
    dirs::config_dir()
}

// ---------------------------------------------------------------------------
// Where files live
// ---------------------------------------------------------------------------

/// The directory of saved outputs below a data directory.
pub open spec fn tee_dir_below(data_dir: PathBuf) -> PathBuf {
    path_joined(path_joined(data_dir, RTK_DATA_DIR@), TEE_DIR@)
}

/// The configuration file below a configuration directory.
pub open spec fn config_file_below(config_dir: PathBuf) -> PathBuf {
    path_joined(path_joined(config_dir, RTK_DATA_DIR@), CONFIG_TOML@)
}

/// The directory of saved outputs: the environment's choice, else the configured one, else the
/// default below the local data directory.
pub open spec fn chosen_tee_dir(
    env_dir: Option<Seq<char>>,
    configured: Option<PathBuf>,
    data_dir: Option<PathBuf>,
) -> Option<PathBuf> {
    match env_dir {
        Some(text) => Some(path_of(text)),
        None => match configured {
            Some(dir) => Some(dir),
            None => match data_dir {
                Some(base) => Some(tee_dir_below(base)),
                None => None,
            },
        },
    }
}

/// The text of an optional string.
pub open spec fn text_of(s: Option<String>) -> Option<Seq<char>> {
    match s {
        Some(s) => Some(s@),
        None => None,
    }
}

/// Chooses the directory of saved outputs, given the local data directory.
pub fn choose_tee_dir(
    env_dir: Option<String>,
    configured: &Option<PathBuf>,
    data_dir: Option<PathBuf>,
) -> (res: Option<PathBuf>)
    ensures
        res == chosen_tee_dir(text_of(env_dir), *configured, data_dir),
{
    match env_dir {
        Some(text) => Some(path_from(text.as_str())),
        None => match configured {
            Some(dir) => Some(dir.clone()),
            None => match data_dir {
                Some(base) => Some(join(&join(&base, RTK_DATA_DIR), TEE_DIR)),
                None => None,
            },
        },
    }
}

/// The configuration file, given the user's configuration directory; without one, it is looked
/// for below the working directory.
pub open spec fn config_path_in(config_dir: Option<PathBuf>) -> PathBuf {
    match config_dir {
        Some(dir) => config_file_below(dir),
        None => config_file_below(path_of("."@)),
    }
}

/// The configuration file, given the user's configuration directory.
pub fn config_path(config_dir: Option<PathBuf>) -> (res: PathBuf)
    ensures
        res == config_path_in(config_dir),
{
    let base: PathBuf = match config_dir {
        Some(dir) => dir,
        None => path_from("."),
    };
    join(&join(&base, RTK_DATA_DIR), CONFIG_TOML)
}

/// The configuration file of the current user.
pub fn get_config_path() -> (res: PathBuf)
    ensures
        exists|config_dir: Option<PathBuf>| res == #[trigger] config_path_in(config_dir),
{
    config_path(config_dir())
}

// ---------------------------------------------------------------------------
// How a path is shown
// ---------------------------------------------------------------------------

/// The text that shows a path, with `~` for the home directory that it lies below.
pub open spec fn shown(full: Seq<char>, below_home: Option<Seq<char>>) -> Seq<char> {
    match below_home {
        Some(rest) => "~/"@ + rest,
        None => full,
    }
}

/// The text that shows `path` to a user whose home directory is `home`.
pub open spec fn shown_path(path: PathBuf, home: Option<PathBuf>) -> Seq<char> {
    shown(
        path_display(path),
        match home {
            Some(home) => match path_below(path, home) {
                Some(rest) => Some(path_display(rest)),
                None => None,
            },
            None => None,
        },
    )
}

/// The text that shows a path, given its full text and, where it lies below the home directory,
/// the text of the rest.
pub fn home_shorthand(full: String, below_home: Option<String>) -> (res: String)
    ensures
        res@ == shown(full@, text_of(below_home)),
{
    match below_home {
        Some(rest) => {
            let text: String = "~/".to_owned();
            text.concat(rest.as_str())
        },
        None => full,
    }
}

/// Shows `path` with the `~` shorthand, given the home directory.
pub fn show_path(path: &PathBuf, home: &Option<PathBuf>) -> (res: String)
    ensures
        res@ == shown_path(*path, *home),
{
    let below_home: Option<String> = match home {
        Some(home) => match below(path, home) {
            Some(rest) => Some(display(&rest)),
            None => None,
        },
        None => None,
    };
    home_shorthand(display(path), below_home)
}

} // verus!
