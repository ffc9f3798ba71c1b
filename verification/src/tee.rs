//! Raw output recovery: what is saved of an output, under which name, and when.
use crate::config::{Config, ConfigError};
use crate::lines::{law_lines_of_whole_lines, lines_of};
use crate::paths::{choose_tee_dir, chosen_tee_dir, data_local_dir, path_of, text_of};
use crate::tee_config::{TeeConfig, TeeMode, MIN_TEE_SIZE};
use crate::text::{byte_count, byte_len, chars_of, decimal, lemma_byte_len_add, push_decimal};
use crate::text::string_of;
use crate::truncate::{count_fitting_within, fitting_within};
use crate::truncate::{law_fitting_prefix, lemma_fitting_within_bounds};
use std::path::PathBuf;
use vstd::prelude::*;
use vstd::utf8::is_ascii_chars;

verus! {

// ---------------------------------------------------------------------------
// File names
// ---------------------------------------------------------------------------

/// How many characters of a command slug a file name holds.
pub const MAX_SLUG_LEN: usize = 40;

/// Whether a character may stand in a file name as it is.
pub open spec fn is_slug_char(c: char) -> bool {
    ||| 'a' <= c <= 'z'
    ||| 'A' <= c <= 'Z'
    ||| '0' <= c <= '9'
    ||| c == '_'
    ||| c == '-'
}

/// The character that stands for `c` in a file name.
pub open spec fn slug_char(c: char) -> char {
    if is_slug_char(c) {
        c
    } else {
        '_'
    }
}

/// `text` with an underscore for every character that may not stand in a file name, cut after
/// [`MAX_SLUG_LEN`] characters.
pub open spec fn sanitized(text: Seq<char>) -> Seq<char> {
    let clean = text.map_values(|c: char| slug_char(c));
    if clean.len() > MAX_SLUG_LEN {
        clean.take(MAX_SLUG_LEN as int)
    } else {
        clean
    }
}

/// The name of the file that an output is saved to.
pub open spec fn file_name_of(epoch: nat, command_slug: Seq<char>) -> Seq<char> {
    decimal(epoch) + "_"@ + sanitized(command_slug) + ".log"@
}

fn clean_char(c: char) -> (res: char)
    ensures
        res == slug_char(c),
{
    if ('a' <= c && c <= 'z') || ('A' <= c && c <= 'Z') || ('0' <= c && c <= '9') || c == '_' || c
        == '-' {
        c
    } else {
        '_'
    }
}

/// Sanitizes a command slug for use in filenames.
/// Replaces non-alphanumeric chars (except underscore/hyphen) with underscore,
/// truncates at 40 chars.
pub fn sanitize_slug(slug: &str) -> (res: String)
    ensures
        res@ == sanitized(slug@),
{
    let chars: Vec<char> = chars_of(slug);
    let ghost clean = slug@.map_values(|c: char| slug_char(c));
    let mut res: String = String::new();
    let mut i: usize = 0;
    while i < chars.len() && i < MAX_SLUG_LEN
        invariant
            chars@ == slug@,
            clean == slug@.map_values(|c: char| slug_char(c)),
            i <= chars.len(),
            i <= MAX_SLUG_LEN,
            res@ == clean.take(i as int),
        decreases chars.len() - i,
    {
        res.push(clean_char(chars[i]));
        assert(res@ =~= clean.take(i + 1));
        i = i + 1;
    }
    assert(clean.take(clean.len() as int) =~= clean);
    res
}

/// The name of the file that the output of a command is saved to, `epoch` seconds after the start
/// of 1970.
pub fn tee_file_name(epoch: u64, command_slug: &str) -> (res: String)
    ensures
        res@ == file_name_of(epoch as nat, command_slug@),
{
    let mut res: String = String::new();
    push_decimal(&mut res, epoch);
    assert(res@ =~= decimal(epoch as nat));
    res.append("_");
    let slug: String = sanitize_slug(command_slug);
    res.append(slug.as_str());
    res.append(".log");
    res
}

// ---------------------------------------------------------------------------
// File contents
// ---------------------------------------------------------------------------

/// The note at the end of an output that was cut.
pub open spec fn cut_note(max_file_size: nat) -> Seq<char> {
    "\n\n--- truncated at "@ + decimal(max_file_size) + " bytes ---"@
}

/// What is saved of an output: all of it, or, where it takes more than `max_file_size` bytes, its
/// longest prefix that fits, followed by a note.
pub open spec fn saved_text(raw: Seq<char>, max_file_size: nat) -> Seq<char> {
    if byte_len(raw) > max_file_size {
        raw.take(fitting_within(raw, max_file_size) as int) + cut_note(max_file_size)
    } else {
        raw
    }
}

/// What is saved of an output. It is cut at `max_file_size` bytes, rounded down to the nearest
/// character boundary.
pub fn tee_content(raw: &str, max_file_size: usize) -> (res: String)
    ensures
        res@ == saved_text(raw@, max_file_size as nat),
{
    if byte_count(raw) <= max_file_size {
        return raw.to_owned();
    }
    let chars: Vec<char> = chars_of(raw);
    let cut: usize = count_fitting_within(&chars, max_file_size);
    let mut res: String = string_of(&chars, 0, cut);
    assert(res@ =~= raw@.take(cut as int));
    res.append("\n\n--- truncated at ");
    push_decimal(&mut res, max_file_size as u64);
    res.append(" bytes ---");
    assert(res@ =~= saved_text(raw@, max_file_size as nat));
    res
}

// ---------------------------------------------------------------------------
// When to save
// ---------------------------------------------------------------------------

/// Whether the settings want an output of `raw_len` bytes saved, of a command that ended with
/// `exit_code`.
pub open spec fn wants_tee(config: TeeConfig, raw_len: nat, exit_code: int) -> bool {
    &&& config.enabled
    &&& match config.mode {
        TeeMode::Never => false,
        TeeMode::Failures => exit_code != 0,
        TeeMode::Always => true,
    }
    &&& raw_len >= MIN_TEE_SIZE
}

/// Whether an output of `raw_len` bytes is saved when its saving is forced: the mode and the exit
/// code do not count.
pub open spec fn wants_forced_tee(config: TeeConfig, raw_len: nat) -> bool {
    &&& config.enabled
    &&& raw_len >= MIN_TEE_SIZE
}

/// Checks if tee should be skipped based on config, mode, exit code, and size.
/// Returns None if should skip, `tee_dir` if should proceed.
pub fn should_tee(
    config: &TeeConfig,
    raw_len: usize,
    exit_code: i32,
    tee_dir: Option<PathBuf>,
) -> (res: Option<PathBuf>)
    ensures
        res == (if wants_tee(*config, raw_len as nat, exit_code as int) {
            tee_dir
        } else {
            None
        }),
{
    if !config.enabled {
        return None;
    }
    match config.mode {
        TeeMode::Never => {
            return None;
        },
        TeeMode::Failures => {
            if exit_code == 0 {
                return None;
            }
        },
        TeeMode::Always => {},
    }
    if raw_len < MIN_TEE_SIZE {
        return None;
    }
    tee_dir
}

/// Gets the tee directory, respecting the config and the value of `RTK_TEE_DIR`, which `env_dir`
/// holds. The default lies below the user's local data directory.
pub fn get_tee_dir(config: &Config, env_dir: Option<String>) -> (res: Option<PathBuf>)
    ensures
        exists|data_dir: Option<PathBuf>|
            res == #[trigger] chosen_tee_dir(text_of(env_dir), config.tee.directory, data_dir),
        env_dir is Some || config.tee.directory is Some ==> res is Some,
{
    let data_dir: Option<PathBuf> = data_local_dir();
    choose_tee_dir(env_dir, &config.tee.directory, data_dir)
}

/// What a run is told of the settings: the tee settings and the directory of saved outputs, if a
/// configuration was loaded.
pub open spec fn settings_of(
    loaded: Result<Config, ConfigError>,
    env_dir: Option<Seq<char>>,
    data_dir: Option<PathBuf>,
) -> Option<(TeeConfig, Option<PathBuf>)> {
    match loaded {
        Ok(config) => Some(
            (config.tee, chosen_tee_dir(env_dir, config.tee.directory, data_dir)),
        ),
        Err(_) => None,
    }
}

/// The tee settings and the tee directory, given the outcome of loading the config and the value
/// of `RTK_TEE_DIR`. Returns None if no config could be loaded.
pub fn run_settings(loaded: Result<Config, ConfigError>, env_dir: Option<String>) -> (res: Option<
    (TeeConfig, Option<PathBuf>),
>)
    ensures
        exists|data_dir: Option<PathBuf>|
            res == #[trigger] settings_of(loaded, text_of(env_dir), data_dir),
{
    match loaded {
        Ok(config) => {
            let dir: Option<PathBuf> = get_tee_dir(&config, env_dir);
            let ghost data_dir = choose|data_dir: Option<PathBuf>|
                dir == #[trigger] chosen_tee_dir(text_of(env_dir), config.tee.directory, data_dir);
            assert(settings_of(loaded, text_of(env_dir), data_dir) == Some((config.tee, dir)));
            Some((config.tee, dir))
        },
        Err(_) => {
            assert(settings_of(loaded, text_of(env_dir), None) is None);
            None
        },
    }
}

// ---------------------------------------------------------------------------
// Laws
// ---------------------------------------------------------------------------

/// A slug holds only ASCII letters, digits, underscores and hyphens, and at most
/// [`MAX_SLUG_LEN`] of them.
pub proof fn law_slug_is_safe(text: Seq<char>)
    ensures
        sanitized(text).len() <= MAX_SLUG_LEN,
        forall|i: int| 0 <= i < sanitized(text).len() ==> is_slug_char(#[trigger] sanitized(text)[i]),
        is_ascii_chars(sanitized(text)),
{
}

/// A text that is a slug already stays as it is; in particular, sanitizing twice changes nothing.
pub proof fn law_slug_is_stable(text: Seq<char>)
    requires
        text.len() <= MAX_SLUG_LEN,
        forall|i: int| 0 <= i < text.len() ==> is_slug_char(#[trigger] text[i]),
    ensures
        sanitized(text) == text,
{
    assert(sanitized(text) =~= text);
}

/// Sanitizing a slug again changes nothing.
pub proof fn law_sanitizing_is_idempotent(text: Seq<char>)
    ensures
        sanitized(sanitized(text)) == sanitized(text),
{
    law_slug_is_safe(text);
    law_slug_is_stable(sanitized(text));
}

/// An output that fits is saved whole; of any other, the saved part is a prefix that takes at most
/// the maximum size, no longer prefix would fit, and the note names the maximum.
pub proof fn law_saved_text(raw: Seq<char>, max_file_size: nat)
    ensures
        byte_len(raw) <= max_file_size ==> saved_text(raw, max_file_size) == raw,
        byte_len(raw) > max_file_size ==> exists|cut: int|
            #![trigger raw.take(cut)]
            {
                &&& 0 <= cut < raw.len()
                &&& saved_text(raw, max_file_size) == raw.take(cut) + cut_note(max_file_size)
                &&& byte_len(raw.take(cut)) <= max_file_size
                &&& byte_len(raw.take(cut + 1)) > max_file_size
            },
{
    if byte_len(raw) > max_file_size {
        lemma_fitting_within_bounds(raw, max_file_size);
        law_fitting_prefix(raw, max_file_size);
        let cut = fitting_within(raw, max_file_size) as int;
        assert(saved_text(raw, max_file_size) == raw.take(cut) + cut_note(max_file_size));
    }
}

/// A saved output takes at most the maximum size and the bytes of the note.
pub proof fn law_saved_text_is_bounded(raw: Seq<char>, max_file_size: nat)
    ensures
        byte_len(saved_text(raw, max_file_size)) <= max_file_size + byte_len(
            cut_note(max_file_size),
        ),
{
    lemma_fitting_within_bounds(raw, max_file_size);
    lemma_byte_len_add(
        raw.take(fitting_within(raw, max_file_size) as int),
        cut_note(max_file_size),
    );
}

/// A line of the output that ends within the maximum size has in the file the number that it has in
/// the output. Here `end` is where such lines end.
pub proof fn law_saved_lines_keep_their_numbers(raw: Seq<char>, max_file_size: nat, end: int)
    requires
        0 <= end <= raw.len(),
        end == 0 || raw[end - 1] == '\n',
        byte_len(raw.take(end)) <= max_file_size,
    ensures
        lines_of(raw.take(end)).is_prefix_of(lines_of(raw)),
        lines_of(raw.take(end)).is_prefix_of(lines_of(saved_text(raw, max_file_size))),
{
    let whole = raw.take(end);
    let saved = saved_text(raw, max_file_size);
    law_fitting_prefix(raw, max_file_size);
    let cut = fitting_within(raw, max_file_size) as int;
    assert(end <= cut);
    assert(raw =~= whole + raw.skip(end));
    law_lines_of_whole_lines(whole, raw.skip(end));
    assert(saved =~= whole + saved.skip(end)) by {
        if byte_len(raw) > max_file_size {
            assert(raw.take(cut).take(end) =~= whole);
        }
    }
    law_lines_of_whole_lines(whole, saved.skip(end));
}

/// An output that is saved without force would be saved with force too.
pub proof fn law_force_saves_no_less(config: TeeConfig, raw_len: nat, exit_code: int)
    ensures
        wants_tee(config, raw_len, exit_code) ==> wants_forced_tee(config, raw_len),
{
}

/// Small outputs and a disabled tee are respected by both ways of saving.
pub proof fn law_small_or_disabled_is_skipped(config: TeeConfig, raw_len: nat, exit_code: int)
    requires
        raw_len < MIN_TEE_SIZE || !config.enabled,
    ensures
        !wants_tee(config, raw_len, exit_code),
        !wants_forced_tee(config, raw_len),
{
}

/// By default, exactly the outputs of failed commands that are not small are saved.
pub proof fn law_default_saves_failures(config: TeeConfig, raw_len: nat, exit_code: int)
    requires
        config.is_default(),
    ensures
        wants_tee(config, raw_len, exit_code) <==> exit_code != 0 && raw_len >= MIN_TEE_SIZE,
{
}

/// The environment's choice of directory takes priority over the configured one, and that over the
/// default.
pub proof fn law_tee_dir_priority(
    env_dir: Seq<char>,
    configured: PathBuf,
    any_configured: Option<PathBuf>,
    data_dir: Option<PathBuf>,
)
    ensures
        chosen_tee_dir(Some(env_dir), any_configured, data_dir) == Some(path_of(env_dir)),
        chosen_tee_dir(None, Some(configured), data_dir) == Some(configured),
{
}

} // verus!
