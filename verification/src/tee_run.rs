//! Saving an output, step by step.
//!
//! A [`TeeRun`] decides what happens next; whoever drives it performs each [`TeeAction`] and
//! reports what came of it as a [`TeeEvent`].
use crate::config::{Config, ConfigError};
use crate::paths::{chosen_tee_dir, join, path_joined, text_of};
use crate::rotation::{cleanup_old_files, names_of, rotates_out};
use crate::tee::{file_name_of, saved_text, should_tee, tee_content, tee_file_name};
use crate::tee::{settings_of, wants_forced_tee, wants_tee};
use crate::tee_config::{TeeConfig, MIN_TEE_SIZE};
use crate::text::{byte_count, byte_len, same_text};
use std::path::PathBuf;
use vstd::prelude::*;

verus! {

/// Why an output is to be saved.
#[derive(Debug, Clone, Copy)]
pub enum Trigger {
    /// The command ended with this exit code; the settings decide.
    Exit(i32),
    /// The output was truncated: it is saved regardless of the exit code.
    Forced,
}

/// How far a run has come.
#[derive(Debug)]
pub enum Stage {
    /// The value of `RTK_TEE` is to be reported.
    Switch,
    /// The settings and the directory are to be reported.
    Settings,
    /// The directory is being made.
    Directory { dir: PathBuf, max_file_size: usize, max_files: usize },
    /// The time is to be reported.
    Clock { dir: PathBuf, max_file_size: usize, max_files: usize },
    /// The file is being written.
    Write { dir: PathBuf, path: PathBuf, max_files: usize },
    /// The files of the directory are to be reported.
    Listing { path: PathBuf, max_files: usize },
    /// Old files are being removed.
    Removal { path: PathBuf },
    /// The run is over.
    Done,
}

/// The saving of one output.
#[derive(Debug)]
pub struct TeeRun<'a> {
    pub raw: &'a str,
    pub command_slug: &'a str,
    pub trigger: Trigger,
    pub stage: Stage,
}

/// What came of an action.
#[derive(Debug)]
pub enum TeeEvent {
    /// The value of `RTK_TEE`, if it is set.
    Switch(Option<String>),
    /// The tee settings and the directory of saved outputs, if there is one. Nothing, if no
    /// configuration could be loaded.
    Settings(Option<(TeeConfig, Option<PathBuf>)>),
    /// Whether the directory is there now.
    Directory(bool),
    /// The seconds since the start of 1970, if they are known.
    Clock(Option<u64>),
    /// Whether the file was written.
    Written(bool),
    /// The names of the files of the directory.
    Listing(Vec<Vec<u8>>),
    /// The removal of old files was tried.
    Removed,
}

/// What is to be done next.
#[derive(Debug)]
pub enum TeeAction {
    ReadSwitch,
    ReadSettings,
    MakeDirectory(PathBuf),
    ReadClock,
    WriteFile(PathBuf, String),
    ListDirectory(PathBuf),
    /// Remove the files at these indices of the listing.
    RemoveFiles(Vec<usize>),
    /// The run is over; the path of the saved output, if it was saved.
    Finish(Option<PathBuf>),
}

/// Whether the settings permit to save an output of `raw_len` bytes.
pub open spec fn permitted(trigger: Trigger, tee: TeeConfig, raw_len: nat) -> bool {
    match trigger {
        Trigger::Exit(exit_code) => wants_tee(tee, raw_len, exit_code as int),
        Trigger::Forced => wants_forced_tee(tee, raw_len),
    }
}

/// Whether a value of `RTK_TEE` switches tee off.
pub open spec fn switches_off(value: Option<Seq<char>>) -> bool {
    value == Some("0"@)
}

/// Whether a run ends without a file.
pub open spec fn gives_up(after: TeeRun, action: TeeAction) -> bool {
    &&& after.stage == Stage::Done
    &&& action == TeeAction::Finish(None)
}

/// Whether, in the state `before`, the event `event` leads to the state `after` and the action
/// `action`. An event that does not answer the last action ends the run without a file.
pub open spec fn steps(before: TeeRun, event: TeeEvent, after: TeeRun, action: TeeAction) -> bool {
    let raw_len = byte_len(before.raw@);
    &&& after.raw == before.raw
    &&& after.command_slug == before.command_slug
    &&& after.trigger == before.trigger
    &&& match (before.stage, event) {
        (Stage::Switch, TeeEvent::Switch(value)) => {
            if switches_off(text_of(value)) || (before.trigger is Forced && raw_len
                < MIN_TEE_SIZE) {
                gives_up(after, action)
            } else {
                after.stage == Stage::Settings && action == TeeAction::ReadSettings
            }
        },
        (Stage::Settings, TeeEvent::Settings(Some((tee, Some(dir))))) => {
            if permitted(before.trigger, tee, raw_len) {
                &&& after.stage == Stage::Directory {
                    dir,
                    max_file_size: tee.max_file_size,
                    max_files: tee.max_files,
                }
                &&& action == TeeAction::MakeDirectory(dir)
            } else {
                gives_up(after, action)
            }
        },
        (Stage::Directory { dir, max_file_size, max_files }, TeeEvent::Directory(true)) => {
            &&& after.stage == Stage::Clock { dir, max_file_size, max_files }
            &&& action == TeeAction::ReadClock
        },
        (Stage::Clock { dir, max_file_size, max_files }, TeeEvent::Clock(Some(epoch))) => {
            let path = path_joined(dir, file_name_of(epoch as nat, before.command_slug@));
            &&& after.stage == Stage::Write { dir, path, max_files }
            &&& action matches TeeAction::WriteFile(to, text)
            &&& to == path
            &&& text@ == saved_text(before.raw@, max_file_size as nat)
        },
        (Stage::Write { dir, path, max_files }, TeeEvent::Written(true)) => {
            &&& after.stage == Stage::Listing { path, max_files }
            &&& action == TeeAction::ListDirectory(dir)
        },
        (Stage::Listing { path, max_files }, TeeEvent::Listing(names)) => {
            &&& after.stage == Stage::Removal { path }
            &&& action matches TeeAction::RemoveFiles(removed)
            &&& rotates_out(names_of(names@), max_files as nat, removed@)
        },
        (Stage::Removal { path }, TeeEvent::Removed) => {
            &&& after.stage == Stage::Done
            &&& action == TeeAction::Finish(Some(path))
        },
        _ => gives_up(after, action),
    }
}

/// Begins to save the raw output of a command that ended with `exit_code`, if the conditions are
/// met. The first action is [`TeeAction::ReadSwitch`].
pub fn tee_raw<'a>(raw: &'a str, command_slug: &'a str, exit_code: i32) -> (res: TeeRun<'a>)
    ensures
        res == (TeeRun { raw, command_slug, trigger: Trigger::Exit(exit_code), stage: Stage::Switch }),
{
    TeeRun { raw, command_slug, trigger: Trigger::Exit(exit_code), stage: Stage::Switch }
}

/// Begins to save a raw output regardless of exit code (used when filters truncate), if its size is
/// at least [`MIN_TEE_SIZE`] and tee is enabled. The first action is [`TeeAction::ReadSwitch`].
pub fn force_tee_hint<'a>(raw: &'a str, command_slug: &'a str) -> (res: TeeRun<'a>)
    ensures
        res == (TeeRun { raw, command_slug, trigger: Trigger::Forced, stage: Stage::Switch }),
{
    TeeRun { raw, command_slug, trigger: Trigger::Forced, stage: Stage::Switch }
}

/// Begins to write a raw output to a file in the given directory, whatever the settings say. The
/// first action is [`TeeAction::MakeDirectory`], with that directory.
pub fn write_tee_file<'a>(
    raw: &'a str,
    command_slug: &'a str,
    tee_dir: PathBuf,
    max_file_size: usize,
    max_files: usize,
) -> (res: TeeRun<'a>)
    ensures
        res == (TeeRun {
            raw,
            command_slug,
            trigger: Trigger::Forced,
            stage: Stage::Directory { dir: tee_dir, max_file_size, max_files },
        }),
{
    TeeRun {
        raw,
        command_slug,
        trigger: Trigger::Forced,
        stage: Stage::Directory { dir: tee_dir, max_file_size, max_files },
    }
}

/// Whether a value of `RTK_TEE` switches tee off.
pub fn is_switched_off(value: &Option<String>) -> (res: bool)
    ensures
        res == switches_off(text_of(*value)),
{
    match value {
        Some(value) => same_text(value.as_str(), "0"),
        None => false,
    }
}

/// The directory to save to, if the settings permit to save.
fn permitted_dir(trigger: Trigger, tee: &TeeConfig, raw_len: usize, dir: PathBuf) -> (res: Option<
    PathBuf,
>)
    ensures
        res == (if permitted(trigger, *tee, raw_len as nat) {
            Some(dir)
        } else {
            None
        }),
{
    match trigger {
        Trigger::Exit(exit_code) => should_tee(tee, raw_len, exit_code, Some(dir)),
        Trigger::Forced => if tee.enabled && raw_len >= MIN_TEE_SIZE {
            Some(dir)
        } else {
            None
        },
    }
}

/// Takes the next step of a run.
pub fn step<'a>(run: TeeRun<'a>, event: TeeEvent) -> (res: (TeeRun<'a>, TeeAction))
    ensures
        steps(run, event, res.0, res.1),
{
    let raw: &'a str = run.raw;
    let command_slug: &'a str = run.command_slug;
    let trigger: Trigger = run.trigger;
    let (stage, action): (Stage, TeeAction) = match (run.stage, event) {
        (Stage::Switch, TeeEvent::Switch(value)) => {
            let too_small: bool = match trigger {
                Trigger::Exit(_) => false,
                Trigger::Forced => byte_count(raw) < MIN_TEE_SIZE,
            };
            if is_switched_off(&value) || too_small {
                (Stage::Done, TeeAction::Finish(None))
            } else {
                (Stage::Settings, TeeAction::ReadSettings)
            }
        },
        (Stage::Settings, TeeEvent::Settings(Some((tee, Some(dir))))) => {
            match permitted_dir(trigger, &tee, byte_count(raw), dir) {
                Some(dir) => (
                    Stage::Directory {
                        dir: dir.clone(),
                        max_file_size: tee.max_file_size,
                        max_files: tee.max_files,
                    },
                    TeeAction::MakeDirectory(dir),
                ),
                None => (Stage::Done, TeeAction::Finish(None)),
            }
        },
        (Stage::Directory { dir, max_file_size, max_files }, TeeEvent::Directory(true)) => {
            (Stage::Clock { dir, max_file_size, max_files }, TeeAction::ReadClock)
        },
        (Stage::Clock { dir, max_file_size, max_files }, TeeEvent::Clock(Some(epoch))) => {
            let name: String = tee_file_name(epoch, command_slug);
            let path: PathBuf = join(&dir, name.as_str());
            let text: String = tee_content(raw, max_file_size);
            (Stage::Write { dir, path: path.clone(), max_files }, TeeAction::WriteFile(path, text))
        },
        (Stage::Write { dir, path, max_files }, TeeEvent::Written(true)) => {
            (Stage::Listing { path, max_files }, TeeAction::ListDirectory(dir))
        },
        (Stage::Listing { path, max_files }, TeeEvent::Listing(names)) => {
            let removed: Vec<usize> = cleanup_old_files(&names, max_files);
            (Stage::Removal { path }, TeeAction::RemoveFiles(removed))
        },
        (Stage::Removal { path }, TeeEvent::Removed) => {
            (Stage::Done, TeeAction::Finish(Some(path)))
        },
        _ => (Stage::Done, TeeAction::Finish(None)),
    };
    (TeeRun { raw, command_slug, trigger, stage }, action)
}

// ---------------------------------------------------------------------------
// Laws
// ---------------------------------------------------------------------------

/// One turn of a run: what was reported, where that led, and what was to be done.
pub struct Turn<'a> {
    pub event: TeeEvent,
    pub run: TeeRun<'a>,
    pub action: TeeAction,
}

/// The state in which turn `k` of a run begins.
pub open spec fn state_at<'a>(start: TeeRun<'a>, turns: Seq<Turn<'a>>, k: int) -> TeeRun<'a> {
    if k <= 0 {
        start
    } else {
        turns[k - 1].run
    }
}

/// Whether `turns` are turns of a run from the state `start` on, whatever was reported.
pub open spec fn goes_on<'a>(start: TeeRun<'a>, turns: Seq<Turn<'a>>) -> bool {
    forall|k: int|
        0 <= k < turns.len() ==> steps(
            state_at(start, turns, k),
            (#[trigger] turns[k]).event,
            turns[k].run,
            turns[k].action,
        )
}

/// Whether `turns` are the turns of a run that begins with `start`, whatever was reported.
pub open spec fn is_run<'a>(start: TeeRun<'a>, turns: Seq<Turn<'a>>) -> bool {
    start.stage == Stage::Switch && goes_on(start, turns)
}

/// Whether an event reports that something could not be had or done.
pub open spec fn is_failure(event: TeeEvent) -> bool {
    match event {
        TeeEvent::Settings(None) => true,
        TeeEvent::Settings(Some((_, None))) => true,
        TeeEvent::Directory(false) => true,
        TeeEvent::Clock(None) => true,
        TeeEvent::Written(false) => true,
        _ => false,
    }
}

/// Whether an action reaches for the disk to change it.
pub open spec fn changes_disk(action: TeeAction) -> bool {
    action is MakeDirectory || action is WriteFile || action is RemoveFiles
}

/// The number of turns after which a stage is reached.
spec fn turns_before(stage: Stage) -> int {
    match stage {
        Stage::Switch => 0,
        Stage::Settings => 1,
        Stage::Directory { .. } => 2,
        Stage::Clock { .. } => 3,
        Stage::Write { .. } => 4,
        Stage::Listing { .. } => 5,
        Stage::Removal { .. } => 6,
        Stage::Done => 7,
    }
}

/// What the turns of a run have in common: it keeps its output, slug and trigger, and goes through
/// its stages one by one.
proof fn lemma_run<'a>(start: TeeRun<'a>, turns: Seq<Turn<'a>>, k: int)
    requires
        is_run(start, turns),
        0 <= k <= turns.len(),
    ensures
        state_at(start, turns, k).raw == start.raw,
        state_at(start, turns, k).command_slug == start.command_slug,
        state_at(start, turns, k).trigger == start.trigger,
        state_at(start, turns, k).stage is Done || turns_before(
            state_at(start, turns, k).stage,
        ) == k,
    decreases k,
{
    if k > 0 {
        lemma_run(start, turns, k - 1);
        assert(steps(
            state_at(start, turns, k - 1),
            turns[k - 1].event,
            turns[k - 1].run,
            turns[k - 1].action,
        ));
    }
}

/// What a run that has come past the settings knows: the switch was not off, and the settings that
/// it carries on were reported and permit to save.
proof fn lemma_run_is_permitted<'a>(start: TeeRun<'a>, turns: Seq<Turn<'a>>, k: int)
    requires
        is_run(start, turns),
        1 <= k <= turns.len(),
        !(state_at(start, turns, k).stage is Done),
    ensures
        turns[0].event matches TeeEvent::Switch(value) && !switches_off(text_of(value)),
        k >= 2 ==> (turns[1].event matches TeeEvent::Settings(Some((tee, Some(dir)))) && permitted(
            start.trigger,
            tee,
            byte_len(start.raw@),
        )),
    decreases k,
{
    lemma_run(start, turns, k);
    lemma_run(start, turns, k - 1);
    assert(steps(
        state_at(start, turns, k - 1),
        turns[k - 1].event,
        turns[k - 1].run,
        turns[k - 1].action,
    ));
    if k >= 2 {
        lemma_run_is_permitted(start, turns, k - 1);
    }
}

/// The turns of a run up to turn `n`, one by one.
proof fn lemma_early_turns<'a>(start: TeeRun<'a>, turns: Seq<Turn<'a>>, n: int)
    requires
        is_run(start, turns),
        0 <= n < turns.len(),
        n <= 6,
    ensures
        steps(state_at(start, turns, n), turns[n].event, turns[n].run, turns[n].action),
        state_at(start, turns, n).raw == start.raw,
        state_at(start, turns, n).command_slug == start.command_slug,
        state_at(start, turns, n).trigger == start.trigger,
        state_at(start, turns, n).stage is Done || turns_before(state_at(start, turns, n).stage)
            == n,
        n >= 1 ==> steps(start, turns[0].event, turns[0].run, turns[0].action),
        n >= 2 ==> turn_steps(start, turns, 1),
        n >= 3 ==> turn_steps(start, turns, 2),
        n >= 4 ==> turn_steps(start, turns, 3),
        n >= 5 ==> turn_steps(start, turns, 4),
        n >= 6 ==> turn_steps(start, turns, 5),
    decreases n,
{
    lemma_run(start, turns, n);
    assert(steps(state_at(start, turns, n), turns[n].event, turns[n].run, turns[n].action));
    if n > 0 {
        lemma_early_turns(start, turns, n - 1);
    }
}

/// Whether turn `k` is a step from the turn before it, of a run that began with `start`.
spec fn turn_steps<'a>(start: TeeRun<'a>, turns: Seq<Turn<'a>>, k: int) -> bool {
    &&& steps(turns[k - 1].run, turns[k].event, turns[k].run, turns[k].action)
    &&& turns[k - 1].run.raw == start.raw
    &&& turns[k - 1].run.command_slug == start.command_slug
    &&& turns[k - 1].run.trigger == start.trigger
}

/// Nothing on disk is changed unless the switch is not off and the reported settings permit to save
/// this output.
pub proof fn law_disk_is_changed_with_permission_only<'a>(
    start: TeeRun<'a>,
    turns: Seq<Turn<'a>>,
    k: int,
)
    requires
        is_run(start, turns),
        0 <= k < turns.len(),
        changes_disk(turns[k].action),
    ensures
        turns[0].event matches TeeEvent::Switch(value) && !switches_off(text_of(value)),
        turns[1].event matches TeeEvent::Settings(Some((tee, Some(dir)))) && permitted(
            start.trigger,
            tee,
            byte_len(start.raw@),
        ),
{
    lemma_run(start, turns, k);
    lemma_run(start, turns, k + 1);
    assert(steps(state_at(start, turns, k), turns[k].event, turns[k].run, turns[k].action));
    lemma_run_is_permitted(start, turns, k + 1);
}

/// A run that is switched off ends at once, without a file.
pub proof fn law_switched_off_run_ends<'a>(start: TeeRun<'a>, turns: Seq<Turn<'a>>)
    requires
        is_run(start, turns),
        turns.len() > 0,
        turns[0].event matches TeeEvent::Switch(value) && switches_off(text_of(value)),
    ensures
        turns[0].action == TeeAction::Finish(None),
{
    assert(steps(start, turns[0].event, turns[0].run, turns[0].action));
}

/// A forced run of a small output ends at once, without a file, and without the configuration being
/// loaded.
pub proof fn law_small_forced_run_ends<'a>(start: TeeRun<'a>, turns: Seq<Turn<'a>>)
    requires
        is_run(start, turns),
        turns.len() > 0,
        start.trigger is Forced,
        byte_len(start.raw@) < MIN_TEE_SIZE,
    ensures
        turns[0].action == TeeAction::Finish(None),
{
    assert(steps(start, turns[0].event, turns[0].run, turns[0].action));
}

/// A run that is over stays over: it has nothing more to do.
pub proof fn law_ended_run_stays_ended(
    before: TeeRun,
    event: TeeEvent,
    after: TeeRun,
    action: TeeAction,
)
    requires
        before.stage is Done,
        steps(before, event, after, action),
    ensures
        after.stage is Done,
        action == TeeAction::Finish(None),
{
}

/// A failure ends a run without a file and without an error.
pub proof fn law_failure_ends_run(
    before: TeeRun,
    event: TeeEvent,
    after: TeeRun,
    action: TeeAction,
)
    requires
        is_failure(event),
        steps(before, event, after, action),
    ensures
        gives_up(after, action),
{
}

/// Every run is over after seven turns.
pub proof fn law_run_ends<'a>(start: TeeRun<'a>, turns: Seq<Turn<'a>>)
    requires
        is_run(start, turns),
        turns.len() >= 7,
    ensures
        turns[6].action is Finish,
{
    lemma_run(start, turns, 6);
    lemma_run(start, turns, 7);
    assert(steps(state_at(start, turns, 6), turns[6].event, turns[6].run, turns[6].action));
}

/// Where a run ends with a path, that is where what is saved of the output was written: in the
/// reported directory, under the name of the reported time and the command.
pub proof fn law_reported_path_was_written<'a>(
    start: TeeRun<'a>,
    turns: Seq<Turn<'a>>,
    k: int,
    path: PathBuf,
)
    requires
        is_run(start, turns),
        0 <= k < turns.len(),
        turns[k].action == TeeAction::Finish(Some(path)),
    ensures
        k == 6,
        turns[1].event matches TeeEvent::Settings(Some((tee, Some(dir))))
            && turns[3].event matches TeeEvent::Clock(Some(epoch)) && {
            &&& path == path_joined(dir, file_name_of(epoch as nat, start.command_slug@))
            &&& turns[3].action matches TeeAction::WriteFile(to, text)
            &&& to == path
            &&& text@ == saved_text(start.raw@, tee.max_file_size as nat)
        },
        turns[4].event == TeeEvent::Written(true),
{
    lemma_run(start, turns, k);
    assert(steps(state_at(start, turns, k), turns[k].event, turns[k].run, turns[k].action));
    lemma_early_turns(start, turns, 6);
}

/// A run that is told the settings of a configuration saves into the directory that these settings
/// and the environment choose, and nowhere else.
pub proof fn law_saved_where_settings_say<'a>(
    start: TeeRun<'a>,
    turns: Seq<Turn<'a>>,
    k: int,
    path: PathBuf,
    loaded: Result<Config, ConfigError>,
    env_dir: Option<Seq<char>>,
    data_dir: Option<PathBuf>,
)
    requires
        is_run(start, turns),
        0 <= k < turns.len(),
        turns[k].action == TeeAction::Finish(Some(path)),
        turns[1].event == TeeEvent::Settings(settings_of(loaded, env_dir, data_dir)),
    ensures
        loaded matches Ok(config)
            && chosen_tee_dir(env_dir, config.tee.directory, data_dir) matches Some(dir)
            && turns[3].event matches TeeEvent::Clock(Some(epoch)) && path == path_joined(
            dir,
            file_name_of(epoch as nat, start.command_slug@),
        ),
{
    law_reported_path_was_written(start, turns, k, path);
}

/// Where everything that a permitted run asks for succeeds, it ends with a path.
pub proof fn law_permitted_run_saves<'a>(
    start: TeeRun<'a>,
    turns: Seq<Turn<'a>>,
    tee: TeeConfig,
    dir: PathBuf,
    epoch: u64,
)
    requires
        is_run(start, turns),
        turns.len() == 7,
        turns[0].event matches TeeEvent::Switch(value) && !switches_off(text_of(value)),
        turns[1].event == TeeEvent::Settings(Some((tee, Some(dir)))),
        permitted(start.trigger, tee, byte_len(start.raw@)),
        turns[2].event == TeeEvent::Directory(true),
        turns[3].event == TeeEvent::Clock(Some(epoch)),
        turns[4].event == TeeEvent::Written(true),
        turns[5].event is Listing,
        turns[6].event is Removed,
    ensures
        turns[6].action == TeeAction::Finish(
            Some(path_joined(dir, file_name_of(epoch as nat, start.command_slug@))),
        ),
{
    lemma_early_turns(start, turns, 6);
}

/// Where a file is to be written and everything that is asked for succeeds, what is saved of the
/// output is written into the directory, under the name of the time and the command, and that path
/// is what the run ends with.
pub proof fn law_written_file_is_reported<'a>(
    start: TeeRun<'a>,
    turns: Seq<Turn<'a>>,
    dir: PathBuf,
    max_file_size: usize,
    max_files: usize,
    epoch: u64,
)
    requires
        goes_on(start, turns),
        start.stage == (Stage::Directory { dir, max_file_size, max_files }),
        turns.len() == 5,
        turns[0].event == TeeEvent::Directory(true),
        turns[1].event == TeeEvent::Clock(Some(epoch)),
        turns[2].event == TeeEvent::Written(true),
        turns[3].event is Listing,
        turns[4].event is Removed,
    ensures
        ({
            let path = path_joined(dir, file_name_of(epoch as nat, start.command_slug@));
            &&& turns[1].action matches TeeAction::WriteFile(to, text)
            &&& to == path
            &&& text@ == saved_text(start.raw@, max_file_size as nat)
            &&& turns[4].action == TeeAction::Finish(Some(path))
        }),
{
    assert(steps(start, turns[0].event, turns[0].run, turns[0].action));
    assert(steps(turns[0].run, turns[1].event, turns[1].run, turns[1].action));
    assert(steps(turns[1].run, turns[2].event, turns[2].run, turns[2].action));
    assert(steps(turns[2].run, turns[3].event, turns[3].run, turns[3].action));
    assert(steps(turns[3].run, turns[4].event, turns[4].run, turns[4].action));
}

/// After a file was written, as many of the oldest log files are removed as there are too many.
pub proof fn law_written_run_rotates<'a>(start: TeeRun<'a>, turns: Seq<Turn<'a>>)
    requires
        is_run(start, turns),
        turns.len() > 5,
        turns[4].action is ListDirectory,
        turns[5].event is Listing,
    ensures
        turns[1].event matches TeeEvent::Settings(Some((tee, Some(dir)))) && {
            &&& turns[5].event matches TeeEvent::Listing(names)
            &&& turns[5].action matches TeeAction::RemoveFiles(removed)
            &&& rotates_out(names_of(names@), tee.max_files as nat, removed@)
        },
{
    lemma_early_turns(start, turns, 5);
}

} // verus!
