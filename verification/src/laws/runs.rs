//! Laws on saving an output step by step, over the calls of [`step`].
use crate::chronology::law_rotation_is_determined;
use crate::paths::path_joined;
use crate::rotation::{cleanup_old_files, names_of};
use crate::tee::{tee_content, tee_file_name};
use crate::tee_config::{TeeConfig, TeeMode};
use crate::tee_run::{force_tee_hint, is_switched_off, step, tee_raw, write_tee_file};
use crate::tee_run::{Stage, TeeAction, TeeEvent, TeeRun, Trigger};
use crate::text::byte_len;
use std::path::PathBuf;
use vstd::prelude::*;

verus! {

/// Whether a value of `RTK_TEE` is "0".
pub open spec fn is_zero(value: Option<String>) -> bool {
    value matches Some(text) && text@ == seq!['0']
}

/// Only the value "0" switches tee off.
pub proof fn law_is_switched_off(value: &Option<String>, res: bool)
    requires
        call_ensures(is_switched_off, (value,), res),
    ensures
        res <==> is_zero(*value),
{
    reveal_strlit("0");
    assert("0"@ =~= seq!['0']);
}

/// Whether an output of a command that ended with `exit_code` is to be saved: tee is enabled, the
/// output has at least 500 bytes, and the mode is "always", or is "failures" and the command failed.
pub open spec fn to_be_saved(tee: TeeConfig, raw: Seq<char>, exit_code: i32) -> bool {
    &&& tee.enabled
    &&& byte_len(raw) >= 500
    &&& tee.mode == TeeMode::Always || (tee.mode == TeeMode::Failures && exit_code != 0)
}

/// Whether an output is to be saved regardless of the exit code: tee is enabled, and the output has
/// at least 500 bytes.
pub open spec fn to_be_saved_anyway(tee: TeeConfig, raw: Seq<char>) -> bool {
    tee.enabled && byte_len(raw) >= 500
}

/// Whether a run asks for an output to be saved under these settings.
pub open spec fn asks_for(run: TeeRun, tee: TeeConfig) -> bool {
    match run.trigger {
        Trigger::Exit(exit_code) => to_be_saved(tee, run.raw@, exit_code),
        Trigger::Forced => to_be_saved_anyway(tee, run.raw@),
    }
}

/// Whether a run ended without a file.
pub open spec fn gave_up(res: (TeeRun, TeeAction)) -> bool {
    res.0.stage is Done && res.1 == TeeAction::Finish(None)
}

/// A run begins with the switch, and remembers its output, its command and why it began.
pub proof fn law_runs_begin<'a>(
    raw: &'a str,
    command_slug: &'a str,
    exit_code: i32,
    run: TeeRun<'a>,
    forced: TeeRun<'a>,
)
    requires
        call_ensures(tee_raw, (raw, command_slug, exit_code), run),
        call_ensures(force_tee_hint, (raw, command_slug), forced),
    ensures
        run.raw@ == raw@ && run.command_slug@ == command_slug@,
        run.trigger == Trigger::Exit(exit_code) && run.stage is Switch,
        forced.raw@ == raw@ && forced.command_slug@ == command_slug@,
        forced.trigger is Forced && forced.stage is Switch,
{
}

/// The writing of a file begins with its directory.
pub proof fn law_writing_begins<'a>(
    raw: &'a str,
    command_slug: &'a str,
    tee_dir: PathBuf,
    max_file_size: usize,
    max_files: usize,
    run: TeeRun<'a>,
)
    requires
        call_ensures(
            write_tee_file,
            (raw, command_slug, tee_dir, max_file_size, max_files),
            run,
        ),
    ensures
        run.raw@ == raw@ && run.command_slug@ == command_slug@,
        run.stage == (Stage::Directory { dir: tee_dir, max_file_size, max_files }),
{
}

/// No step changes the output, the command or the reason of a run.
pub proof fn law_step_keeps_the_run<'a>(
    run: TeeRun<'a>,
    event: TeeEvent,
    res: (TeeRun<'a>, TeeAction),
)
    requires
        call_ensures(step, (run, event), res),
    ensures
        res.0.raw@ == run.raw@,
        res.0.command_slug@ == run.command_slug@,
        res.0.trigger == run.trigger,
{
}

/// A run goes on to the settings unless the switch is off; a forced run of a small output does not
/// even do that.
pub proof fn law_step_on_switch<'a>(
    run: TeeRun<'a>,
    value: Option<String>,
    res: (TeeRun<'a>, TeeAction),
)
    requires
        run.stage is Switch,
        call_ensures(step, (run, TeeEvent::Switch(value)), res),
    ensures
        is_zero(value) ==> gave_up(res),
        run.trigger is Forced && byte_len(run.raw@) < 500 ==> gave_up(res),
        !is_zero(value) && !(run.trigger is Forced && byte_len(run.raw@) < 500) ==> res.0.stage
            is Settings && res.1 is ReadSettings,
{
    reveal_strlit("0");
    assert("0"@ =~= seq!['0']);
}

/// A run goes on to make the directory exactly if the settings ask for the output to be saved and
/// there is a directory, and it carries on the sizes that they say.
pub proof fn law_step_on_settings<'a>(
    run: TeeRun<'a>,
    settings: Option<(TeeConfig, Option<PathBuf>)>,
    res: (TeeRun<'a>, TeeAction),
)
    requires
        run.stage is Settings,
        call_ensures(step, (run, TeeEvent::Settings(settings)), res),
    ensures
        match settings {
            Some((tee, Some(dir))) => if asks_for(run, tee) {
                &&& res.1 == TeeAction::MakeDirectory(dir)
                &&& res.0.stage == (Stage::Directory {
                    dir,
                    max_file_size: tee.max_file_size,
                    max_files: tee.max_files,
                })
            } else {
                gave_up(res)
            },
            _ => gave_up(res),
        },
{
}

/// With its directory made, a run asks for the time; without, it gives up.
pub proof fn law_step_on_directory<'a>(
    run: TeeRun<'a>,
    made: bool,
    dir: PathBuf,
    max_file_size: usize,
    max_files: usize,
    res: (TeeRun<'a>, TeeAction),
)
    requires
        run.stage == (Stage::Directory { dir, max_file_size, max_files }),
        call_ensures(step, (run, TeeEvent::Directory(made)), res),
    ensures
        made ==> res.1 is ReadClock && res.0.stage == (Stage::Clock {
            dir,
            max_file_size,
            max_files,
        }),
        !made ==> gave_up(res),
{
}

/// With the time known, a run writes what is saved of the output into its directory, under the name
/// for the time and the command; without, it gives up.
pub proof fn law_step_on_clock<'a>(
    run: TeeRun<'a>,
    epoch: u64,
    dir: PathBuf,
    max_file_size: usize,
    max_files: usize,
    name: String,
    content: String,
    res: (TeeRun<'a>, TeeAction),
    unknown: (TeeRun<'a>, TeeAction),
)
    requires
        run.stage == (Stage::Clock { dir, max_file_size, max_files }),
        call_ensures(step, (run, TeeEvent::Clock(Some(epoch))), res),
        call_ensures(step, (run, TeeEvent::Clock(None)), unknown),
        call_ensures(tee_file_name, (epoch, run.command_slug), name),
        call_ensures(tee_content, (run.raw, max_file_size), content),
    ensures
        ({
            let path = path_joined(dir, name@);
            &&& res.0.stage == (Stage::Write { dir, path, max_files })
            &&& res.1 matches TeeAction::WriteFile(to, text)
            &&& to == path
            &&& text@ == content@
        }),
        gave_up(unknown),
{
}

/// With its file written, a run looks for old files in its directory; without, it gives up.
pub proof fn law_step_on_written<'a>(
    run: TeeRun<'a>,
    written: bool,
    dir: PathBuf,
    path: PathBuf,
    max_files: usize,
    res: (TeeRun<'a>, TeeAction),
)
    requires
        run.stage == (Stage::Write { dir, path, max_files }),
        call_ensures(step, (run, TeeEvent::Written(written)), res),
    ensures
        written ==> res.1 == TeeAction::ListDirectory(dir) && res.0.stage == (Stage::Listing {
            path,
            max_files,
        }),
        !written ==> gave_up(res),
{
}

/// Of the listed files, a run removes those that the rotation chooses.
pub proof fn law_step_on_listing<'a>(
    run: TeeRun<'a>,
    names: Vec<Vec<u8>>,
    path: PathBuf,
    max_files: usize,
    chosen: Vec<usize>,
    res: (TeeRun<'a>, TeeAction),
)
    requires
        run.stage == (Stage::Listing { path, max_files }),
        call_ensures(step, (run, TeeEvent::Listing(names)), res),
        call_ensures(cleanup_old_files, (&names, max_files), chosen),
    ensures
        res.0.stage == (Stage::Removal { path }),
        res.1 matches TeeAction::RemoveFiles(removed) && removed@ == chosen@,
{
    let removed = res.1->RemoveFiles_0;
    law_rotation_is_determined(names_of(names@), max_files as nat, removed@, chosen@);
}

/// After the removal a run is over, and reports its file.
pub proof fn law_step_on_removed<'a>(
    run: TeeRun<'a>,
    path: PathBuf,
    res: (TeeRun<'a>, TeeAction),
)
    requires
        run.stage == (Stage::Removal { path }),
        call_ensures(step, (run, TeeEvent::Removed), res),
    ensures
        res.0.stage is Done,
        res.1 == TeeAction::Finish(Some(path)),
{
}

/// Whether an event answers what a run asked for at its stage.
pub open spec fn answers(stage: Stage, event: TeeEvent) -> bool {
    match stage {
        Stage::Switch => event is Switch,
        Stage::Settings => event is Settings,
        Stage::Directory { .. } => event is Directory,
        Stage::Clock { .. } => event is Clock,
        Stage::Write { .. } => event is Written,
        Stage::Listing { .. } => event is Listing,
        Stage::Removal { .. } => event is Removed,
        Stage::Done => false,
    }
}

/// A run gives up on an event that answers nothing, and has nothing to do when it is over.
pub proof fn law_step_on_other_events<'a>(
    run: TeeRun<'a>,
    event: TeeEvent,
    res: (TeeRun<'a>, TeeAction),
)
    requires
        call_ensures(step, (run, event), res),
        !answers(run.stage, event),
    ensures
        gave_up(res),
{
}

/// Whether a run went through these steps: event `k` came in state `k` and led to state `k + 1` and
/// action `k`.
pub open spec fn went_through<'a>(
    runs: Seq<TeeRun<'a>>,
    events: Seq<TeeEvent>,
    actions: Seq<TeeAction>,
) -> bool {
    &&& runs.len() == events.len() + 1
    &&& actions.len() == events.len()
    &&& forall|k: int|
        0 <= k < events.len() ==> call_ensures(
            step,
            (runs[k], #[trigger] events[k]),
            (runs[k + 1], actions[k]),
        )
}

/// The output of a command is saved if the switch is not off, the settings want it, and everything
/// that is asked for succeeds: into the directory, under the name for the time and the command; the
/// old files that the rotation chooses go, and the path of the file is reported.
pub proof fn law_wanted_output_is_saved<'a>(
    raw: &'a str,
    command_slug: &'a str,
    exit_code: i32,
    runs: Seq<TeeRun<'a>>,
    events: Seq<TeeEvent>,
    actions: Seq<TeeAction>,
    value: Option<String>,
    tee: TeeConfig,
    dir: PathBuf,
    epoch: u64,
    names: Vec<Vec<u8>>,
    name: String,
    content: String,
    chosen: Vec<usize>,
)
    requires
        went_through(runs, events, actions),
        call_ensures(tee_raw, (raw, command_slug, exit_code), runs[0]) || call_ensures(
            force_tee_hint,
            (raw, command_slug),
            runs[0],
        ),
        events == seq![
            TeeEvent::Switch(value),
            TeeEvent::Settings(Some((tee, Some(dir)))),
            TeeEvent::Directory(true),
            TeeEvent::Clock(Some(epoch)),
            TeeEvent::Written(true),
            TeeEvent::Listing(names),
            TeeEvent::Removed,
        ],
        !is_zero(value),
        asks_for(runs[0], tee),
        call_ensures(tee_file_name, (epoch, command_slug), name),
        call_ensures(tee_content, (raw, tee.max_file_size), content),
        call_ensures(cleanup_old_files, (&names, tee.max_files), chosen),
    ensures
        actions[0] is ReadSettings,
        actions[1] == TeeAction::MakeDirectory(dir),
        actions[2] is ReadClock,
        actions[3] matches TeeAction::WriteFile(to, text) && to == path_joined(dir, name@) && text@
            == content@,
        actions[4] == TeeAction::ListDirectory(dir),
        actions[5] matches TeeAction::RemoveFiles(removed) && removed@ == chosen@,
        actions[6] == TeeAction::Finish(Some(path_joined(dir, name@))),
{
    assert(events[0] == TeeEvent::Switch(value));
    law_step_on_switch(runs[0], value, (runs[1], actions[0]));
    assert(events[1] == TeeEvent::Settings(Some((tee, Some(dir)))));
    law_step_on_settings(runs[1], Some((tee, Some(dir))), (runs[2], actions[1]));
    assert(events[2] == TeeEvent::Directory(true));
    assert(events[3] == TeeEvent::Clock(Some(epoch)));
    assert(events[4] == TeeEvent::Written(true));
    assert(events[5] == TeeEvent::Listing(names));
    let path = path_joined(dir, name@);
    assert(runs[4].stage == (Stage::Write { dir, path, max_files: tee.max_files }));
    law_step_on_listing(runs[5], names, path, tee.max_files, chosen, (runs[6], actions[5]));
    assert(events[6] == TeeEvent::Removed);
}

/// Whether an action changes what is on disk.
pub open spec fn touches_disk(action: TeeAction) -> bool {
    action is MakeDirectory || action is WriteFile || action is RemoveFiles
}

/// An output that is not wanted is not saved, whatever is reported: where the switch is off or the
/// settings do not ask for it, the disk is not touched and no path is reported.
pub proof fn law_unwanted_output_is_not_saved<'a>(
    raw: &'a str,
    command_slug: &'a str,
    exit_code: i32,
    runs: Seq<TeeRun<'a>>,
    events: Seq<TeeEvent>,
    actions: Seq<TeeAction>,
    k: int,
)
    requires
        went_through(runs, events, actions),
        call_ensures(tee_raw, (raw, command_slug, exit_code), runs[0]) || call_ensures(
            force_tee_hint,
            (raw, command_slug),
            runs[0],
        ),
        events.len() >= 2,
        (events[0] matches TeeEvent::Switch(value) ==> is_zero(value)) || (
        events[1] matches TeeEvent::Settings(Some((tee, _))) ==> !asks_for(runs[0], tee)),
        0 <= k < events.len(),
    ensures
        !touches_disk(actions[k]),
        actions[k] is Finish ==> actions[k] == TeeAction::Finish(None),
{
    reveal_strlit("0");
    assert("0"@ =~= seq!['0']);
    assert(call_ensures(step, (runs[0], events[0]), (runs[1], actions[0])));
    assert(call_ensures(step, (runs[1], events[1]), (runs[2], actions[1])));
    assert(runs[2].stage is Done);
    if k >= 2 {
        lemma_stays_over(runs, events, actions, 2, k);
    }
}

proof fn lemma_stays_over<'a>(
    runs: Seq<TeeRun<'a>>,
    events: Seq<TeeEvent>,
    actions: Seq<TeeAction>,
    from: int,
    k: int,
)
    requires
        went_through(runs, events, actions),
        0 <= from <= k < events.len(),
        runs[from].stage is Done,
    ensures
        runs[k + 1].stage is Done,
        actions[k] == TeeAction::Finish(None),
    decreases k - from,
{
    assert(call_ensures(step, (runs[from], events[from]), (runs[from + 1], actions[from])));
    if from < k {
        lemma_stays_over(runs, events, actions, from + 1, k);
    }
}

/// Where a file is to be written and everything that is asked for succeeds, it is written as it is
/// for a wanted output, whatever its size and whatever the settings are.
pub proof fn law_file_is_written<'a>(
    raw: &'a str,
    command_slug: &'a str,
    dir: PathBuf,
    max_file_size: usize,
    max_files: usize,
    runs: Seq<TeeRun<'a>>,
    events: Seq<TeeEvent>,
    actions: Seq<TeeAction>,
    epoch: u64,
    names: Vec<Vec<u8>>,
    name: String,
    content: String,
    chosen: Vec<usize>,
)
    requires
        went_through(runs, events, actions),
        call_ensures(
            write_tee_file,
            (raw, command_slug, dir, max_file_size, max_files),
            runs[0],
        ),
        events == seq![
            TeeEvent::Directory(true),
            TeeEvent::Clock(Some(epoch)),
            TeeEvent::Written(true),
            TeeEvent::Listing(names),
            TeeEvent::Removed,
        ],
        call_ensures(tee_file_name, (epoch, command_slug), name),
        call_ensures(tee_content, (raw, max_file_size), content),
        call_ensures(cleanup_old_files, (&names, max_files), chosen),
    ensures
        actions[0] is ReadClock,
        actions[1] matches TeeAction::WriteFile(to, text) && to == path_joined(dir, name@) && text@
            == content@,
        actions[2] == TeeAction::ListDirectory(dir),
        actions[3] matches TeeAction::RemoveFiles(removed) && removed@ == chosen@,
        actions[4] == TeeAction::Finish(Some(path_joined(dir, name@))),
{
    assert(events[0] == TeeEvent::Directory(true));
    assert(events[1] == TeeEvent::Clock(Some(epoch)));
    assert(events[2] == TeeEvent::Written(true));
    assert(events[3] == TeeEvent::Listing(names));
    let path = path_joined(dir, name@);
    assert(runs[2].stage == (Stage::Write { dir, path, max_files }));
    law_step_on_listing(runs[3], names, path, max_files, chosen, (runs[4], actions[3]));
    assert(events[4] == TeeEvent::Removed);
}

} // verus!
