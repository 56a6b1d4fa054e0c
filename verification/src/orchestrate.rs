//! The run of a plan, step by step.
//!
//! The library decides and the caller acts: the caller reports an event,
//! [`next`] answers with the next stage and with what to do. Starting a
//! process and waiting for it are left to the caller, and so is the pipe
//! between downloader and player, which the system provides.

use crate::command::Outcome;
use crate::config::PlayMode;
use crate::handler::{HandlerError, HandlerErrorView};
use vstd::prelude::*;
use vstd::string::StringExecFns;

verus! {

/// How far the run of a plan has come.
#[derive(Debug, Clone, Copy, PartialEq, Eq, Structural)]
pub enum Stage {
    /// Nothing is started yet.
    Ready,
    /// The downloader of a plan of one process runs.
    Running,
    /// The downloader of a plan of two processes is being started.
    Spawning,
    /// The player reads what the downloader writes.
    Feeding,
    /// The result is reported.
    Finished,
}

/// What the caller reports to the run.
#[derive(Debug)]
pub enum Event {
    /// The run is to begin.
    Start,
    /// The process that was to be started runs now.
    Spawned,
    /// The process that was to be run has ended, or did not start.
    Ended(Outcome),
}

/// What the caller is to do next.
#[derive(Debug)]
pub enum Action {
    /// Run the downloader and report how it ended.
    RunDownloader,
    /// Start the downloader with a pipe as its standard output, do not wait
    /// for it, and report whether it started.
    SpawnDownloader,
    /// Run the player with the downloader's pipe as its standard input and
    /// report how it ended. The handler itself never reads the pipe.
    RunPlayer,
    /// The run is over with this result.
    Report(Result<(), HandlerError>),
}

/// The mathematical value of an [`Action`].
pub ghost enum ActionView {
    RunDownloader,
    SpawnDownloader,
    RunPlayer,
    Report(Result<(), HandlerErrorView>),
}

impl View for Action {
    type V = ActionView;

    open spec fn view(&self) -> ActionView {
        match self {
            Action::RunDownloader => ActionView::RunDownloader,
            Action::SpawnDownloader => ActionView::SpawnDownloader,
            Action::RunPlayer => ActionView::RunPlayer,
            Action::Report(Ok(_)) => ActionView::Report(Ok(())),
            Action::Report(Err(e)) => ActionView::Report(Err(e@)),
        }
    }
}

/// What the exit of the process that decides the result means: code 0 is
/// success; another code is handed on in its lowest eight bits; an end by
/// a signal is a failure without a code.
pub open spec fn spec_exit(code: Option<i32>) -> Result<(), HandlerErrorView> {
    match code {
        Some(c) => if c == 0 {
            Ok(())
        } else {
            Err(HandlerErrorView::DownloaderExited(Some(c as u8)))
        },
        None => Err(HandlerErrorView::DownloaderExited(None)),
    }
}

/// The next stage and what to do, for each stage and event.
///
/// A plan of one process is run and its end decides. Of a plan of two
/// processes the downloader is started first; only when it runs is the
/// player run, and the end of the player decides. A process that did not
/// start ends the run with the error of that process. An event that the
/// stage does not wait for ends the run with an error.
pub open spec fn spec_next(mode: PlayMode, name: Seq<char>, stage: Stage, event: Event) -> (
    Stage,
    ActionView,
) {
    match (stage, event) {
        (Stage::Ready, Event::Start) => if mode == PlayMode::Pipe {
            (Stage::Spawning, ActionView::SpawnDownloader)
        } else {
            (Stage::Running, ActionView::RunDownloader)
        },
        (Stage::Running, Event::Ended(Outcome::Exited(code))) => (
            Stage::Finished,
            ActionView::Report(spec_exit(code)),
        ),
        (Stage::Running, Event::Ended(Outcome::NotStarted(reason))) => (
            Stage::Finished,
            ActionView::Report(Err(HandlerErrorView::FailedRunDownloader(name, reason@))),
        ),
        (Stage::Spawning, Event::Spawned) => (Stage::Feeding, ActionView::RunPlayer),
        (Stage::Spawning, Event::Ended(Outcome::NotStarted(reason))) => (
            Stage::Finished,
            ActionView::Report(Err(HandlerErrorView::FailedRunDownloader(name, reason@))),
        ),
        (Stage::Feeding, Event::Ended(Outcome::Exited(code))) => (
            Stage::Finished,
            ActionView::Report(spec_exit(code)),
        ),
        (Stage::Feeding, Event::Ended(Outcome::NotStarted(reason))) => (
            Stage::Finished,
            ActionView::Report(Err(HandlerErrorView::FailedRunPlayer(reason@))),
        ),
        _ => (Stage::Finished, ActionView::Report(Err(HandlerErrorView::UnexpectedEvent))),
    }
}

/// Judges the exit of the process that decides the result.
pub fn exit_result(code: Option<i32>) -> (r: Result<(), HandlerError>)
    ensures
        match r {
            Ok(_) => spec_exit(code) is Ok,
            Err(e) => spec_exit(code) == Err::<(), _>(e@),
        },
{
    match code {
        Some(c) => if c == 0 {
            Ok(())
        } else {
            Err(HandlerError::DownloaderExited(Some(#[verifier::truncate] (c as u8))))
        },
        None => Err(HandlerError::DownloaderExited(None)),
    }
}

/// Takes the run of a plan one step further: from the stage it is in and
/// what the caller reports, to the next stage and what the caller is to do.
///
/// `mode` is the play mode of the downloader and `name` its name.
pub fn next(mode: PlayMode, name: &str, stage: Stage, event: Event) -> (r: (Stage, Action))
    ensures
        r.0 == spec_next(mode, name@, stage, event).0,
        r.1@ == spec_next(mode, name@, stage, event).1,
        r.0 == Stage::Finished <==> r.1 is Report,
{
    match (stage, event) {
        (Stage::Ready, Event::Start) => match mode {
            PlayMode::Pipe => (Stage::Spawning, Action::SpawnDownloader),
            _ => (Stage::Running, Action::RunDownloader),
        },
        (Stage::Running, Event::Ended(Outcome::Exited(code))) => (
            Stage::Finished,
            Action::Report(exit_result(code)),
        ),
        (Stage::Running, Event::Ended(Outcome::NotStarted(reason))) => (
            Stage::Finished,
            Action::Report(Err(HandlerError::FailedRunDownloader(String::from_str(name), reason))),
        ),
        (Stage::Spawning, Event::Spawned) => (Stage::Feeding, Action::RunPlayer),
        (Stage::Spawning, Event::Ended(Outcome::NotStarted(reason))) => (
            Stage::Finished,
            Action::Report(Err(HandlerError::FailedRunDownloader(String::from_str(name), reason))),
        ),
        (Stage::Feeding, Event::Ended(Outcome::Exited(code))) => (
            Stage::Finished,
            Action::Report(exit_result(code)),
        ),
        (Stage::Feeding, Event::Ended(Outcome::NotStarted(reason))) => (
            Stage::Finished,
            Action::Report(Err(HandlerError::FailedRunPlayer(reason))),
        ),
        _ => (Stage::Finished, Action::Report(Err(HandlerError::UnexpectedEvent))),
    }
}

/// The run is over exactly when a result is reported, and it is over
/// after three steps at most: whatever the caller reports, the third step
/// from the start reports a result.
pub proof fn lemma_run_ends(
    mode: PlayMode,
    name: Seq<char>,
    stage: Stage,
    first: Event,
    second: Event,
    third: Event,
)
    ensures
        spec_next(mode, name, stage, first).0 == Stage::Finished <==> spec_next(
            mode,
            name,
            stage,
            first,
        ).1 is Report,
        ({
            let one = spec_next(mode, name, Stage::Ready, first).0;
            let two = spec_next(mode, name, one, second).0;
            spec_next(mode, name, two, third).0 == Stage::Finished
        }),
{
}

} // verus!
