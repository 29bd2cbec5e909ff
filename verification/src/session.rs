//! One run of the external editor on a scratch file, as a sequence of
//! decisions. The caller does the work (write, launch, read, remove) and
//! reports each result; the functions here say what comes next and what the
//! run returns.

use vstd::prelude::*;
use crate::text::{is_blank, is_blank_spec, strip_final_newline_spec, strip_final_newline};

verus! {

/// Why an editor session gave no text back.
#[derive(Clone, Copy, Debug, PartialEq, Eq, Structural)]
pub enum EditorError {
    /// The scratch file could not be written.
    WriteFailure,
    /// The editor program could not be started.
    SpawnFailure,
    /// The editor ended with a status other than success.
    NonZeroExit,
    /// The scratch file could not be read back.
    ReadFailure,
}

/// What the session waits for.
#[derive(Clone, Copy, Debug, PartialEq, Eq, Structural)]
pub enum SessionPhase {
    /// The scratch file is being written.
    Writing,
    /// The editor is running.
    Running,
    /// The scratch file is being read back.
    Reading,
    /// The session has returned.
    Finished,
}

/// How the attempt to run the editor ended.
#[derive(Clone, Copy, Debug, PartialEq, Eq, Structural)]
pub enum ExitReport {
    /// The program could not be started.
    NotSpawned,
    /// The program ran and reported success.
    Succeeded,
    /// The program ran and reported anything else.
    Failed,
}

/// What the caller reports back to the session.
#[derive(Debug, PartialEq, Eq)]
pub enum SessionEvent {
    /// The write of the scratch file ended, well or not.
    Written { ok: bool },
    /// The attempt to run the editor ended.
    Exited { report: ExitReport },
    /// The read of the scratch file ended: its content, or `None` where it
    /// could not be read.
    ReadBack { content: Option<String> },
}

/// What the caller is to do next.
#[derive(Debug, PartialEq, Eq)]
pub enum SessionAction {
    /// Run the editor on the scratch file and wait for it.
    Launch,
    /// Read the scratch file.
    ReadScratch,
    /// Remove the scratch file if `remove_scratch` says so, ignoring a failure
    /// to do so, and return `outcome`. Every session ends with the removal.
    Finish { remove_scratch: bool, outcome: Result<Option<String>, EditorError> },
    /// The event does not belong to this phase: do nothing.
    Ignore,
}

/// A [`SessionEvent`] as a mathematical value.
pub enum SessionEventView {
    Written { ok: bool },
    Exited { report: ExitReport },
    ReadBack { content: Option<Seq<char>> },
}

/// A [`SessionAction`] as a mathematical value.
pub enum SessionActionView {
    Launch,
    ReadScratch,
    Finish { remove_scratch: bool, outcome: Result<Option<Seq<char>>, EditorError> },
    Ignore,
}

impl View for SessionEvent {
    type V = SessionEventView;

    open spec fn view(&self) -> SessionEventView {
        match *self {
            SessionEvent::Written { ok } => SessionEventView::Written { ok },
            SessionEvent::Exited { report } => SessionEventView::Exited { report },
            SessionEvent::ReadBack { content } => SessionEventView::ReadBack {
                content: match content {
                    Some(text) => Some(text@),
                    None => None,
                },
            },
        }
    }
}

impl View for SessionAction {
    type V = SessionActionView;

    open spec fn view(&self) -> SessionActionView {
        match *self {
            SessionAction::Launch => SessionActionView::Launch,
            SessionAction::ReadScratch => SessionActionView::ReadScratch,
            SessionAction::Finish { remove_scratch, outcome } => SessionActionView::Finish {
                remove_scratch,
                outcome: match outcome {
                    Ok(Some(text)) => Ok(Some(text@)),
                    Ok(None) => Ok(None),
                    Err(e) => Err(e),
                },
            },
            SessionAction::Ignore => SessionActionView::Ignore,
        }
    }
}

/// What a session returns for the scratch file's final `content`: nothing
/// where the content is blank, else the content without the one line feed
/// that may end it.
pub open spec fn edited_text_spec(content: Seq<char>) -> Option<Seq<char>> {
    if is_blank_spec(content) {
        None
    } else {
        Some(strip_final_newline_spec(content))
    }
}

/// The phase that follows and the action to take when `event` arrives in
/// `phase`.
pub open spec fn step_spec(phase: SessionPhase, event: SessionEventView) -> (
    SessionPhase,
    SessionActionView,
) {
    match (phase, event) {
        (SessionPhase::Writing, SessionEventView::Written { ok }) => if ok {
            (SessionPhase::Running, SessionActionView::Launch)
        } else {
            (
                SessionPhase::Finished,
                SessionActionView::Finish {
                    remove_scratch: true,
                    outcome: Err(EditorError::WriteFailure),
                },
            )
        },
        (SessionPhase::Running, SessionEventView::Exited { report }) => match report {
            ExitReport::NotSpawned => (
                SessionPhase::Finished,
                SessionActionView::Finish {
                    remove_scratch: true,
                    outcome: Err(EditorError::SpawnFailure),
                },
            ),
            ExitReport::Failed => (
                SessionPhase::Finished,
                SessionActionView::Finish {
                    remove_scratch: true,
                    outcome: Err(EditorError::NonZeroExit),
                },
            ),
            ExitReport::Succeeded => (SessionPhase::Reading, SessionActionView::ReadScratch),
        },
        (SessionPhase::Reading, SessionEventView::ReadBack { content }) => (
            SessionPhase::Finished,
            SessionActionView::Finish {
                remove_scratch: true,
                outcome: match content {
                    Some(text) => Ok(edited_text_spec(text)),
                    None => Err(EditorError::ReadFailure),
                },
            },
        ),
        _ => (phase, SessionActionView::Ignore),
    }
}

/// Turns the scratch file's final content into what the session returns.
pub fn edited_text(content: &str) -> (r: Option<String>)
    ensures
        match r {
            Some(text) => edited_text_spec(content@) == Some(text@),
            None => edited_text_spec(content@) is None,
        },
{
    if is_blank(content) {
        None
    } else {
        Some(strip_final_newline(content).to_owned())
    }
}

/// Advances the session by one event. A session starts in
/// [`SessionPhase::Writing`], once the caller has begun to write the line to
/// the scratch file.
pub fn step(phase: SessionPhase, event: SessionEvent) -> (r: (SessionPhase, SessionAction))
    ensures
        (r.0, r.1@) == step_spec(phase, event@),
{
    match (phase, event) {
        (SessionPhase::Writing, SessionEvent::Written { ok }) => {
            if ok {
                (SessionPhase::Running, SessionAction::Launch)
            } else {
                (
                    SessionPhase::Finished,
                    SessionAction::Finish {
                        remove_scratch: true,
                        outcome: Err(EditorError::WriteFailure),
                    },
                )
            }
        },
        (SessionPhase::Running, SessionEvent::Exited { report }) => {
            match report {
                ExitReport::NotSpawned => (
                    SessionPhase::Finished,
                    SessionAction::Finish {
                        remove_scratch: true,
                        outcome: Err(EditorError::SpawnFailure),
                    },
                ),
                ExitReport::Failed => (
                    SessionPhase::Finished,
                    SessionAction::Finish {
                        remove_scratch: true,
                        outcome: Err(EditorError::NonZeroExit),
                    },
                ),
                ExitReport::Succeeded => (SessionPhase::Reading, SessionAction::ReadScratch),
            }
        },
        (SessionPhase::Reading, SessionEvent::ReadBack { content }) => {
            let outcome = match content {
                Some(text) => Ok(edited_text(text.as_str())),
                None => Err(EditorError::ReadFailure),
            };
            (SessionPhase::Finished, SessionAction::Finish { remove_scratch: true, outcome })
        },
        (phase, _) => (phase, SessionAction::Ignore),
    }
}

/// A session in which every step goes well hands back what the editor left in
/// the scratch file: nothing for a blank file, else the content itself, less
/// the one line feed that may end it. The scratch file is removed either
/// way.
pub proof fn law_successful_session_returns_content(content: Seq<char>)
    ensures
        step_spec(SessionPhase::Writing, SessionEventView::Written { ok: true }) == (
            SessionPhase::Running,
            SessionActionView::Launch,
        ),
        step_spec(SessionPhase::Running, SessionEventView::Exited { report: ExitReport::Succeeded })
            == (SessionPhase::Reading, SessionActionView::ReadScratch),
        is_blank_spec(content) ==> step_spec(
            SessionPhase::Reading,
            SessionEventView::ReadBack { content: Some(content) },
        ) == (
            SessionPhase::Finished,
            SessionActionView::Finish { remove_scratch: true, outcome: Ok(None) },
        ),
        !is_blank_spec(content) && content.last() != '\n' ==> step_spec(
            SessionPhase::Reading,
            SessionEventView::ReadBack { content: Some(content) },
        ) == (
            SessionPhase::Finished,
            SessionActionView::Finish { remove_scratch: true, outcome: Ok(Some(content)) },
        ),
        !is_blank_spec(content) && content.last() == '\n' ==> step_spec(
            SessionPhase::Reading,
            SessionEventView::ReadBack { content: Some(content) },
        ) == (
            SessionPhase::Finished,
            SessionActionView::Finish {
                remove_scratch: true,
                outcome: Ok(Some(content.drop_last())),
            },
        ),
{
}

/// However a session ends, it ends by asking for the scratch file's removal
/// before it returns: after a failed write, after an editor that could not be
/// started or that reported a failure, and after the read, whether that went
/// well or not.
pub proof fn law_scratch_removed_on_every_exit(phase: SessionPhase, event: SessionEventView)
    requires
        phase != SessionPhase::Finished,
        step_spec(phase, event).0 == SessionPhase::Finished,
    ensures
        step_spec(phase, event).1 is Finish,
        step_spec(phase, event).1->remove_scratch,
{
}

/// No action but the last one of a session asks for the removal or returns
/// anything: `Finish` comes exactly with the step into the finished phase.
pub proof fn law_finish_ends_session(phase: SessionPhase, event: SessionEventView)
    ensures
        step_spec(phase, event).1 is Finish <==> (phase != SessionPhase::Finished && step_spec(
            phase,
            event,
        ).0 == SessionPhase::Finished),
{
}

/// An event that does not belong to the phase changes nothing, and a finished
/// session stays finished.
pub proof fn law_stray_event_is_ignored(phase: SessionPhase, event: SessionEventView)
    ensures
        step_spec(phase, event).1 is Ignore ==> step_spec(phase, event).0 == phase,
        step_spec(SessionPhase::Finished, event) == (
            SessionPhase::Finished,
            SessionActionView::Ignore,
        ),
{
}

} // verus!
