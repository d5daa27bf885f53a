//! The end of an added display, step by step.

use crate::cast_display_slot::runtime::{
    finish, removal_result, RemoveCastDisplayError, SlotExit,
};
use crate::device_session_port::DeviceSessionStopReason;
use crate::media_session::MediaStopReason;
use vstd::prelude::*;

verus! {

/// What the end of a display waits for.
#[derive(Debug, Clone, Copy, PartialEq, Eq, Structural)]
pub enum EndPhase {
    /// The recovery of the device session ends.
    Recovery,
    /// The media ends, with the device session.
    Media,
    /// The kernel display is detached.
    Detaching,
    /// The output becomes free.
    Releasing,
    /// The end is told.
    Telling,
    Ended,
}

/// The end of a display.
#[derive(Debug)]
pub struct DisplayEnd {
    pub phase: EndPhase,
    pub exit: SlotExit,
    /// What could not be cleaned up so far.
    pub failed: RemoveCastDisplayError,
}

/// What the end of a display does next.
#[derive(Debug, PartialEq, Eq)]
pub enum EndAction {
    EndRecovery,
    EndMedia { reason: DeviceSessionStopReason, media_reason: MediaStopReason },
    Detach,
    ReleaseOutput,
    /// Answer whoever asked for the removal.
    Answer(Result<(), RemoveCastDisplayError>),
    /// Tell that the display has failed, and what its cleanup complained about.
    AnnounceFailure { error: String, cleanup_error: Option<String> },
    /// Nobody waits: what the cleanup complained about is only noted.
    Note(Option<String>),
    Nothing,
}

/// What came of it.
#[derive(Debug, PartialEq, Eq)]
pub enum EndReply {
    /// Of the recovery, the media or the kernel display.
    Done(Result<(), String>),
    Released,
    Told,
}

/// The complaint of a part, if it has one.
pub open spec fn complaint(result: Result<(), String>) -> Option<String> {
    match result {
        Ok(_) => None,
        Err(error) => Some(error),
    }
}

/// Everything was cleaned up.
pub open spec fn cleaned(failed: RemoveCastDisplayError) -> bool {
    failed.recovery is None && failed.media is None && failed.detach is None
}

/// The end of a display when it begins.
pub open spec fn end_begins(exit: SlotExit) -> DisplayEnd {
    DisplayEnd {
        phase: EndPhase::Recovery,
        exit,
        failed: RemoveCastDisplayError { recovery: None, media: None, detach: None },
    }
}

/// The end of a display after a reply. Every part is tried, whatever came of the
/// others; what is not waited for changes nothing.
pub open spec fn end_goes_on(end: DisplayEnd, reply: EndReply) -> DisplayEnd {
    match (end.phase, reply) {
        (EndPhase::Recovery, EndReply::Done(result)) => DisplayEnd {
            phase: EndPhase::Media,
            failed: RemoveCastDisplayError { recovery: complaint(result), ..end.failed },
            ..end
        },
        (EndPhase::Media, EndReply::Done(result)) => DisplayEnd {
            phase: EndPhase::Detaching,
            failed: RemoveCastDisplayError { media: complaint(result), ..end.failed },
            ..end
        },
        (EndPhase::Detaching, EndReply::Done(result)) => DisplayEnd {
            phase: EndPhase::Releasing,
            failed: RemoveCastDisplayError { detach: complaint(result), ..end.failed },
            ..end
        },
        (EndPhase::Releasing, EndReply::Released) => DisplayEnd { phase: EndPhase::Telling, ..end },
        (EndPhase::Telling, EndReply::Told) => DisplayEnd { phase: EndPhase::Ended, ..end },
        _ => end,
    }
}

/// The text of what was not cleaned up, if there is anything.
pub open spec fn tells_leftovers(text: Option<String>, failed: RemoveCastDisplayError) -> bool {
    match text {
        None => cleaned(failed),
        Some(text) => !cleaned(failed) && text@ == failed.text(),
    }
}

/// The action is the one that the end is at.
pub open spec fn end_acts(end: DisplayEnd, action: EndAction) -> bool {
    match end.phase {
        EndPhase::Recovery => action == EndAction::EndRecovery,
        EndPhase::Media => {
            &&& action matches EndAction::EndMedia { reason, media_reason }
            &&& reason == match end.exit {
                SlotExit::Remove(reason) => reason,
                SlotExit::Terminal(_) => DeviceSessionStopReason::DisplayRemoved,
                SlotExit::Shutdown => DeviceSessionStopReason::DaemonShutdown,
            }
            &&& media_reason == match reason {
                DeviceSessionStopReason::DisplayRemoved => MediaStopReason::DisplayRemoved,
                DeviceSessionStopReason::DaemonShutdown => MediaStopReason::BackendShutdown,
            }
        },
        EndPhase::Detaching => action == EndAction::Detach,
        EndPhase::Releasing => action == EndAction::ReleaseOutput,
        EndPhase::Telling => match end.exit {
            SlotExit::Remove(_) => action == EndAction::Answer(
                if cleaned(end.failed) {
                    Ok(())
                } else {
                    Err(end.failed)
                },
            ),
            SlotExit::Terminal(error) => action matches EndAction::AnnounceFailure {
                error: told,
                cleanup_error,
            } && told == error && tells_leftovers(cleanup_error, end.failed),
            SlotExit::Shutdown => action matches EndAction::Note(text) && tells_leftovers(
                text,
                end.failed,
            ),
        },
        EndPhase::Ended => action == EndAction::Nothing,
    }
}

fn complaint_of(result: Result<(), String>) -> (text: Option<String>)
    ensures
        text == complaint(result),
{
    match result {
        Ok(()) => None,
        Err(error) => Some(error),
    }
}

fn copy_of(text: &Option<String>) -> (copy: Option<String>)
    ensures
        copy == *text,
{
    match text {
        None => None,
        Some(text) => Some(text.clone()),
    }
}

impl DisplayEnd {
    /// Begin the end of a display.
    pub fn begin(exit: SlotExit) -> (end: Self)
        ensures
            end == end_begins(exit),
    {
        DisplayEnd {
            phase: EndPhase::Recovery,
            exit,
            failed: RemoveCastDisplayError { recovery: None, media: None, detach: None },
        }
    }

    /// Go on after a reply.
    pub fn proceed(&mut self, reply: EndReply)
        ensures
            *final(self) == end_goes_on(*old(self), reply),
    {
        match (self.phase, reply) {
            (EndPhase::Recovery, EndReply::Done(result)) => {
                self.failed.recovery = complaint_of(result);
                self.phase = EndPhase::Media;
            },
            (EndPhase::Media, EndReply::Done(result)) => {
                self.failed.media = complaint_of(result);
                self.phase = EndPhase::Detaching;
            },
            (EndPhase::Detaching, EndReply::Done(result)) => {
                self.failed.detach = complaint_of(result);
                self.phase = EndPhase::Releasing;
            },
            (EndPhase::Releasing, EndReply::Released) => {
                self.phase = EndPhase::Telling;
            },
            (EndPhase::Telling, EndReply::Told) => {
                self.phase = EndPhase::Ended;
            },
            _ => {},
        }
    }

    fn result(&self) -> (result: Result<(), RemoveCastDisplayError>)
        ensures
            result == (if cleaned(self.failed) {
                Ok(())
            } else {
                Err(self.failed)
            }),
    {
        match removal_result(
            copy_of(&self.failed.recovery),
            copy_of(&self.failed.media),
            copy_of(&self.failed.detach),
        ) {
            Ok(()) => Ok(()),
            Err(error) => Err(error),
        }
    }

    fn leftovers(&self) -> (text: Option<String>)
        ensures
            tells_leftovers(text, self.failed),
    {
        match self.result() {
            Ok(()) => None,
            Err(error) => Some(error.to_text()),
        }
    }

    /// What to do next.
    pub fn action(&self) -> (action: EndAction)
        ensures
            end_acts(*self, action),
    {
        match self.phase {
            EndPhase::Recovery => EndAction::EndRecovery,
            EndPhase::Media => {
                let exit = match &self.exit {
                    SlotExit::Remove(reason) => SlotExit::Remove(*reason),
                    SlotExit::Terminal(error) => SlotExit::Terminal(error.clone()),
                    SlotExit::Shutdown => SlotExit::Shutdown,
                };
                let end = finish(exit);
                EndAction::EndMedia { reason: end.reason, media_reason: end.media_reason }
            },
            EndPhase::Detaching => EndAction::Detach,
            EndPhase::Releasing => EndAction::ReleaseOutput,
            EndPhase::Telling => match &self.exit {
                SlotExit::Remove(_) => EndAction::Answer(self.result()),
                SlotExit::Terminal(error) => EndAction::AnnounceFailure {
                    error: error.clone(),
                    cleanup_error: self.leftovers(),
                },
                SlotExit::Shutdown => EndAction::Note(self.leftovers()),
            },
            EndPhase::Ended => EndAction::Nothing,
        }
    }
}

/// The end of a display after several replies.
pub open spec fn end_after(exit: SlotExit, replies: Seq<EndReply>) -> DisplayEnd
    decreases replies.len(),
{
    if replies.len() == 0 {
        end_begins(exit)
    } else {
        end_goes_on(end_after(exit, replies.drop_last()), replies.last())
    }
}

/// Something was told of the end.
pub open spec fn tells_the_end(action: EndAction) -> bool {
    action is Answer || action is AnnounceFailure || action is Note
}

/// The output is free before anything is told of the end of its display, be it a
/// failure or an answer: whoever is told may set the device up again at once.
pub proof fn outputs_are_free_before_the_end_is_told(
    exit: SlotExit,
    replies: Seq<EndReply>,
    action: EndAction,
)
    requires
        end_acts(end_after(exit, replies), action),
        tells_the_end(action),
    ensures
        exists|i: int|
            0 <= i < replies.len() && end_acts(
                end_after(exit, replies.take(i)),
                EndAction::ReleaseOutput,
            ) && #[trigger] replies[i] == EndReply::Released,
{
    told_after_release(exit, replies);
}

proof fn told_after_release(exit: SlotExit, replies: Seq<EndReply>)
    requires
        end_after(exit, replies).phase == EndPhase::Telling || end_after(exit, replies).phase
            == EndPhase::Ended,
    ensures
        exists|i: int|
            0 <= i < replies.len() && end_acts(
                end_after(exit, replies.take(i)),
                EndAction::ReleaseOutput,
            ) && #[trigger] replies[i] == EndReply::Released,
    decreases replies.len(),
{
    let fewer = replies.drop_last();
    let last = replies.len() - 1;
    let before = end_after(exit, fewer);
    if before.phase == EndPhase::Releasing {
        assert(replies.take(last) =~= fewer);
        assert(replies[last] == EndReply::Released);
    } else {
        told_after_release(exit, fewer);
        let i = choose|i: int|
            0 <= i < fewer.len() && end_acts(
                end_after(exit, fewer.take(i)),
                EndAction::ReleaseOutput,
            ) && #[trigger] fewer[i] == EndReply::Released;
        assert(fewer.take(i) =~= replies.take(i));
        assert(replies[i] == EndReply::Released);
    }
}

/// The recovery ends first, then the media, then the kernel display, then the
/// output is free, and what each complained about is told.
pub proof fn displays_end_in_order(
    exit: SlotExit,
    recovery: Result<(), String>,
    media: Result<(), String>,
    detach: Result<(), String>,
)
    ensures
        ({
            let first = end_begins(exit);
            let second = end_goes_on(first, EndReply::Done(recovery));
            let third = end_goes_on(second, EndReply::Done(media));
            let fourth = end_goes_on(third, EndReply::Done(detach));
            let fifth = end_goes_on(fourth, EndReply::Released);
            &&& first.phase == EndPhase::Recovery
            &&& second.phase == EndPhase::Media
            &&& third.phase == EndPhase::Detaching
            &&& fourth.phase == EndPhase::Releasing
            &&& fifth.phase == EndPhase::Telling
            &&& fifth.exit == exit
            &&& fifth.failed == (RemoveCastDisplayError {
                recovery: complaint(recovery),
                media: complaint(media),
                detach: complaint(detach),
            })
        }),
{
}

/// Every part of an end asks for its own action. Whoever asked for the removal is answered
/// with all that went wrong; a display that failed is announced with its reason; at the end of
/// everything, what went wrong is only noted.
pub proof fn ends_tell_what_went_wrong(end: DisplayEnd, action: EndAction)
    requires
        end_acts(end, action),
    ensures
        ({
            let clean = end.failed.recovery is None && end.failed.media is None
                && end.failed.detach is None;
            &&& action is EndRecovery <==> end.phase is Recovery
            &&& action is EndMedia <==> end.phase is Media
            &&& action is Detach <==> end.phase is Detaching
            &&& action is ReleaseOutput <==> end.phase is Releasing
            &&& action is Nothing <==> end.phase is Ended
            &&& action is Answer <==> end.phase is Telling && end.exit is Remove
            &&& action is AnnounceFailure <==> end.phase is Telling && end.exit is Terminal
            &&& action is Note <==> end.phase is Telling && end.exit is Shutdown
            &&& action is Answer ==> (action->Answer_0 is Ok <==> clean)
            &&& action is Answer && !clean ==> action->Answer_0->Err_0 == end.failed
            &&& action is AnnounceFailure ==> action->error == end.exit->Terminal_0 && (
            action->cleanup_error is None <==> clean)
            &&& action is Note ==> (action->Note_0 is None <==> clean)
            &&& action is EndMedia && end.exit is Remove ==> action->reason == end.exit->Remove_0
            &&& action is EndMedia && end.exit is Shutdown ==> action->reason is DaemonShutdown
            &&& action is EndMedia && end.exit is Terminal ==> action->reason is DisplayRemoved
            &&& action is EndMedia ==> (action->media_reason is DisplayRemoved <==> action->reason
                is DisplayRemoved) && (action->media_reason is BackendShutdown <==> action->reason
                is DaemonShutdown)
        }),
{
}

/// A failure is kept as the complaint of the part that failed.
pub proof fn complaints_are_kept_by_part(end: DisplayEnd, result: Result<(), String>)
    ensures
        complaint(result) is None <==> result is Ok,
        result is Err ==> complaint(result) == Some(result->Err_0),
        ({
            let after = end_goes_on(end, EndReply::Done(result));
            &&& after.exit == end.exit
            &&& end.phase is Recovery ==> (after.failed.recovery is Some <==> result is Err)
                && after.failed.media == end.failed.media && after.failed.detach
                == end.failed.detach
            &&& end.phase is Media ==> (after.failed.media is Some <==> result is Err)
                && after.failed.recovery == end.failed.recovery && after.failed.detach
                == end.failed.detach
            &&& end.phase is Detaching ==> (after.failed.detach is Some <==> result is Err)
                && after.failed.recovery == end.failed.recovery && after.failed.media
                == end.failed.media
        }),
{
}

/// What could not be cleaned up is told in the text of the failure, and nothing is told where
/// all was.
pub proof fn leftovers_are_told_by_their_text(text: Option<String>, failed: RemoveCastDisplayError)
    requires
        tells_leftovers(text, failed),
    ensures
        text is None <==> failed.recovery is None && failed.media is None && failed.detach is None,
        text is Some ==> text->0@ == failed.text(),
{
}

} // verus!
