//! Which objects and signals follow from the life of displays and operations.

use crate::dbus::public_state::{
    info_of, media_session_of, public_display, public_display_state, public_media_session_state,
    same_media_observation, same_observation, state_of, CastDisplayInfo, CastDisplayState,
    DisplayStateView, InfoView, MediaSessionState, MediaSessionView,
};
use crate::display::{AddedCastDisplaySnapshot, SnapshotView};
use crate::text::concat;
use vstd::prelude::*;
use vstd::string::*;

verus! {

/// How long the object of an ended operation stays, in seconds.
pub const TERMINAL_OPERATION_RETENTION_SECONDS: u64 = 60;

/// What the objects of one display hold.
#[derive(Debug)]
pub struct PublicDisplay {
    pub info: CastDisplayInfo,
    pub state: CastDisplayState,
    pub media: MediaSessionState,
}

/// The contents of a [`PublicDisplay`].
pub struct PublicView {
    pub info: InfoView,
    pub state: DisplayStateView,
    pub media: MediaSessionView,
}

impl View for PublicDisplay {
    type V = PublicView;

    open spec fn view(&self) -> PublicView {
        PublicView { info: self.info@, state: self.state@, media: self.media@ }
    }
}

/// The objects of a display that was just added.
pub open spec fn published(display: SnapshotView) -> PublicView {
    PublicView {
        info: info_of(display),
        state: state_of(display),
        media: media_session_of(display),
    }
}

/// The objects of a display once it has changed. The media session keeps its
/// state, with its revision, until something else in it changes.
pub open spec fn republished(before: PublicView, display: SnapshotView) -> PublicView {
    PublicView {
        info: info_of(display),
        state: state_of(display),
        media: if same_observation(before.media, media_session_of(display)) {
            before.media
        } else {
            media_session_of(display)
        },
    }
}

impl PublicDisplay {
    /// The objects of a display that was just added.
    pub fn added(snapshot: &AddedCastDisplaySnapshot) -> (display: Self)
        ensures
            display@ == published(snapshot@),
    {
        PublicDisplay {
            info: public_display(snapshot),
            state: public_display_state(snapshot),
            media: public_media_session_state(snapshot),
        }
    }

    /// Follow a change of the display: whether the media session signals one
    /// too.
    pub fn state_changed(&mut self, snapshot: &AddedCastDisplaySnapshot) -> (media_changed: bool)
        ensures
            final(self)@ == republished(old(self)@, snapshot@),
            media_changed == !same_observation(old(self)@.media, media_session_of(snapshot@)),
    {
        self.info = public_display(snapshot);
        self.state = public_display_state(snapshot);
        let media = public_media_session_state(snapshot);
        if same_media_observation(&self.media, &media) {
            false
        } else {
            self.media = media;
            true
        }
    }
}

/// What the bus did about an object.
#[derive(Debug, PartialEq, Eq)]
pub enum ObjectReply {
    Done,
    /// There is no such object.
    NotFound,
    Failed(String),
}

/// Why the service of displays or operations ended.
#[derive(Debug, PartialEq, Eq)]
pub enum SignalError {
    Emitter(String),
    Method(String),
    RegisterDisplay(String),
    RegisterMediaSession(String),
    LookupDisplay(String),
    LookupMediaSession(String),
    Emit(String),
    Remove(String),
    StatusClosed,
    ManagerStopped,
}

impl SignalError {
    /// What went wrong while displays were served.
    pub open spec fn lifecycle_text(self) -> Seq<char> {
        match self {
            SignalError::Emitter(error) => "create lifecycle signal emitter: "@ + error@,
            SignalError::Method(error) => "construct lifecycle object path: "@ + error@,
            SignalError::RegisterDisplay(error) => "register cast-display object: "@ + error@,
            SignalError::RegisterMediaSession(error) => "register media-session interface: "@
                + error@,
            SignalError::LookupDisplay(error) => "look up cast-display object: "@ + error@,
            SignalError::LookupMediaSession(error) => "look up media-session interface: "@ + error@,
            SignalError::Emit(error) => "emit lifecycle signal: "@ + error@,
            SignalError::Remove(error) => "remove lifecycle object: "@ + error@,
            SignalError::StatusClosed =>
                "display-setup status channel closed before a terminal state"@,
            SignalError::ManagerStopped =>
                "manager stopped before terminal operation retirement"@,
        }
    }

    /// What went wrong while an operation was served.
    pub open spec fn operation_text(self) -> Seq<char> {
        match self {
            SignalError::Emitter(error) => "create operation signal emitter: "@ + error@,
            SignalError::Emit(error) => "emit operation state signal: "@ + error@,
            SignalError::Remove(error) => "remove retired operation object: "@ + error@,
            _ => self.lifecycle_text(),
        }
    }

    pub fn to_operation_text(&self) -> (text: String)
        ensures
            text@ == self.operation_text(),
    {
        match self {
            SignalError::Emitter(error) => concat(
                "create operation signal emitter: ",
                error.as_str(),
            ),
            SignalError::Emit(error) => concat("emit operation state signal: ", error.as_str()),
            SignalError::Remove(error) => concat(
                "remove retired operation object: ",
                error.as_str(),
            ),
            _ => self.to_text(),
        }
    }

    pub fn to_text(&self) -> (text: String)
        ensures
            text@ == self.lifecycle_text(),
    {
        match self {
            SignalError::Emitter(error) => concat(
                "create lifecycle signal emitter: ",
                error.as_str(),
            ),
            SignalError::Method(error) => concat(
                "construct lifecycle object path: ",
                error.as_str(),
            ),
            SignalError::RegisterDisplay(error) => concat(
                "register cast-display object: ",
                error.as_str(),
            ),
            SignalError::RegisterMediaSession(error) => concat(
                "register media-session interface: ",
                error.as_str(),
            ),
            SignalError::LookupDisplay(error) => concat(
                "look up cast-display object: ",
                error.as_str(),
            ),
            SignalError::LookupMediaSession(error) => concat(
                "look up media-session interface: ",
                error.as_str(),
            ),
            SignalError::Emit(error) => concat("emit lifecycle signal: ", error.as_str()),
            SignalError::Remove(error) => concat("remove lifecycle object: ", error.as_str()),
            SignalError::StatusClosed =>
                "display-setup status channel closed before a terminal state".to_owned(),
            SignalError::ManagerStopped =>
                "manager stopped before terminal operation retirement".to_owned(),
        }
    }
}

/// One thing to do on the bus.
#[derive(Debug, Clone, Copy, PartialEq, Eq, Structural)]
pub enum BusStep {
    RegisterDisplay,
    RegisterMediaSession,
    /// Take the display's object away again, and report no failure of that.
    RollBackDisplay,
    EmitDisplayAdded,
    LookupDisplay,
    LookupMediaSession,
    EmitStateChanged,
    EmitMediaChanged,
    /// Tell the display's own watchers, and report no failure of that.
    EmitRemoved,
    RemoveMediaSession,
    RemoveDisplay,
    RemoveOperation,
    EmitDisplayRemoved,
}

/// What follows on a step.
#[derive(Debug, PartialEq, Eq)]
pub enum BusProgress {
    Next(BusStep),
    Done,
    /// The service ends, once the step is done, if there is one.
    Ended { last: Option<BusStep>, error: SignalError },
}

/// What happens in the life of a display.
#[derive(Debug, Clone, Copy, PartialEq, Eq, Structural)]
pub enum LifecycleKind {
    Added,
    StateChanged,
    Removed,
}

/// The first step about an event.
pub open spec fn first_step(kind: LifecycleKind) -> BusStep {
    match kind {
        LifecycleKind::Added => BusStep::RegisterDisplay,
        LifecycleKind::StateChanged => BusStep::LookupDisplay,
        LifecycleKind::Removed => BusStep::EmitRemoved,
    }
}

pub fn begin_lifecycle_event(kind: LifecycleKind) -> (step: BusStep)
    ensures
        step == first_step(kind),
{
    match kind {
        LifecycleKind::Added => BusStep::RegisterDisplay,
        LifecycleKind::StateChanged => BusStep::LookupDisplay,
        LifecycleKind::Removed => BusStep::EmitRemoved,
    }
}

/// The step that follows a step which went well, if one does.
pub open spec fn step_after(step: BusStep, media_changed: bool) -> Option<BusStep> {
    match step {
        BusStep::RegisterDisplay => Some(BusStep::RegisterMediaSession),
        BusStep::RegisterMediaSession => Some(BusStep::EmitDisplayAdded),
        BusStep::RollBackDisplay => None,
        BusStep::EmitDisplayAdded => None,
        BusStep::LookupDisplay => Some(BusStep::LookupMediaSession),
        BusStep::LookupMediaSession => Some(BusStep::EmitStateChanged),
        BusStep::EmitStateChanged => if media_changed {
            Some(BusStep::EmitMediaChanged)
        } else {
            None
        },
        BusStep::EmitMediaChanged => None,
        BusStep::EmitRemoved => Some(BusStep::RemoveMediaSession),
        BusStep::RemoveMediaSession => Some(BusStep::RemoveDisplay),
        BusStep::RemoveDisplay => Some(BusStep::RemoveOperation),
        BusStep::RemoveOperation => Some(BusStep::EmitDisplayRemoved),
        BusStep::EmitDisplayRemoved => None,
    }
}

/// A step whose failure changes nothing.
pub open spec fn is_lenient(step: BusStep) -> bool {
    step is RollBackDisplay || step is EmitRemoved
}

/// A step that takes an object away: it may be gone already.
pub open spec fn is_removal(step: BusStep) -> bool {
    step is RemoveMediaSession || step is RemoveDisplay || step is RemoveOperation
}

/// The step went well enough to go on.
pub open spec fn succeeds(step: BusStep, reply: ObjectReply) -> bool {
    match reply {
        ObjectReply::Done => true,
        ObjectReply::NotFound => is_lenient(step) || is_removal(step),
        ObjectReply::Failed(_) => is_lenient(step),
    }
}

/// The error that the failure of a step ends the service with.
pub open spec fn is_error_of(step: BusStep, text: Seq<char>, error: SignalError) -> bool {
    match step {
        BusStep::RegisterDisplay => error matches SignalError::RegisterDisplay(held) && held@
            == text,
        BusStep::RegisterMediaSession => error matches SignalError::RegisterMediaSession(held)
            && held@ == text,
        BusStep::LookupDisplay => error matches SignalError::LookupDisplay(held) && held@ == text,
        BusStep::LookupMediaSession => error matches SignalError::LookupMediaSession(held) && held@
            == text,
        BusStep::RemoveMediaSession => error matches SignalError::Remove(held) && held@ == text,
        BusStep::RemoveDisplay => error matches SignalError::Remove(held) && held@ == text,
        BusStep::RemoveOperation => error matches SignalError::Remove(held) && held@ == text,
        _ => error matches SignalError::Emit(held) && held@ == text,
    }
}

/// Why a step failed.
pub open spec fn reply_text(reply: ObjectReply) -> Seq<char> {
    match reply {
        ObjectReply::Failed(text) => text@,
        _ => "Interface not found"@,
    }
}

/// The step was served: the next one follows a success, and a failure ends it.
pub open spec fn served(
    step: BusStep,
    reply: ObjectReply,
    media_changed: bool,
    progress: BusProgress,
) -> bool {
    if succeeds(step, reply) {
        match step_after(step, media_changed) {
            Some(next) => progress == BusProgress::Next(next),
            None => progress == BusProgress::Done,
        }
    } else {
        &&& progress matches BusProgress::Ended { last, error }
        &&& last == (if step == BusStep::RegisterMediaSession {
            Some(BusStep::RollBackDisplay)
        } else {
            None
        })
        &&& is_error_of(step, reply_text(reply), error)
    }
}

/// Go on after a step about an event, by what came of it.
pub fn serve_lifecycle_event(step: BusStep, reply: ObjectReply, media_changed: bool) -> (progress:
    BusProgress)
    ensures
        served(step, reply, media_changed, progress),
{
    let lenient = match step {
        BusStep::RollBackDisplay | BusStep::EmitRemoved => true,
        _ => false,
    };
    let removal = match step {
        BusStep::RemoveMediaSession | BusStep::RemoveDisplay | BusStep::RemoveOperation => true,
        _ => false,
    };
    let failure: Option<String> = match reply {
        ObjectReply::Done => None,
        ObjectReply::NotFound => if lenient || removal {
            None
        } else {
            Some("Interface not found".to_owned())
        },
        ObjectReply::Failed(text) => if lenient {
            None
        } else {
            Some(text)
        },
    };
    if let Some(text) = failure {
        let last = match step {
            BusStep::RegisterMediaSession => Some(BusStep::RollBackDisplay),
            _ => None,
        };
        let error = match step {
            BusStep::RegisterDisplay => SignalError::RegisterDisplay(text),
            BusStep::RegisterMediaSession => SignalError::RegisterMediaSession(text),
            BusStep::LookupDisplay => SignalError::LookupDisplay(text),
            BusStep::LookupMediaSession => SignalError::LookupMediaSession(text),
            BusStep::RemoveMediaSession | BusStep::RemoveDisplay | BusStep::RemoveOperation =>
                SignalError::Remove(text),
            _ => SignalError::Emit(text),
        };
        return BusProgress::Ended { last, error };
    }
    match step {
        BusStep::RegisterDisplay => BusProgress::Next(BusStep::RegisterMediaSession),
        BusStep::RegisterMediaSession => BusProgress::Next(BusStep::EmitDisplayAdded),
        BusStep::RollBackDisplay => BusProgress::Done,
        BusStep::EmitDisplayAdded => BusProgress::Done,
        BusStep::LookupDisplay => BusProgress::Next(BusStep::LookupMediaSession),
        BusStep::LookupMediaSession => BusProgress::Next(BusStep::EmitStateChanged),
        BusStep::EmitStateChanged => if media_changed {
            BusProgress::Next(BusStep::EmitMediaChanged)
        } else {
            BusProgress::Done
        },
        BusStep::EmitMediaChanged => BusProgress::Done,
        BusStep::EmitRemoved => BusProgress::Next(BusStep::RemoveMediaSession),
        BusStep::RemoveMediaSession => BusProgress::Next(BusStep::RemoveDisplay),
        BusStep::RemoveDisplay => BusProgress::Next(BusStep::RemoveOperation),
        BusStep::RemoveOperation => BusProgress::Next(BusStep::EmitDisplayRemoved),
        BusStep::EmitDisplayRemoved => BusProgress::Done,
    }
}

/// Where the notifier of a setup operation stands.
#[derive(Debug, Clone, Copy, PartialEq, Eq, Structural)]
pub enum OperationNotifier {
    /// Publish the state, and go on.
    Publish,
    /// Wait for the state to change.
    Wait,
    /// Keep the ended operation for its retention, then forget it.
    Retain,
    /// The object of the operation goes.
    RemoveObject,
    Finished,
}

/// An operation that has ended already is published at once.
pub open spec fn started_notifier(terminal: bool) -> OperationNotifier {
    if terminal {
        OperationNotifier::Publish
    } else {
        OperationNotifier::Wait
    }
}

/// After a publication: the last one is followed by the retention.
pub open spec fn after_publication(emitted: Result<(), String>, terminal: bool) -> Result<
    OperationNotifier,
    SignalError,
> {
    match emitted {
        Err(text) => Err(SignalError::Emit(text)),
        Ok(_) => Ok(
            if terminal {
                OperationNotifier::Retain
            } else {
                OperationNotifier::Wait
            },
        ),
    }
}

/// After a change of the state, or the end of its channel.
pub open spec fn after_change(open: bool) -> Result<OperationNotifier, SignalError> {
    if open {
        Ok(OperationNotifier::Publish)
    } else {
        Err(SignalError::StatusClosed)
    }
}

/// After the retention: whether the operation was known, if the manager still
/// answers.
pub open spec fn after_retention(
    forgotten: Option<bool>,
) -> Result<OperationNotifier, SignalError> {
    match forgotten {
        None => Err(SignalError::ManagerStopped),
        Some(known) => if known {
            Ok(OperationNotifier::RemoveObject)
        } else {
            Ok(OperationNotifier::Finished)
        },
    }
}

/// After the removal of the object.
pub open spec fn after_removal(reply: ObjectReply) -> Result<OperationNotifier, SignalError> {
    match reply {
        ObjectReply::Failed(text) => Err(SignalError::Remove(text)),
        _ => Ok(OperationNotifier::Finished),
    }
}

impl OperationNotifier {
    /// A notifier starts with a state that its caller may have seen: only an
    /// end that came meanwhile is published at once.
    pub fn start(terminal: bool) -> (notifier: Self)
        ensures
            notifier == started_notifier(terminal),
    {
        if terminal {
            OperationNotifier::Publish
        } else {
            OperationNotifier::Wait
        }
    }

    /// Go on after the state was published.
    pub fn published(self, emitted: Result<(), String>, terminal: bool) -> (result: Result<
        Self,
        SignalError,
    >)
        ensures
            result == after_publication(emitted, terminal),
    {
        match emitted {
            Err(text) => Err(SignalError::Emit(text)),
            Ok(()) => if terminal {
                Ok(OperationNotifier::Retain)
            } else {
                Ok(OperationNotifier::Wait)
            },
        }
    }

    /// Go on after the wait for a change: every change is published.
    pub fn changed(self, open: bool) -> (result: Result<Self, SignalError>)
        ensures
            result == after_change(open),
    {
        if open {
            Ok(OperationNotifier::Publish)
        } else {
            Err(SignalError::StatusClosed)
        }
    }

    /// Go on once the manager was told to forget the operation: the object goes
    /// if the manager knew it, unless the manager is gone.
    pub fn retained(self, forgotten: Option<bool>) -> (result: Result<Self, SignalError>)
        ensures
            result == after_retention(forgotten),
    {
        match forgotten {
            None => Err(SignalError::ManagerStopped),
            Some(known) => if known {
                Ok(OperationNotifier::RemoveObject)
            } else {
                Ok(OperationNotifier::Finished)
            },
        }
    }

    /// Go on after the object was taken away: it may have been gone already.
    pub fn removed(self, reply: ObjectReply) -> (result: Result<Self, SignalError>)
        ensures
            result == after_removal(reply),
    {
        match reply {
            ObjectReply::Done | ObjectReply::NotFound => Ok(OperationNotifier::Finished),
            ObjectReply::Failed(text) => Err(SignalError::Remove(text)),
        }
    }
}

/// The public media session of a display changes exactly when a signal tells
/// so, and shows the display's media then.
pub proof fn media_signals_tell_media_changes(before: PublicView, display: SnapshotView)
    ensures
        same_observation(before.media, media_session_of(display)) ==> republished(
            before,
            display,
        ).media == before.media,
        same_observation(republished(before, display).media, media_session_of(display)),
        republished(republished(before, display), display) == republished(before, display),
{
}

/// The steps after `step`, each going well, up to `count` of them.
pub open spec fn steps_from(step: BusStep, media_changed: bool, count: nat) -> Seq<BusStep>
    decreases count,
{
    if count == 0 {
        seq![step]
    } else {
        match step_after(step, media_changed) {
            Some(next) => seq![step] + steps_from(next, media_changed, (count - 1) as nat),
            None => seq![step],
        }
    }
}

/// A removal takes away every object that an addition or a setup registered,
/// and tells the manager's watchers last.
pub proof fn removals_leave_no_object(media_changed: bool)
    ensures
        steps_from(first_step(LifecycleKind::Removed), media_changed, 4) =~= seq![
            BusStep::EmitRemoved,
            BusStep::RemoveMediaSession,
            BusStep::RemoveDisplay,
            BusStep::RemoveOperation,
            BusStep::EmitDisplayRemoved,
        ],
        step_after(BusStep::EmitDisplayRemoved, media_changed) is None,
{
    reveal_with_fuel(steps_from, 5);
}

/// A display that was added is registered with both its interfaces before it is
/// announced.
pub proof fn additions_register_before_they_tell(media_changed: bool)
    ensures
        steps_from(first_step(LifecycleKind::Added), media_changed, 2) =~= seq![
            BusStep::RegisterDisplay,
            BusStep::RegisterMediaSession,
            BusStep::EmitDisplayAdded,
        ],
        step_after(BusStep::EmitDisplayAdded, media_changed) is None,
{
    reveal_with_fuel(steps_from, 4);
}

/// A changed display is looked up with both its interfaces; its state is told, and
/// after that its media, if and only if those changed.
pub proof fn changes_are_told_after_the_lookup(media_changed: bool)
    ensures
        steps_from(first_step(LifecycleKind::StateChanged), media_changed, 3) =~= seq![
            BusStep::LookupDisplay,
            BusStep::LookupMediaSession,
            BusStep::EmitStateChanged,
        ] + (if media_changed {
            seq![BusStep::EmitMediaChanged]
        } else {
            Seq::empty()
        }),
        step_after(BusStep::EmitMediaChanged, media_changed) is None,
{
    reveal_with_fuel(steps_from, 5);
}

/// Nothing goes on after a step that failed, but for the display's object, which is
/// taken away again where its media session cannot be registered. An object that is
/// gone already is as good as removed; nobody need hear of an end.
pub proof fn failed_steps_end_the_service(
    step: BusStep,
    reply: ObjectReply,
    media_changed: bool,
    progress: BusProgress,
)
    requires
        served(step, reply, media_changed, progress),
    ensures
        reply is Done ==> !(progress is Ended),
        step is RollBackDisplay || step is EmitRemoved ==> !(progress is Ended),
        step is RemoveMediaSession || step is RemoveDisplay || step is RemoveOperation ==> (
        progress is Ended <==> reply is Failed),
        !(step is RollBackDisplay || step is EmitRemoved || step is RemoveMediaSession || step
            is RemoveDisplay || step is RemoveOperation) ==> (progress is Ended <==> !(reply
            is Done)),
        progress is Ended ==> (progress->Ended_last is Some <==> step is RegisterMediaSession),
        progress is Ended && progress->Ended_last is Some ==> progress->Ended_last->0
            is RollBackDisplay,
{
}

/// The error of a failed step names the kind of step and holds what the bus said.
pub proof fn errors_name_the_failed_step(
    step: BusStep,
    reply: ObjectReply,
    media_changed: bool,
    progress: BusProgress,
)
    requires
        served(step, reply, media_changed, progress),
        progress is Ended,
    ensures
        step is RegisterDisplay <==> progress->Ended_error is RegisterDisplay,
        step is RegisterMediaSession <==> progress->Ended_error is RegisterMediaSession,
        step is LookupDisplay <==> progress->Ended_error is LookupDisplay,
        step is LookupMediaSession <==> progress->Ended_error is LookupMediaSession,
        step is RemoveMediaSession || step is RemoveDisplay || step is RemoveOperation
            <==> progress->Ended_error is Remove,
        step is EmitDisplayAdded || step is EmitStateChanged || step is EmitMediaChanged || step
            is EmitDisplayRemoved <==> progress->Ended_error is Emit,
        reply matches ObjectReply::Failed(text) ==> said(progress->Ended_error) == text@,
        reply is NotFound ==> said(progress->Ended_error) == "Interface not found"@,
{
}

/// What the bus said in an error.
pub open spec fn said(error: SignalError) -> Seq<char> {
    match error {
        SignalError::Emitter(text) => text@,
        SignalError::Method(text) => text@,
        SignalError::RegisterDisplay(text) => text@,
        SignalError::RegisterMediaSession(text) => text@,
        SignalError::LookupDisplay(text) => text@,
        SignalError::LookupMediaSession(text) => text@,
        SignalError::Emit(text) => text@,
        SignalError::Remove(text) => text@,
        SignalError::StatusClosed => Seq::empty(),
        SignalError::ManagerStopped => Seq::empty(),
    }
}

/// The texts of an error end in what the bus said.
pub proof fn error_texts_end_in_what_was_said(error: SignalError)
    ensures
        error.lifecycle_text().skip(
            error.lifecycle_text().len() - said(error).len(),
        ) == said(error),
        error.operation_text().skip(
            error.operation_text().len() - said(error).len(),
        ) == said(error),
{
    let text = error.lifecycle_text();
    let other = error.operation_text();
    assert(text.skip(text.len() - said(error).len()) =~= said(error));
    assert(other.skip(other.len() - said(error).len()) =~= said(error));
}

/// What is published of a display is what it shows now; only a media session that
/// says the same keeps its earlier revision.
pub proof fn published_displays_are_current(before: PublicView, display: SnapshotView)
    ensures
        published(display).info == info_of(display),
        published(display).state == state_of(display),
        published(display).media == media_session_of(display),
        republished(before, display).info == info_of(display),
        republished(before, display).state == state_of(display),
        republished(before, display).media.phase == media_session_of(display).phase,
        republished(before, display).media.media_generation == media_session_of(
            display,
        ).media_generation,
        republished(before, display).media.audio_enabled == media_session_of(display).audio_enabled,
        republished(before, display).media.error == media_session_of(display).error,
        republished(before, display).media != before.media ==> republished(before, display).media
            == media_session_of(display),
        republished(published(display), display) == published(display),
{
}

/// The state of an operation is published whenever it changes, for the last time
/// once it has ended; then the operation is kept for a while, forgotten, and its
/// object goes.
pub proof fn operations_are_published_to_their_end(terminal: bool, known: bool, failed: String)
    ensures
        started_notifier(true) is Publish,
        started_notifier(false) is Wait,
        after_change(true) matches Ok(next) && next is Publish,
        after_change(false) matches Err(error) && error is StatusClosed,
        after_publication(Ok(()), terminal) matches Ok(next) && (if terminal {
            next is Retain
        } else {
            next is Wait
        }),
        after_publication(Err(failed), terminal) matches Err(error) && error is Emit && said(error)
            == failed@,
        after_retention(Some(known)) matches Ok(next) && (if known {
            next is RemoveObject
        } else {
            next is Finished
        }),
        after_retention(None) matches Err(error) && error is ManagerStopped,
        after_removal(ObjectReply::Done) matches Ok(next) && next is Finished,
        after_removal(ObjectReply::NotFound) matches Ok(next) && next is Finished,
        after_removal(ObjectReply::Failed(failed)) matches Err(error) && error is Remove && said(
            error,
        ) == failed@,
{
}

/// The text of a signal that could not be sent begins with the words of its kind.
pub proof fn signal_failures_say_their_kind(value: SignalError)
    ensures
        value is Emitter ==> "create lifecycle signal emitter: "@.is_prefix_of(
            value.lifecycle_text(),
        ),
        value is Method ==> "construct lifecycle object path: "@.is_prefix_of(
            value.lifecycle_text(),
        ),
        value is RegisterDisplay ==> "register cast-display object: "@.is_prefix_of(
            value.lifecycle_text(),
        ),
        value is RegisterMediaSession ==> "register media-session interface: "@.is_prefix_of(
            value.lifecycle_text(),
        ),
        value is LookupDisplay ==> "look up cast-display object: "@.is_prefix_of(
            value.lifecycle_text(),
        ),
        value is LookupMediaSession ==> "look up media-session interface: "@.is_prefix_of(
            value.lifecycle_text(),
        ),
        value is Emit ==> "emit lifecycle signal: "@.is_prefix_of(value.lifecycle_text()),
        value is Remove ==> "remove lifecycle object: "@.is_prefix_of(value.lifecycle_text()),
        value is StatusClosed ==> "display-setup status channel closed before a terminal state"@.is_prefix_of(value.lifecycle_text()),
        value is ManagerStopped ==> "manager stopped before terminal operation retirement"@.is_prefix_of(value.lifecycle_text()),
{
    let text = value.lifecycle_text();
    if value is Emitter {
        assert("create lifecycle signal emitter: "@ =~= text.subrange(
            0,
            "create lifecycle signal emitter: "@.len() as int,
        ));
    }
    if value is Method {
        assert("construct lifecycle object path: "@ =~= text.subrange(
            0,
            "construct lifecycle object path: "@.len() as int,
        ));
    }
    if value is RegisterDisplay {
        assert("register cast-display object: "@ =~= text.subrange(
            0,
            "register cast-display object: "@.len() as int,
        ));
    }
    if value is RegisterMediaSession {
        assert("register media-session interface: "@ =~= text.subrange(
            0,
            "register media-session interface: "@.len() as int,
        ));
    }
    if value is LookupDisplay {
        assert("look up cast-display object: "@ =~= text.subrange(
            0,
            "look up cast-display object: "@.len() as int,
        ));
    }
    if value is LookupMediaSession {
        assert("look up media-session interface: "@ =~= text.subrange(
            0,
            "look up media-session interface: "@.len() as int,
        ));
    }
    if value is Emit {
        assert("emit lifecycle signal: "@ =~= text.subrange(
            0,
            "emit lifecycle signal: "@.len() as int,
        ));
    }
    if value is Remove {
        assert("remove lifecycle object: "@ =~= text.subrange(
            0,
            "remove lifecycle object: "@.len() as int,
        ));
    }
    if value is StatusClosed {
        assert("display-setup status channel closed before a terminal state"@ =~= text.subrange(
            0,
            "display-setup status channel closed before a terminal state"@.len() as int,
        ));
    }
    if value is ManagerStopped {
        assert("manager stopped before terminal operation retirement"@ =~= text.subrange(
            0,
            "manager stopped before terminal operation retirement"@.len() as int,
        ));
    }
}

/// The text of an operation that could not be told begins with the words of its kind.
pub proof fn operation_failures_say_their_kind(value: SignalError)
    ensures
        value is Emitter ==> "create operation signal emitter: "@.is_prefix_of(
            value.operation_text(),
        ),
        value is Emit ==> "emit operation state signal: "@.is_prefix_of(value.operation_text()),
        value is Remove ==> "remove retired operation object: "@.is_prefix_of(
            value.operation_text(),
        ),
{
    let text = value.operation_text();
    if value is Emitter {
        assert("create operation signal emitter: "@ =~= text.subrange(
            0,
            "create operation signal emitter: "@.len() as int,
        ));
    }
    if value is Emit {
        assert("emit operation state signal: "@ =~= text.subrange(
            0,
            "emit operation state signal: "@.len() as int,
        ));
    }
    if value is Remove {
        assert("remove retired operation object: "@ =~= text.subrange(
            0,
            "remove retired operation object: "@.len() as int,
        ));
    }
}

} // verus!
