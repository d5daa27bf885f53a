//! The owner's reactions to commands, observations and events.

use crate::castkms_actor::cec::CecTransmitEvent;
use crate::castkms_actor::frames::{
    handle_source_event, source_handled, QueueFailure, SourceStep, VideoSourceActorEvent,
};
use crate::castkms_actor::holder_sequence::{
    begin, event_begins, event_goes_on, holder_events_keep_the_generation,
    holder_replies_keep_the_generation, proceed, replies_keep_pending_messages,
    settled_keeps_the_rest, suspends, HolderEvent, HolderPhase, HolderPhaseView, HolderProgress,
    HolderProgressView, HolderReply,
};
use crate::castkms_actor::start::{admit_start, start_refusal, AdmittedStart};
use crate::castkms_actor::stop::labelled;
use crate::castkms_actor::{
    combined_kernel_failures, generation_refusal, refuse_generation, ActiveGeneration,
    GenerationView,
};
use crate::cec_bridge::CecBridge;
use crate::display_state::DisplayGrantState;
use crate::kernel_display_port::{kernel_error, KernelDisplayError, KernelDisplayObservation};
use crate::media_driver::note;
use crate::media_session::MediaStartRequest;
use crate::nonzero::{nonzero_u64_ext, NonZeroU64};
use crate::text::{concat, decimal, joined, push_decimal, texts_view};
use vstd::prelude::*;
use vstd::string::*;

verus! {

broadcast use nonzero_u64_ext;

/// What the owner keeps between events.
#[derive(Debug)]
pub struct CaptureActor {
    pub active: Option<ActiveGeneration>,
    pub current: KernelDisplayObservation,
    /// The translator of remote-control messages, if there are to be any.
    pub bridge: Option<CecBridge>,
    /// The message that a device works on.
    pub pending: Option<CecTransmitEvent>,
}

/// The contents of a [`CaptureActor`].
pub struct ActorView {
    pub active: Option<GenerationView>,
    pub current: KernelDisplayObservation,
    pub bridge: Option<Option<Seq<char>>>,
    pub pending: Option<CecTransmitEvent>,
}

impl View for CaptureActor {
    type V = ActorView;

    open spec fn view(&self) -> ActorView {
        ActorView {
            active: match self.active {
                Some(active) => Some(active@),
                None => None,
            },
            current: self.current,
            bridge: match self.bridge {
                Some(bridge) => Some(bridge@),
                None => None,
            },
            pending: self.pending,
        }
    }
}

impl ActorView {
    pub open spec fn wf(self) -> bool {
        self.active matches Some(active) ==> active.wf()
    }
}

/// What is left to do about an event, in order. A step that fails ends the
/// owner with an error of the step's operation.
#[derive(Debug, PartialEq, Eq)]
pub enum ActorStep {
    /// Ask the kernel for the state of the grant and take it in.
    ReconcileGrant { operation: &'static str },
    /// Let the remote-control transport follow the grant.
    SynchronizeCec { authority_active: bool },
    /// Tell the display's owner what is seen now.
    Publish(KernelDisplayObservation),
    /// Tell the display's owner that the grant is gone.
    PublishRevoked,
    /// Stop the generation and report it as failed.
    FailActive(String),
}

/// The contents of an [`ActorStep`].
pub enum ActorStepView {
    ReconcileGrant { operation: Seq<char> },
    SynchronizeCec { authority_active: bool },
    Publish(KernelDisplayObservation),
    PublishRevoked,
    FailActive(Seq<char>),
}

impl View for ActorStep {
    type V = ActorStepView;

    open spec fn view(&self) -> ActorStepView {
        match *self {
            ActorStep::ReconcileGrant { operation } => ActorStepView::ReconcileGrant {
                operation: operation@,
            },
            ActorStep::SynchronizeCec { authority_active } => ActorStepView::SynchronizeCec {
                authority_active,
            },
            ActorStep::Publish(observation) => ActorStepView::Publish(observation),
            ActorStep::PublishRevoked => ActorStepView::PublishRevoked,
            ActorStep::FailActive(text) => ActorStepView::FailActive(text@),
        }
    }
}

/// The contents of a list of steps.
pub open spec fn steps_view(steps: Seq<ActorStep>) -> Seq<ActorStepView> {
    steps.map_values(|step: ActorStep| step@)
}

fn push_step(steps: &mut Vec<ActorStep>, step: ActorStep)
    ensures
        steps_view(final(steps)@) == steps_view(old(steps)@).push(step@),
{
    steps.push(step);
    proof {
        assert(steps_view(steps@) =~= steps_view(old(steps)@).push(step@));
    }
}

/// The name of a grant state.
pub open spec fn grant_name(state: DisplayGrantState) -> Seq<char> {
    match state {
        DisplayGrantState::Pending => "Pending"@,
        DisplayGrantState::Active => "Active"@,
        DisplayGrantState::SuspendedNoMaster => "SuspendedNoMaster"@,
        DisplayGrantState::SuspendedOtherMaster => "SuspendedOtherMaster"@,
        DisplayGrantState::SuspendedForeignContent => "SuspendedForeignContent"@,
        DisplayGrantState::Revoked => "Revoked"@,
    }
}

/// Why a generation fails that has lost its grant.
pub open spec fn grant_failure(state: DisplayGrantState) -> Seq<char> {
    "CastKMS grant became "@ + grant_name(state)
}

fn grant_failure_text(state: DisplayGrantState) -> (text: String)
    ensures
        text@ == grant_failure(state),
{
    let name = match state {
        DisplayGrantState::Pending => "Pending",
        DisplayGrantState::Active => "Active",
        DisplayGrantState::SuspendedNoMaster => "SuspendedNoMaster",
        DisplayGrantState::SuspendedOtherMaster => "SuspendedOtherMaster",
        DisplayGrantState::SuspendedForeignContent => "SuspendedForeignContent",
        DisplayGrantState::Revoked => "Revoked",
    };
    concat("CastKMS grant became ", name)
}

/// One step, or none.
pub open spec fn when(condition: bool, step: ActorStepView) -> Seq<ActorStepView> {
    if condition {
        seq![step]
    } else {
        Seq::empty()
    }
}

/// The steps after a periodic observation.
pub open spec fn poll_steps(actor: ActorView, observation: KernelDisplayObservation) -> Seq<
    ActorStepView,
> {
    let grant_changed = observation.grant_state != actor.current.grant_state;
    let lost = observation.grant_state != DisplayGrantState::Active && actor.active is Some;
    when(
        grant_changed || lost,
        ActorStepView::ReconcileGrant { operation: "reconcile CastKMS grant state"@ },
    ) + when(
        grant_changed,
        ActorStepView::SynchronizeCec {
            authority_active: observation.grant_state == DisplayGrantState::Active,
        },
    ) + when(observation != actor.current, ActorStepView::Publish(observation)) + when(
        lost,
        ActorStepView::FailActive(grant_failure(observation.grant_state)),
    )
}

/// The steps after a change of the grant has been taken in.
pub open spec fn grant_steps(
    actor: ActorView,
    state: DisplayGrantState,
    observation: KernelDisplayObservation,
) -> Seq<ActorStepView> {
    when(observation != actor.current, ActorStepView::Publish(observation)) + when(
        state != DisplayGrantState::Active && actor.active is Some,
        ActorStepView::FailActive(grant_failure(state)),
    )
}

/// The steps after the grant was revoked.
pub open spec fn revoked_steps(actor: ActorView) -> Seq<ActorStepView> {
    seq![
        ActorStepView::SynchronizeCec { authority_active: false },
        ActorStepView::PublishRevoked,
    ] + when(
        actor.active is Some,
        ActorStepView::ReconcileGrant { operation: "reconcile revoked CastKMS grant"@ },
    ) + when(actor.active is Some, ActorStepView::FailActive("CastKMS grant was revoked"@))
}

/// The answer to a request to stop a generation.
#[derive(Debug, PartialEq, Eq)]
pub enum StopAnswer {
    /// Nothing is active.
    AlreadyStopped,
    StopActive,
    Refused(KernelDisplayError),
}

/// How the owner goes on.
#[derive(Debug, PartialEq, Eq)]
pub enum ActorFlow {
    Continue,
    FailActive(String),
    Stop(KernelDisplayError),
}

/// What to do once a start has been answered.
#[derive(Debug, PartialEq, Eq)]
pub struct StartFlow {
    /// The requester is gone: stop the generation that was started for it.
    pub stop_active: bool,
    /// Something of a failed start is still held: the owner ends.
    pub end: Option<KernelDisplayError>,
}

impl CaptureActor {
    /// An owner without a generation. It translates remote-control messages if
    /// there is a device to control and a transport that is bound.
    pub fn new(current: KernelDisplayObservation, device_control: bool, transport_bound: bool) -> (actor:
        Self)
        ensures
            actor@ == (ActorView {
                active: None,
                current,
                bridge: if device_control && transport_bound {
                    Some(None)
                } else {
                    None
                },
                pending: None,
            }),
            actor@.wf(),
    {
        let bridge = if device_control && transport_bound {
            Some(CecBridge::new())
        } else {
            None
        };
        CaptureActor { active: None, current, bridge, pending: None }
    }

    fn publish_observation(
        &mut self,
        observation: KernelDisplayObservation,
        steps: &mut Vec<ActorStep>,
    )
        ensures
            final(self)@ == (ActorView { current: observation, ..old(self)@ }),
            steps_view(final(steps)@) == steps_view(old(steps)@) + when(
                observation != old(self)@.current,
                ActorStepView::Publish(observation),
            ),
    {
        let ghost before = steps_view(steps@);
        if observation != self.current {
            self.current = observation;
            push_step(steps, ActorStep::Publish(observation));
        }
        proof {
            assert(steps_view(steps@) =~= before + when(
                observation != old(self)@.current,
                ActorStepView::Publish(observation),
            ));
        }
    }

    /// React to a periodic observation.
    pub fn poll(&mut self, observation: KernelDisplayObservation) -> (steps: Vec<ActorStep>)
        ensures
            final(self)@ == (ActorView { current: observation, ..old(self)@ }),
            steps_view(steps@) == poll_steps(old(self)@, observation),
    {
        let ghost before = self@;
        let mut steps: Vec<ActorStep> = Vec::new();
        let grant_active = observation.grant_state == DisplayGrantState::Active;
        let grant_changed = observation.grant_state != self.current.grant_state;
        let lost = !grant_active && self.active.is_some();
        if grant_changed || lost {
            push_step(
                &mut steps,
                ActorStep::ReconcileGrant { operation: "reconcile CastKMS grant state" },
            );
        }
        if grant_changed {
            push_step(&mut steps, ActorStep::SynchronizeCec { authority_active: grant_active });
        }
        self.publish_observation(observation, &mut steps);
        if lost {
            push_step(
                &mut steps,
                ActorStep::FailActive(grant_failure_text(observation.grant_state)),
            );
        }
        proof {
            assert(steps_view(steps@) =~= poll_steps(before, observation));
        }
        steps
    }

    /// React to a change of the grant, once it has been taken in and the
    /// display has been observed again.
    pub fn grant_changed(
        &mut self,
        state: DisplayGrantState,
        observation: KernelDisplayObservation,
    ) -> (steps: Vec<ActorStep>)
        ensures
            final(self)@ == (ActorView { current: observation, ..old(self)@ }),
            steps_view(steps@) == grant_steps(old(self)@, state, observation),
    {
        let ghost before = self@;
        let mut steps: Vec<ActorStep> = Vec::new();
        let lost = state != DisplayGrantState::Active && self.active.is_some();
        self.publish_observation(observation, &mut steps);
        if lost {
            push_step(&mut steps, ActorStep::FailActive(grant_failure_text(state)));
        }
        proof {
            assert(steps_view(steps@) =~= grant_steps(before, state, observation));
        }
        steps
    }

    /// React to the end of the grant.
    pub fn grant_revoked(&self) -> (steps: Vec<ActorStep>)
        ensures
            steps_view(steps@) == revoked_steps(self@),
    {
        let mut steps: Vec<ActorStep> = Vec::new();
        push_step(&mut steps, ActorStep::SynchronizeCec { authority_active: false });
        push_step(&mut steps, ActorStep::PublishRevoked);
        if self.active.is_some() {
            push_step(
                &mut steps,
                ActorStep::ReconcileGrant { operation: "reconcile revoked CastKMS grant" },
            );
            push_step(&mut steps, ActorStep::FailActive("CastKMS grant was revoked".to_owned()));
        }
        proof {
            assert(steps_view(steps@) =~= revoked_steps(self@));
        }
        steps
    }

    /// Whether `requested` is the active generation; the refusal if not.
    pub fn require_generation(&self, requested: NonZeroU64) -> (result: Result<
        (),
        KernelDisplayError,
    >)
        ensures
            match self@.active {
                None => result is Err && result->Err_0@ == kernel_error(
                    "select capture generation"@,
                    "no media generation is active"@,
                ),
                Some(active) => if active.media_generation != requested {
                    result is Err && result->Err_0@ == kernel_error(
                        "select capture generation"@,
                        generation_refusal(requested, active.media_generation),
                    )
                } else {
                    result is Ok
                },
            },
    {
        match &self.active {
            None => Err(
                KernelDisplayError::new(
                    "select capture generation",
                    "no media generation is active",
                ),
            ),
            Some(active) => if active.media_generation != requested {
                Err(
                    KernelDisplayError {
                        operation: "select capture generation",
                        message: refuse_generation(requested, active.media_generation),
                    },
                )
            } else {
                Ok(())
            },
        }
    }

    /// Let the active generation capture, or keep it from capturing.
    pub fn set_suspended(&mut self, requested: NonZeroU64, suspended: bool) -> (result: Result<
        (),
        KernelDisplayError,
    >)
        ensures
            final(self)@ == with_suspended(old(self)@, requested, suspended),
            match old(self)@.active {
                None => {
                    &&& result is Err
                    &&& result->Err_0@ == kernel_error(
                        "select capture generation"@,
                        "no media generation is active"@,
                    )
                    &&& final(self)@ == old(self)@
                },
                Some(active) => if active.media_generation != requested {
                    &&& result is Err
                    &&& result->Err_0@ == kernel_error(
                        "select capture generation"@,
                        generation_refusal(requested, active.media_generation),
                    )
                    &&& final(self)@ == old(self)@
                } else {
                    &&& result is Ok
                    &&& final(self)@.active == Some(GenerationView { suspended, ..active })
                },
            },
    {
        if let Err(error) = self.require_generation(requested) {
            return Err(error);
        }
        if let Some(active) = &mut self.active {
            active.suspended = suspended;
        }
        Ok(())
    }

    /// Answer a request to stop a generation.
    pub fn stop_requested(&self, requested: NonZeroU64) -> (answer: StopAnswer)
        ensures
            match self@.active {
                None => answer == StopAnswer::AlreadyStopped,
                Some(active) => if active.media_generation == requested {
                    answer == StopAnswer::StopActive
                } else {
                    answer matches StopAnswer::Refused(error) && error@ == kernel_error(
                        "stop capture generation"@,
                        generation_refusal(requested, active.media_generation),
                    )
                },
            },
    {
        match &self.active {
            None => StopAnswer::AlreadyStopped,
            Some(active) => if active.media_generation == requested {
                StopAnswer::StopActive
            } else {
                StopAnswer::Refused(
                    KernelDisplayError {
                        operation: "stop capture generation",
                        message: refuse_generation(requested, active.media_generation),
                    },
                )
            },
        }
    }

    /// Take the active generation, to stop it; it captures no more.
    pub fn take_active(&mut self) -> (taken: Option<ActiveGeneration>)
        ensures
            final(self)@ == (ActorView { active: None, ..old(self)@ }),
            match old(self)@.active {
                None => taken is None,
                Some(active) => taken is Some && taken->0@ == (GenerationView {
                    suspended: true,
                    ..active
                }),
            },
    {
        match self.active.take() {
            None => None,
            Some(mut active) => {
                active.suspended = true;
                Some(active)
            },
        }
    }

    /// Take in an event of the video source, or the end of its events.
    pub fn source_event(&mut self, event: Option<VideoSourceActorEvent>) -> (result: Result<
        SourceStep,
        KernelDisplayError,
    >)
        requires
            old(self)@.wf(),
        ensures
            final(self)@.wf(),
            final(self)@ == (ActorView { active: final(self)@.active, ..old(self)@ }),
            match (old(self)@.active, event) {
                (_, None) => {
                    &&& final(self)@ == old(self)@
                    &&& result is Err
                    &&& result->Err_0@ == kernel_error(
                        "observe PipeWire source"@,
                        "source actor event stream closed"@,
                    )
                },
                (None, Some(_)) => {
                    &&& final(self)@ == old(self)@
                    &&& result is Err
                    &&& result->Err_0@ == kernel_error(
                        "handle PipeWire source event"@,
                        "no active generation"@,
                    )
                },
                (Some(active), Some(event)) => {
                    &&& final(self)@.active == Some(source_handled(active, event).0)
                    &&& match source_handled(active, event).1 {
                        Ok(step) => result == Ok::<_, KernelDisplayError>(step),
                        Err(error) => result is Err && result->Err_0@ == error,
                    }
                },
            },
    {
        let event = match event {
            Some(event) => event,
            None => {
                return Err(
                    KernelDisplayError::new(
                        "observe PipeWire source",
                        "source actor event stream closed",
                    ),
                );
            },
        };
        match &mut self.active {
            None => Err(
                KernelDisplayError::new("handle PipeWire source event", "no active generation"),
            ),
            Some(active) => handle_source_event(active, event),
        }
    }
}

/// What happens to the owner.
#[derive(Debug)]
pub enum ActorEvent {
    Start { request: MediaStartRequest, connector_id: u32, grant_id: u32, cancelled: bool },
    /// A start went through.
    Started(ActiveGeneration),
    /// Whoever asked for a start was told what came of it, or is gone. The
    /// rest tells what the kernel still holds.
    StartAnswered {
        started: bool,
        answered: bool,
        holds_active_stream: bool,
        holds_retired_stream: bool,
    },
    Activate { media_generation: NonZeroU64 },
    Suspend { media_generation: NonZeroU64 },
    Stop { media_generation: NonZeroU64 },
    Detach,
    /// All command handles are gone.
    CommandsClosed,
    /// The grant's holder has something to take in. The rest tells of the
    /// remote-control transport.
    Holder { event: HolderEvent, online: bool, bound: bool },
    /// What an event of the holder waits for was done.
    HolderReply { phase: HolderPhase, reply: HolderReply, bound: bool },
    /// A captured frame was handed on, or could not be.
    FrameHandled(Result<(), KernelDisplayError>),
    /// The video source tells something, or will tell nothing any more.
    Source(Option<VideoSourceActorEvent>),
    /// A buffer was queued, or could not be.
    Queued(Result<(), QueueFailure>),
}

/// What the owner does about an event.
#[derive(Debug)]
pub enum ActorReaction {
    Nothing,
    /// Start the admitted request, or tell why it is not.
    Start(Result<AdmittedStart, KernelDisplayError>),
    AfterStart(StartFlow),
    Reply(Result<(), KernelDisplayError>),
    Stop(StopAnswer),
    /// Take everything down: the generation, and the message that a device
    /// works on.
    Detach { generation: Option<ActiveGeneration>, pending: Option<CecTransmitEvent> },
    /// Go on with the event of the holder.
    Holder(HolderProgress),
    /// Do what is left of the event, then try to queue a buffer.
    Source(SourceStep),
    TryQueue,
    FailActive(String),
    /// The owner ends.
    End(KernelDisplayError),
}

/// The answer to a request about the active generation.
pub open spec fn selects(
    actor: ActorView,
    requested: NonZeroU64,
    result: Result<(), KernelDisplayError>,
) -> bool {
    match actor.active {
        None => result is Err && result->Err_0@ == kernel_error(
            "select capture generation"@,
            "no media generation is active"@,
        ),
        Some(active) => if active.media_generation != requested {
            result is Err && result->Err_0@ == kernel_error(
                "select capture generation"@,
                generation_refusal(requested, active.media_generation),
            )
        } else {
            result is Ok
        },
    }
}

/// The active generation with its capture allowed, or kept back; another one
/// stays as it is.
pub open spec fn with_suspended(actor: ActorView, requested: NonZeroU64, suspended: bool) -> ActorView {
    match actor.active {
        Some(active) => if active.media_generation == requested {
            ActorView { active: Some(GenerationView { suspended, ..active }), ..actor }
        } else {
            actor
        },
        None => actor,
    }
}

/// The event can come now: a generation is started only where there was none.
pub open spec fn may_come(actor: ActorView, event: ActorEvent) -> bool {
    event matches ActorEvent::Started(generation) ==> actor.active is None && generation@.wf()
}

/// The owner took an event in as it is due.
pub open spec fn actor_reacts(
    before: ActorView,
    event: ActorEvent,
    after: ActorView,
    reaction: ActorReaction,
) -> bool {
    match event {
        ActorEvent::Start { request, connector_id, grant_id, cancelled } => {
            &&& after == before
            &&& reaction matches ActorReaction::Start(result)
            &&& match start_refusal(
                before.active is Some,
                request,
                connector_id,
                grant_id,
                cancelled,
            ) {
                Some(refusal) => result is Err && result->Err_0@ == kernel_error(
                    "start capture generation"@,
                    refusal,
                ),
                None => {
                    &&& result is Ok
                    &&& result->Ok_0.request == request
                    &&& result->Ok_0.media_generation@ == request.media_generation
                    &&& result->Ok_0.connector_id@ == connector_id
                    &&& result->Ok_0.grant_id@ == grant_id
                },
            }
        },
        ActorEvent::Started(generation) => {
            &&& after == (ActorView { active: Some(generation@), ..before })
            &&& reaction is Nothing
        },
        ActorEvent::StartAnswered {
            started,
            answered,
            holds_active_stream,
            holds_retired_stream,
        } => {
            &&& after == before
            &&& reaction matches ActorReaction::AfterStart(flow)
            &&& flow.stop_active == (started && !answered)
            &&& flow.end is Some <==> !started && (holds_active_stream || holds_retired_stream)
            &&& flow.end matches Some(error) ==> error@ == kernel_error(
                "roll back failed capture start"@,
                "capture resources remain owned after startup failure"@,
            )
        },
        ActorEvent::Detach => {
            &&& after == (ActorView { active: None, pending: None, ..before })
            &&& reaction matches ActorReaction::Detach { generation, pending }
            &&& pending == before.pending
            &&& match before.active {
                None => generation is None,
                Some(active) => generation is Some && generation->0@ == (GenerationView {
                    suspended: true,
                    ..active
                }),
            }
        },
        ActorEvent::Holder { event, online, bound } => reaction matches ActorReaction::Holder(
            progress,
        ) && (after, progress@) == event_begins(before, event, online, bound),
        ActorEvent::HolderReply { phase, reply, bound } => reaction matches ActorReaction::Holder(
            progress,
        ) && (after, progress@) == event_goes_on(before, phase@, reply, bound),
        ActorEvent::Activate { media_generation } => {
            &&& after == with_suspended(before, media_generation, false)
            &&& reaction matches ActorReaction::Reply(result) && selects(
                before,
                media_generation,
                result,
            )
        },
        ActorEvent::Suspend { media_generation } => {
            &&& after == with_suspended(before, media_generation, true)
            &&& reaction matches ActorReaction::Reply(result) && selects(
                before,
                media_generation,
                result,
            )
        },
        ActorEvent::Stop { media_generation } => {
            &&& after == before
            &&& reaction matches ActorReaction::Stop(answer)
            &&& match before.active {
                None => answer == StopAnswer::AlreadyStopped,
                Some(active) => if active.media_generation == media_generation {
                    answer == StopAnswer::StopActive
                } else {
                    answer matches StopAnswer::Refused(error) && error@ == kernel_error(
                        "stop capture generation"@,
                        generation_refusal(media_generation, active.media_generation),
                    )
                },
            }
        },
        ActorEvent::CommandsClosed => {
            &&& after == before
            &&& reaction matches ActorReaction::End(error) && error@ == kernel_error(
                "run CastKMS actor"@,
                "all command handles closed without orderly detach"@,
            )
        },
        ActorEvent::FrameHandled(Ok(_)) => after == before && reaction is TryQueue,
        ActorEvent::FrameHandled(Err(error)) => {
            &&& after == before
            &&& reaction matches ActorReaction::FailActive(text) && text@ == error@.text()
        },
        ActorEvent::Source(None) => {
            &&& after == before
            &&& reaction matches ActorReaction::FailActive(text) && text@ == kernel_error(
                "observe PipeWire source"@,
                "source actor event stream closed"@,
            ).text()
        },
        ActorEvent::Source(Some(event)) => match before.active {
            None => {
                &&& after == before
                &&& reaction matches ActorReaction::FailActive(text) && text@ == kernel_error(
                    "handle PipeWire source event"@,
                    "no active generation"@,
                ).text()
            },
            Some(active) => {
                &&& after == (ActorView {
                    active: Some(source_handled(active, event).0),
                    ..before
                })
                &&& match source_handled(active, event).1 {
                    Ok(step) => reaction == ActorReaction::Source(step),
                    Err(error) => reaction matches ActorReaction::FailActive(text) && text@
                        == error.text(),
                }
            },
        },
        ActorEvent::Queued(Ok(_)) => after == before && reaction is Nothing,
        ActorEvent::Queued(Err(QueueFailure::Recoverable(error))) => {
            &&& after == before
            &&& reaction matches ActorReaction::FailActive(text) && text@ == error@.text()
        },
        ActorEvent::Queued(Err(QueueFailure::Fatal(error))) => after == before && reaction
            == ActorReaction::End(error),
    }
}

/// React to one event.
pub fn run_actor(actor: &mut CaptureActor, event: ActorEvent) -> (reaction: ActorReaction)
    requires
        old(actor)@.wf(),
        may_come(old(actor)@, event),
    ensures
        final(actor)@.wf(),
        actor_reacts(old(actor)@, event, final(actor)@, reaction),
{
    match event {
        ActorEvent::Start { request, connector_id, grant_id, cancelled } => ActorReaction::Start(
            admit_start(actor.active.is_some(), request, connector_id, grant_id, cancelled),
        ),
        ActorEvent::Started(generation) => {
            actor.active = Some(generation);
            ActorReaction::Nothing
        },
        ActorEvent::StartAnswered {
            started,
            answered,
            holds_active_stream,
            holds_retired_stream,
        } => ActorReaction::AfterStart(
            after_start(started, answered, holds_active_stream, holds_retired_stream),
        ),
        ActorEvent::Detach => {
            let generation = actor.take_active();
            let pending = actor.pending.take();
            ActorReaction::Detach { generation, pending }
        },
        ActorEvent::Holder { event, online, bound } => {
            proof {
                holder_events_keep_the_generation(actor@, event, online, bound);
            }
            ActorReaction::Holder(begin(actor, event, online, bound))
        },
        ActorEvent::HolderReply { phase, reply, bound } => {
            proof {
                holder_replies_keep_the_generation(actor@, phase@, reply, bound);
            }
            ActorReaction::Holder(proceed(actor, phase, reply, bound))
        },
        ActorEvent::Activate { media_generation } => ActorReaction::Reply(
            actor.set_suspended(media_generation, false),
        ),
        ActorEvent::Suspend { media_generation } => ActorReaction::Reply(
            actor.set_suspended(media_generation, true),
        ),
        ActorEvent::Stop { media_generation } => ActorReaction::Stop(
            actor.stop_requested(media_generation),
        ),
        ActorEvent::CommandsClosed => ActorReaction::End(commands_closed()),
        ActorEvent::FrameHandled(Ok(())) => ActorReaction::TryQueue,
        ActorEvent::FrameHandled(Err(error)) => ActorReaction::FailActive(error.to_text()),
        ActorEvent::Source(event) => match actor.source_event(event) {
            Ok(step) => ActorReaction::Source(step),
            Err(error) => ActorReaction::FailActive(error.to_text()),
        },
        ActorEvent::Queued(result) => match after_queue(result) {
            ActorFlow::Continue => ActorReaction::Nothing,
            ActorFlow::FailActive(text) => ActorReaction::FailActive(text),
            ActorFlow::Stop(error) => ActorReaction::End(error),
        },
    }
}

/// The refusal of a frame that nothing was captured for.
pub fn frame_without_generation() -> (error: KernelDisplayError)
    ensures
        error@ == kernel_error(
            "handle CastKMS capture frame"@,
            "frame arrived without an active media generation"@,
        ),
{
    KernelDisplayError::new(
        "handle CastKMS capture frame",
        "frame arrived without an active media generation",
    )
}

/// How to go on after an attempt to queue a buffer.
pub fn after_queue(result: Result<(), QueueFailure>) -> (flow: ActorFlow)
    ensures
        match result {
            Ok(_) => flow == ActorFlow::Continue,
            Err(QueueFailure::Recoverable(error)) => flow matches ActorFlow::FailActive(text)
                && text@ == error@.text(),
            Err(QueueFailure::Fatal(error)) => flow == ActorFlow::Stop(error),
        },
{
    match result {
        Ok(()) => ActorFlow::Continue,
        Err(QueueFailure::Recoverable(error)) => ActorFlow::FailActive(error.to_text()),
        Err(QueueFailure::Fatal(error)) => ActorFlow::Stop(error),
    }
}

/// How to go on after a start, once the requester has been answered.
pub fn after_start(
    started: bool,
    answered: bool,
    holds_active_stream: bool,
    holds_retired_stream: bool,
) -> (flow: StartFlow)
    ensures
        flow.stop_active == (started && !answered),
        flow.end is Some <==> !started && (holds_active_stream || holds_retired_stream),
        flow.end matches Some(error) ==> error@ == kernel_error(
            "roll back failed capture start"@,
            "capture resources remain owned after startup failure"@,
        ),
{
    StartFlow {
        stop_active: started && !answered,
        end: if !started && (holds_active_stream || holds_retired_stream) {
            Some(
                KernelDisplayError::new(
                    "roll back failed capture start",
                    "capture resources remain owned after startup failure",
                ),
            )
        } else {
            None
        },
    }
}

/// The end of an owner whose command handles are all gone.
pub fn commands_closed() -> (error: KernelDisplayError)
    ensures
        error@ == kernel_error(
            "run CastKMS actor"@,
            "all command handles closed without orderly detach"@,
        ),
{
    KernelDisplayError::new(
        "run CastKMS actor",
        "all command handles closed without orderly detach",
    )
}

/// A failure as one line; nothing for a success.
pub open spec fn failure_text(result: Result<(), KernelDisplayError>) -> Seq<Seq<char>> {
    match result {
        Ok(_) => Seq::empty(),
        Err(error) => seq![error@.text()],
    }
}

/// What is told of a detachment: the failures of all its parts.
pub open spec fn tells_detachment(
    stopped: Result<(), KernelDisplayError>,
    source: Result<(), String>,
    cec: Seq<Seq<char>>,
    detach: Result<(), KernelDisplayError>,
    result: Result<(), KernelDisplayError>,
) -> bool {
    ({
        let failures = failure_text(stopped) + labelled(
            "shut down PipeWire source actor: "@,
            source,
        ) + cec + failure_text(detach);
        &&& result is Ok <==> failures.len() == 0
        &&& result matches Err(error) ==> error@ == kernel_error(
            "tear down CastKMS actor"@,
            joined(failures, "; "@),
        )
    })
}

/// The answer to an orderly detach: every part is tried, and every failure is
/// told. `cec` holds the failures of the remote-control transport.
pub fn detached(
    stopped: Result<(), KernelDisplayError>,
    source: Result<(), String>,
    cec: Vec<String>,
    detach: Result<(), KernelDisplayError>,
) -> (result: Result<(), KernelDisplayError>)
    ensures
        tells_detachment(stopped, source, texts_view(cec@), detach, result),
{
    let mut failures: Vec<String> = Vec::new();
    let ghost first = failure_text(stopped);
    let ghost second = labelled("shut down PipeWire source actor: "@, source);
    let ghost third = texts_view(cec@);
    let ghost fourth = failure_text(detach);
    if let Err(error) = stopped {
        note(&mut failures, error.to_text());
    }
    proof {
        assert(texts_view(failures@) =~= first);
    }
    crate::castkms_actor::stop::note_reply(
        "shut down PipeWire source actor: ",
        source,
        &mut failures,
    );
    let ghost held = failures@;
    let mut cec = cec;
    let ghost more = cec@;
    failures.append(&mut cec);
    proof {
        assert(failures@ =~= held + more);
        assert(texts_view(failures@) =~= first + second + third);
    }
    if let Err(error) = detach {
        note(&mut failures, error.to_text());
    }
    proof {
        assert(texts_view(failures@) =~= first + second + third + fourth);
    }
    combined_kernel_failures("tear down CastKMS actor", failures)
}

/// The check of a freshly granted connector: it is the output that was
/// reserved.
pub fn validate_output_identity(granted: u32, reserved: u32) -> (result: Result<
    (),
    KernelDisplayError,
>)
    ensures
        result is Ok <==> granted == reserved,
        result matches Err(error) ==> error@ == kernel_error(
            "validate connector output identity"@,
            "grant output index "@ + decimal(granted as nat) + " differs from reserved output "@
                + decimal(reserved as nat),
        ),
{
    if granted == reserved {
        return Ok(());
    }
    let mut text = "grant output index ".to_owned();
    push_decimal(&mut text, granted as u64);
    text.append(" differs from reserved output ");
    push_decimal(&mut text, reserved as u64);
    Err(KernelDisplayError { operation: "validate connector output identity", message: text })
}

/// Whether the transport of a connector is bound.
pub open spec fn transport_checked(
    device_control: bool,
    transport: Option<u32>,
    reserved: u32,
    result: Result<bool, KernelDisplayError>,
) -> bool {
    match result {
        Ok(bind) => {
            &&& bind == (device_control && transport is Some)
            &&& bind ==> transport == Some(reserved)
        },
        Err(error) => {
            &&& device_control
            &&& transport is Some
            &&& transport->0 != reserved
            &&& error@ == kernel_error(
                "validate connector CEC identity"@,
                "CEC output index "@ + decimal(transport->0 as nat)
                    + " differs from reserved output "@ + decimal(reserved as nat),
            )
        },
    }
}

/// Whether to bind the remote-control transport of a connector, given the
/// output that the transport says it belongs to, if there is one.
pub fn bind_cec_transport(device_control: bool, transport: Option<u32>, reserved: u32) -> (result:
    Result<bool, KernelDisplayError>)
    ensures
        transport_checked(device_control, transport, reserved, result),
{
    if !device_control {
        return Ok(false);
    }
    match transport {
        None => Ok(false),
        Some(output_index) => {
            if output_index != reserved {
                let mut text = "CEC output index ".to_owned();
                push_decimal(&mut text, output_index as u64);
                text.append(" differs from reserved output ");
                push_decimal(&mut text, reserved as u64);
                return Err(
                    KernelDisplayError {
                        operation: "validate connector CEC identity",
                        message: text,
                    },
                );
            }
            Ok(true)
        },
    }
}

/// What the spawning of an actor waits for.
#[derive(Debug, Clone, Copy, PartialEq, Eq, Structural)]
pub enum SpawnStep {
    /// Look at the display for the first time.
    Observe,
    /// Ask for the remote-control transport.
    QueryCec,
    BindCec,
    BringCecOnline,
    /// Wait for the grant's events.
    Register,
    SpawnSource,
}

/// The answer to a step.
#[derive(Debug, PartialEq, Eq)]
pub enum SpawnReply {
    Done(Result<(), String>),
    Observed(Result<(), KernelDisplayError>),
    /// The output of the connector's transport, if it has one.
    Cec(Result<Option<u32>, String>),
}

/// What follows a step of the start of an owner.
pub open spec fn spawn_goes_on(
    step: SpawnStep,
    device_control: bool,
    reserved: u32,
    reply: SpawnReply,
    result: Result<Option<SpawnStep>, KernelDisplayError>,
) -> bool {
    match reply {
        SpawnReply::Observed(Err(error)) => result == Err::<Option<SpawnStep>, _>(error),
        SpawnReply::Observed(Ok(_)) => result == Ok::<_, KernelDisplayError>(
            Some(
                if device_control {
                    SpawnStep::QueryCec
                } else {
                    SpawnStep::Register
                },
            ),
        ),
        SpawnReply::Cec(Err(text)) => result is Err && result->Err_0@ == kernel_error(
            step.label(),
            text@,
        ),
        SpawnReply::Cec(Ok(None)) => result == Ok::<_, KernelDisplayError>(
            Some(SpawnStep::Register),
        ),
        SpawnReply::Cec(Ok(Some(transport))) => if !device_control {
            result == Ok::<_, KernelDisplayError>(Some(SpawnStep::Register))
        } else if transport == reserved {
            result == Ok::<_, KernelDisplayError>(Some(SpawnStep::BindCec))
        } else {
            result is Err && result->Err_0@ == kernel_error(
                "validate connector CEC identity"@,
                "CEC output index "@ + decimal(transport as nat)
                    + " differs from reserved output "@ + decimal(reserved as nat),
            )
        },
        SpawnReply::Done(Err(text)) => result is Err && result->Err_0@ == kernel_error(
            step.label(),
            text@,
        ),
        SpawnReply::Done(Ok(_)) => result == Ok::<_, KernelDisplayError>(
            match step {
                SpawnStep::BindCec => Some(SpawnStep::BringCecOnline),
                SpawnStep::BringCecOnline => Some(SpawnStep::Register),
                SpawnStep::Register => Some(SpawnStep::SpawnSource),
                _ => None,
            },
        ),
    }
}

impl SpawnStep {
    /// The reply answers the step.
    pub open spec fn awaits(self, reply: SpawnReply) -> bool {
        match self {
            SpawnStep::Observe => reply is Observed,
            SpawnStep::QueryCec => reply is Cec,
            _ => reply is Done,
        }
    }

    /// What a failure of the step is called. An observation that fails brings
    /// its own name.
    pub open spec fn label(self) -> Seq<char> {
        match self {
            SpawnStep::Observe => ""@,
            SpawnStep::QueryCec => "query connector CEC capabilities"@,
            SpawnStep::BindCec => "bind connector CEC transport"@,
            SpawnStep::BringCecOnline => "bring connector CEC transport online"@,
            SpawnStep::Register => "register grant holder for Tokio readiness"@,
            SpawnStep::SpawnSource => "spawn per-display PipeWire source actor"@,
        }
    }

    fn name(self) -> (label: &'static str)
        ensures
            label@ == self.label(),
    {
        match self {
            SpawnStep::Observe => "",
            SpawnStep::QueryCec => "query connector CEC capabilities",
            SpawnStep::BindCec => "bind connector CEC transport",
            SpawnStep::BringCecOnline => "bring connector CEC transport online",
            SpawnStep::Register => "register grant holder for Tokio readiness",
            SpawnStep::SpawnSource => "spawn per-display PipeWire source actor",
        }
    }

    /// Go on after a step: the next one, or none if the actor can run. The
    /// transport is bound only if it belongs to the reserved output; a
    /// connector without one goes on without remote control.
    pub fn spawn(self, device_control: bool, reserved: u32, reply: SpawnReply) -> (result: Result<
        Option<SpawnStep>,
        KernelDisplayError,
    >)
        requires
            self.awaits(reply),
        ensures
            spawn_goes_on(self, device_control, reserved, reply, result),
    {
        match reply {
            SpawnReply::Observed(Err(error)) => Err(error),
            SpawnReply::Observed(Ok(())) => if device_control {
                Ok(Some(SpawnStep::QueryCec))
            } else {
                Ok(Some(SpawnStep::Register))
            },
            SpawnReply::Cec(Err(text)) => Err(
                KernelDisplayError { operation: self.name(), message: text },
            ),
            SpawnReply::Cec(Ok(transport)) => match bind_cec_transport(
                device_control,
                transport,
                reserved,
            ) {
                Err(error) => Err(error),
                Ok(true) => Ok(Some(SpawnStep::BindCec)),
                Ok(false) => Ok(Some(SpawnStep::Register)),
            },
            SpawnReply::Done(Err(text)) => Err(
                KernelDisplayError { operation: self.name(), message: text },
            ),
            SpawnReply::Done(Ok(())) => match self {
                SpawnStep::BindCec => Ok(Some(SpawnStep::BringCecOnline)),
                SpawnStep::BringCecOnline => Ok(Some(SpawnStep::Register)),
                SpawnStep::Register => Ok(Some(SpawnStep::SpawnSource)),
                _ => Ok(None),
            },
        }
    }
}

/// The reply to a message without a bridge to translate it.
pub fn cec_without_bridge() -> (error: KernelDisplayError)
    ensures
        error@ == kernel_error(
            "handle CastKMS CEC transmit"@,
            "CEC event arrived without an enabled Device control port"@,
        ),
{
    KernelDisplayError::new(
        "handle CastKMS CEC transmit",
        "CEC event arrived without an enabled Device control port",
    )
}

/// A start is admitted only while nothing is active.
pub proof fn one_generation_is_active(
    before: ActorView,
    event: ActorEvent,
    after: ActorView,
    reaction: ActorReaction,
)
    requires
        actor_reacts(before, event, after, reaction),
        before.active is Some,
    ensures
        reaction matches ActorReaction::Start(result) ==> result is Err,
{
}

/// The message that a device works on stays until the device has answered, the
/// right to drive the connector is lost or the owner detaches.
pub proof fn pending_messages_are_kept(
    before: ActorView,
    event: ActorEvent,
    after: ActorView,
    reaction: ActorReaction,
)
    requires
        actor_reacts(before, event, after, reaction),
        before.pending is Some,
    ensures
        match event {
            ActorEvent::Detach => reaction matches ActorReaction::Detach { pending, .. } && pending
                == before.pending && after.pending is None,
            ActorEvent::Holder { event: HolderEvent::CecControlled(_), .. } => {
                &&& after.pending is None
                &&& reaction matches ActorReaction::Holder(progress)
                &&& progress@ matches HolderProgressView::Next(
                    HolderPhaseView::CompletingCec { event: completed, .. },
                )
                &&& before.pending == Some(completed)
            },
            _ => after.pending == before.pending || after.pending is None && (
            reaction matches ActorReaction::Holder(progress) && suspends(progress@)),
        },
{
    match event {
        ActorEvent::Holder { event, online, bound } => {
            if event is GrantRevoked {
                settled_keeps_the_rest(before, revoked_steps(before), bound);
            }
        },
        ActorEvent::HolderReply { phase, reply, bound } => {
            replies_keep_pending_messages(before, phase@, reply, bound);
        },
        _ => {},
    }
}

/// Observing the same thing twice has nothing to do the second time, while
/// the grant is active.
pub proof fn repeated_polls_have_nothing_to_do(
    actor: ActorView,
    observation: KernelDisplayObservation,
)
    requires
        observation.grant_state == DisplayGrantState::Active,
    ensures
        poll_steps(ActorView { current: observation, ..actor }, observation) == Seq::<
            ActorStepView,
        >::empty(),
{
    assert(poll_steps(ActorView { current: observation, ..actor }, observation) =~= Seq::<
        ActorStepView,
    >::empty());
}

/// A generation that has lost its grant is failed, whichever way the loss
/// became known.
pub proof fn lost_grants_fail_the_generation(
    actor: ActorView,
    observation: KernelDisplayObservation,
)
    requires
        actor.active is Some,
        observation.grant_state != DisplayGrantState::Active,
    ensures
        poll_steps(actor, observation).last() is FailActive,
        grant_steps(actor, observation.grant_state, observation).last() is FailActive,
        revoked_steps(actor).last() is FailActive,
{
}

proof fn when_has(condition: bool, step: ActorStepView, other: ActorStepView)
    ensures
        condition && other == step <==> when(condition, step).contains(other),
{
    if condition {
        assert(when(condition, step)[0] == step);
    }
}

proof fn both_have(left: Seq<ActorStepView>, right: Seq<ActorStepView>, step: ActorStepView)
    ensures
        (left + right).contains(step) <==> left.contains(step) || right.contains(step),
{
    let both = left + right;
    if left.contains(step) {
        let i = choose|i: int| 0 <= i < left.len() && left[i] == step;
        assert(both[i] == step);
    }
    if right.contains(step) {
        let i = choose|i: int| 0 <= i < right.len() && right[i] == step;
        assert(both[left.len() + i] == step);
    }
    if both.contains(step) {
        let i = choose|i: int| 0 <= i < both.len() && both[i] == step;
        if i < left.len() {
            assert(left[i] == step);
        } else {
            assert(right[i - left.len()] == step);
        }
    }
}

/// A look at the display tells what is seen exactly if it is something else than
/// before; the remote control follows a change of the grant; and a generation fails
/// exactly if the grant is not active, after all else was done.
pub proof fn looks_tell_what_changed(
    actor: ActorView,
    observation: KernelDisplayObservation,
    step: ActorStepView,
)
    ensures
        ({
            let steps = poll_steps(actor, observation);
            let lost = !(observation.grant_state is Active) && actor.active is Some;
            let changed = observation.grant_state != actor.current.grant_state;
            &&& step is Publish ==> (steps.contains(step) <==> step->Publish_0 == observation
                && observation != actor.current)
            &&& step is SynchronizeCec ==> (steps.contains(step) <==> changed
                && step->authority_active == (observation.grant_state is Active))
            &&& step is FailActive ==> (steps.contains(step) <==> lost && step->FailActive_0
                == grant_failure(observation.grant_state))
            &&& step is ReconcileGrant && steps.contains(step) ==> changed || lost
            &&& changed || lost ==> steps.len() > 0 && steps[0] is ReconcileGrant
            &&& lost ==> steps.last() is FailActive
            &&& !steps.contains(ActorStepView::PublishRevoked)
        }),
{
    let grant_changed = observation.grant_state != actor.current.grant_state;
    let lost = observation.grant_state != DisplayGrantState::Active && actor.active is Some;
    let reconcile = ActorStepView::ReconcileGrant { operation: "reconcile CastKMS grant state"@ };
    let follow = ActorStepView::SynchronizeCec {
        authority_active: observation.grant_state == DisplayGrantState::Active,
    };
    let publish = ActorStepView::Publish(observation);
    let fail = ActorStepView::FailActive(grant_failure(observation.grant_state));
    let a = when(grant_changed || lost, reconcile);
    let b = when(grant_changed, follow);
    let c = when(observation != actor.current, publish);
    let d = when(lost, fail);
    let steps = poll_steps(actor, observation);
    assert(steps == a + b + c + d);
    let revoked = ActorStepView::PublishRevoked;
    both_have(a + b + c, d, step);
    both_have(a + b, c, step);
    both_have(a, b, step);
    when_has(grant_changed || lost, reconcile, step);
    when_has(grant_changed, follow, step);
    when_has(observation != actor.current, publish, step);
    when_has(lost, fail, step);
    both_have(a + b + c, d, revoked);
    both_have(a + b, c, revoked);
    both_have(a, b, revoked);
    when_has(grant_changed || lost, reconcile, revoked);
    when_has(grant_changed, follow, revoked);
    when_has(observation != actor.current, publish, revoked);
    when_has(lost, fail, revoked);
}

/// A change of the grant is told as it is seen, and fails the generation if the grant
/// is not active; a revocation takes the remote control away, is told, and fails the
/// generation.
pub proof fn grant_changes_are_told(
    actor: ActorView,
    state: DisplayGrantState,
    observation: KernelDisplayObservation,
    step: ActorStepView,
)
    ensures
        step is Publish ==> (grant_steps(actor, state, observation).contains(step)
            <==> step->Publish_0 == observation && observation != actor.current),
        step is FailActive ==> (grant_steps(actor, state, observation).contains(step) <==> !(state
            is Active) && actor.active is Some && step->FailActive_0 == grant_failure(state)),
        revoked_steps(actor)[0] == (ActorStepView::SynchronizeCec { authority_active: false }),
        revoked_steps(actor)[1] is PublishRevoked,
        revoked_steps(actor).len() == (if actor.active is Some {
            4int
        } else {
            2int
        }),
        actor.active is Some ==> revoked_steps(actor)[2] is ReconcileGrant
            && revoked_steps(actor)[3] is FailActive,
{
    let publish = ActorStepView::Publish(observation);
    let fail = ActorStepView::FailActive(grant_failure(state));
    let lost = state != DisplayGrantState::Active && actor.active is Some;
    both_have(when(observation != actor.current, publish), when(lost, fail), step);
    when_has(observation != actor.current, publish, step);
    when_has(lost, fail, step);
}

/// The text of a lost grant ends in the name of its state, and each state has a name of
/// its own.
pub proof fn grant_states_have_names_of_their_own(left: DisplayGrantState, right: DisplayGrantState)
    ensures
        grant_name(left) == grant_name(right) <==> left == right,
        grant_failure(left).skip(grant_failure(left).len() - grant_name(left).len()) == grant_name(
            left,
        ),
{
    reveal_strlit("Pending");
    reveal_strlit("Active");
    reveal_strlit("SuspendedNoMaster");
    reveal_strlit("SuspendedOtherMaster");
    reveal_strlit("SuspendedForeignContent");
    reveal_strlit("Revoked");
    assert(grant_name(DisplayGrantState::Pending)[0] == 'P');
    assert(grant_name(DisplayGrantState::Revoked)[0] == 'R');
    assert(grant_name(DisplayGrantState::Active).len() == 6);
    assert(grant_name(DisplayGrantState::SuspendedNoMaster).len() == 17);
    assert(grant_name(DisplayGrantState::SuspendedOtherMaster).len() == 20);
    assert(grant_name(DisplayGrantState::SuspendedForeignContent).len() == 23);
    assert(grant_failure(left).skip(grant_failure(left).len() - grant_name(left).len())
        =~= grant_name(left));
}

/// A command is for the active generation. It runs or rests as it was told, and
/// everything else about it stays; any other command is refused and changes nothing.
pub proof fn commands_reach_the_active_generation(
    before: ActorView,
    media_generation: NonZeroU64,
    active_after: ActorView,
    activated: ActorReaction,
    rest_after: ActorView,
    rested: ActorReaction,
    stop_after: ActorView,
    stopped: ActorReaction,
)
    requires
        actor_reacts(before, ActorEvent::Activate { media_generation }, active_after, activated),
        actor_reacts(before, ActorEvent::Suspend { media_generation }, rest_after, rested),
        actor_reacts(before, ActorEvent::Stop { media_generation }, stop_after, stopped),
    ensures
        ({
            let reached = before.active is Some && before.active->0.media_generation
                == media_generation;
            &&& activated is Reply && rested is Reply && stopped is Stop
            &&& activated->Reply_0 is Ok <==> reached
            &&& rested->Reply_0 is Ok <==> reached
            &&& stopped->Stop_0 is StopActive <==> reached
            &&& stopped->Stop_0 is AlreadyStopped <==> before.active is None
            &&& stopped->Stop_0 matches StopAnswer::Refused(error) ==> error@ == kernel_error(
                "stop capture generation"@,
                generation_refusal(media_generation, before.active->0.media_generation),
            )
            &&& !reached ==> active_after == before && rest_after == before
            &&& stop_after == before
            &&& reached ==> {
                let running = active_after.active->0;
                let resting = rest_after.active->0;
                let held = before.active->0;
                &&& active_after.active is Some && !running.suspended
                &&& rest_after.active is Some && resting.suspended
                &&& running.media_generation == held.media_generation
                &&& running.stream == held.stream && running.identity == held.identity
                &&& running.transports == held.transports && running.available == held.available
                &&& running.outstanding == held.outstanding
                &&& running.next_user_data == held.next_user_data
                &&& running.source_active == held.source_active
                &&& resting == (GenerationView { suspended: true, ..running })
            }
        }),
{
}

/// A generation that was started is the active one; an owner whose requester is gone
/// stops it, and one that still holds something of a failed start ends.
pub proof fn started_generations_are_active(
    before: ActorView,
    generation: ActiveGeneration,
    after: ActorView,
    reaction: ActorReaction,
    started: bool,
    answered: bool,
    active_held: bool,
    retired_held: bool,
    later: ActorView,
    flow: ActorReaction,
)
    requires
        actor_reacts(before, ActorEvent::Started(generation), after, reaction),
        actor_reacts(
            before,
            ActorEvent::StartAnswered {
                started,
                answered,
                holds_active_stream: active_held,
                holds_retired_stream: retired_held,
            },
            later,
            flow,
        ),
    ensures
        after.active == Some(generation@),
        after.current == before.current && after.pending == before.pending && after.bridge
            == before.bridge,
        later == before,
        flow is AfterStart,
        flow->AfterStart_0.stop_active <==> started && !answered,
        flow->AfterStart_0.end is Some <==> !started && (active_held || retired_held),
{
}

/// A detachment hands over all that the owner has, and leaves it nothing.
pub proof fn detachments_hand_over_everything(
    before: ActorView,
    after: ActorView,
    reaction: ActorReaction,
)
    requires
        actor_reacts(before, ActorEvent::Detach, after, reaction),
    ensures
        after.active is None,
        after.pending is None,
        after.current == before.current,
        after.bridge == before.bridge,
        reaction is Detach,
        reaction->pending == before.pending,
        reaction->generation is Some <==> before.active is Some,
        before.active is Some ==> reaction->generation->0@.suspended
            && reaction->generation->0@.media_generation == before.active->0.media_generation
            && reaction->generation->0@.outstanding == before.active->0.outstanding
            && reaction->generation->0@.stream == before.active->0.stream
            && reaction->generation->0@.source_active == before.active->0.source_active,
{
}

/// What goes wrong with a generation fails the generation; only what leaves the kernel
/// in an unknown state, or the owner without a client, ends the owner.
pub proof fn failures_end_no_more_than_they_must(
    before: ActorView,
    frame: Result<(), KernelDisplayError>,
    queued: Result<(), QueueFailure>,
    frame_after: ActorView,
    framed: ActorReaction,
    queue_after: ActorView,
    queue: ActorReaction,
    closed_after: ActorView,
    closed: ActorReaction,
)
    requires
        actor_reacts(before, ActorEvent::FrameHandled(frame), frame_after, framed),
        actor_reacts(before, ActorEvent::Queued(queued), queue_after, queue),
        actor_reacts(before, ActorEvent::CommandsClosed, closed_after, closed),
    ensures
        frame_after == before && queue_after == before && closed_after == before,
        frame is Ok <==> framed is TryQueue,
        frame is Err <==> framed is FailActive,
        frame is Err ==> framed->FailActive_0@ == frame->Err_0@.text(),
        queued is Ok <==> queue is Nothing,
        queue is FailActive <==> queued is Err && queued->Err_0 is Recoverable,
        queue is End <==> queued is Err && queued->Err_0 is Fatal,
        queue is End ==> queue->End_0 == queued->Err_0->Fatal_0,
        closed is End,
{
}

/// The remote control is bound only to the output that was reserved; without a device to
/// control, or without a transport, there is none.
pub proof fn transports_are_those_of_the_reserved_output(
    device_control: bool,
    transport: Option<u32>,
    reserved: u32,
    result: Result<bool, KernelDisplayError>,
)
    requires
        transport_checked(device_control, transport, reserved, result),
    ensures
        result is Err <==> device_control && transport is Some && transport->0 != reserved,
        result is Ok ==> (result->Ok_0 <==> device_control && transport == Some(reserved)),
{
}

/// An owner is started in order: it looks at the display, binds the remote control
/// if there is one to bind, waits for its events, and starts the source; a failure ends
/// that.
pub proof fn owners_start_in_order(
    step: SpawnStep,
    device_control: bool,
    reserved: u32,
    reply: SpawnReply,
    result: Result<Option<SpawnStep>, KernelDisplayError>,
)
    requires
        step.awaits(reply),
        spawn_goes_on(step, device_control, reserved, reply, result),
    ensures
        result is Err <==> (match reply {
            SpawnReply::Done(done) => done is Err,
            SpawnReply::Observed(seen) => seen is Err,
            SpawnReply::Cec(found) => found is Err || (device_control && found->Ok_0 is Some
                && found->Ok_0->0 != reserved),
        }),
        result is Ok ==> match step {
            SpawnStep::Observe => result->Ok_0 is Some && (if device_control {
                result->Ok_0->0 is QueryCec
            } else {
                result->Ok_0->0 is Register
            }),
            SpawnStep::QueryCec => result->Ok_0 is Some && (if device_control && reply->Cec_0->Ok_0
                is Some {
                result->Ok_0->0 is BindCec
            } else {
                result->Ok_0->0 is Register
            }),
            SpawnStep::BindCec => result->Ok_0 is Some && result->Ok_0->0 is BringCecOnline,
            SpawnStep::BringCecOnline => result->Ok_0 is Some && result->Ok_0->0 is Register,
            SpawnStep::Register => result->Ok_0 is Some && result->Ok_0->0 is SpawnSource,
            SpawnStep::SpawnSource => result->Ok_0 is None,
        },
{
}

/// A detachment succeeds only if all its parts did.
pub proof fn detachments_need_every_part(
    stopped: Result<(), KernelDisplayError>,
    source: Result<(), String>,
    cec: Seq<Seq<char>>,
    detach: Result<(), KernelDisplayError>,
    result: Result<(), KernelDisplayError>,
)
    requires
        tells_detachment(stopped, source, cec, detach, result),
    ensures
        result is Ok <==> stopped is Ok && source is Ok && cec.len() == 0 && detach is Ok,
{
}

/// The name of a step says what is done in it.
pub proof fn steps_are_named_by_their_work(value: SpawnStep)
    ensures
        value is Observe ==> ""@.is_prefix_of(value.label()),
        value is QueryCec ==> "query connector CEC capabilities"@.is_prefix_of(value.label()),
        value is BindCec ==> "bind connector CEC transport"@.is_prefix_of(value.label()),
        value is BringCecOnline ==> "bring connector CEC transport online"@.is_prefix_of(
            value.label(),
        ),
        value is Register ==> "register grant holder for Tokio readiness"@.is_prefix_of(
            value.label(),
        ),
        value is SpawnSource ==> "spawn per-display PipeWire source actor"@.is_prefix_of(
            value.label(),
        ),
{
    let text = value.label();
    if value is QueryCec {
        assert("query connector CEC capabilities"@ =~= text.subrange(
            0,
            "query connector CEC capabilities"@.len() as int,
        ));
    }
    if value is BindCec {
        assert("bind connector CEC transport"@ =~= text.subrange(
            0,
            "bind connector CEC transport"@.len() as int,
        ));
    }
    if value is BringCecOnline {
        assert("bring connector CEC transport online"@ =~= text.subrange(
            0,
            "bring connector CEC transport online"@.len() as int,
        ));
    }
    if value is Register {
        assert("register grant holder for Tokio readiness"@ =~= text.subrange(
            0,
            "register grant holder for Tokio readiness"@.len() as int,
        ));
    }
    if value is SpawnSource {
        assert("spawn per-display PipeWire source actor"@ =~= text.subrange(
            0,
            "spawn per-display PipeWire source actor"@.len() as int,
        ));
    }
}

/// A transport of another output is refused with both outputs, the found one first.
pub proof fn foreign_transports_name_both_outputs(
    device_control: bool,
    transport: Option<u32>,
    reserved: u32,
    result: Result<bool, KernelDisplayError>,
)
    requires
        transport_checked(device_control, transport, reserved, result),
        result is Err,
    ensures
        ({
            let text = result->Err_0@.message;
            let found = decimal(transport->0 as nat);
            let due = decimal(reserved as nat);
            &&& result->Err_0@.operation == "validate connector CEC identity"@
            &&& text.subrange(17, 17 + found.len() as int) == found
            &&& text.skip(text.len() - due.len()) == due
        }),
{
    reveal_strlit("CEC output index ");
    let text = result->Err_0@.message;
    let found = decimal(transport->0 as nat);
    let due = decimal(reserved as nat);
    assert(text.subrange(17, 17 + found.len() as int) =~= found);
    assert(text.skip(text.len() - due.len()) =~= due);
}

} // verus!
