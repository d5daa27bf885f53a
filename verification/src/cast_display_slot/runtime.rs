//! Reactions of an added display, and its end.

use crate::cast_display_slot::{
    apply_kernel_event, concerns, current_media_failure, failed_status, kernel_observed,
    media_policy_input, policy_input, publish_media_failure, request_for, update_device,
    with_device, with_media_failure, with_runtime, DeviceSessionAction, DeviceSessionPolicyState,
};
use crate::device_recovery::DeviceSessionRecoveryEvent;
use crate::device_session_port::DeviceSessionStopReason;
use crate::display::{AddedCastDisplaySnapshot, SnapshotView};
use crate::display_state::{DisplayTopology, MediaStatus, StatusView};
use crate::kernel_display_port::{KernelDisplayError, KernelDisplayEvent, KernelEventView};
use crate::media_policy::MediaPolicyInput;
use crate::media_session::MediaStopReason;
use crate::protocol::{DeviceAvailability, DeviceInfo, DeviceView};
use crate::text::{concat, debug_option, push_debug_option};
use vstd::prelude::*;
use vstd::string::*;

verus! {

/// An added display and its device session.
#[derive(Debug)]
pub struct SlotRuntime {
    pub snapshot: AddedCastDisplaySnapshot,
    pub device_session: DeviceSessionPolicyState,
}

/// The contents of a [`SlotRuntime`].
pub struct SlotView {
    pub snapshot: SnapshotView,
    pub session: DeviceSessionPolicyState,
}

impl View for SlotRuntime {
    type V = SlotView;

    open spec fn view(&self) -> SlotView {
        SlotView { snapshot: self.snapshot@, session: self.device_session }
    }
}

impl SlotView {
    pub open spec fn input(self) -> MediaPolicyInput {
        policy_input(self.snapshot, self.session)
    }
}

/// Why a display ends by itself.
#[derive(Debug, PartialEq, Eq)]
pub enum SlotExit {
    Remove(DeviceSessionStopReason),
    Terminal(String),
    Shutdown,
}

/// What is left to do about an event, in order.
#[derive(Debug, PartialEq, Eq)]
pub enum SlotStep {
    /// Publish the snapshot.
    Publish,
    /// Tell the media policy.
    Observe(MediaPolicyInput),
    /// Answer whether the record of the device changed.
    Reply(bool),
    CancelRecovery,
    /// Ask for a recovery, and take in what came of that with its cause.
    Recover { device: DeviceInfo, cause: RecoveryCause },
    /// Tell the media policy about a failure.
    ReportFailure(String),
    /// End the display.
    Terminal(String),
}

/// The contents of a [`SlotStep`].
pub enum SlotStepView {
    Publish,
    Observe(MediaPolicyInput),
    Reply(bool),
    CancelRecovery,
    Recover { device: DeviceView, cause: CauseView },
    ReportFailure(Seq<char>),
    Terminal(Seq<char>),
}

impl View for SlotStep {
    type V = SlotStepView;

    open spec fn view(&self) -> SlotStepView {
        match *self {
            SlotStep::Publish => SlotStepView::Publish,
            SlotStep::Observe(input) => SlotStepView::Observe(input),
            SlotStep::Reply(changed) => SlotStepView::Reply(changed),
            SlotStep::CancelRecovery => SlotStepView::CancelRecovery,
            SlotStep::Recover { device, cause } => SlotStepView::Recover {
                device: device@,
                cause: cause@,
            },
            SlotStep::ReportFailure(text) => SlotStepView::ReportFailure(text@),
            SlotStep::Terminal(text) => SlotStepView::Terminal(text@),
        }
    }
}

/// The contents of a list of steps.
pub open spec fn steps_view(steps: Seq<SlotStep>) -> Seq<SlotStepView> {
    steps.map_values(|step: SlotStep| step@)
}

fn push_step(steps: &mut Vec<SlotStep>, step: SlotStep)
    ensures
        steps_view(final(steps)@) == steps_view(old(steps)@).push(step@),
{
    steps.push(step);
    proof {
        assert(steps_view(steps@) =~= steps_view(old(steps)@).push(step@));
    }
}

/// One step, or none.
pub open spec fn when(condition: bool, step: SlotStepView) -> Seq<SlotStepView> {
    if condition {
        seq![step]
    } else {
        Seq::empty()
    }
}

/// The slot after the current record of its device was taken in.
pub open spec fn device_updated(slot: SlotView, device: DeviceView) -> SlotView {
    SlotView {
        snapshot: with_device(slot.snapshot, device),
        session: if slot.session.keeps(device) {
            slot.session
        } else {
            DeviceSessionPolicyState::Unavailable {
                last_session_generation: slot.session.generation(),
            }
        },
    }
}

/// The steps after the current record of the device was taken in.
pub open spec fn device_updated_steps(slot: SlotView, device: DeviceView) -> Seq<SlotStepView> {
    let changed = slot.snapshot.device != device;
    let acts = !slot.session.keeps(device);
    when(changed, SlotStepView::Publish) + when(
        changed || acts,
        SlotStepView::Observe(device_updated(slot, device).input()),
    ) + seq![SlotStepView::Reply(changed)] + when(
        acts && device.availability != DeviceAvailability::Available,
        SlotStepView::CancelRecovery,
    ) + when(
        acts && device.availability == DeviceAvailability::Available,
        SlotStepView::Recover { device, cause: CauseView::DeviceUpdate },
    )
}

/// The slot after an event of its kernel display.
pub open spec fn kernel_reported(slot: SlotView, event: KernelEventView) -> SlotView {
    let (runtime, grant_state, news) = kernel_observed(
        slot.snapshot.runtime,
        slot.snapshot.grant_state,
        event,
    );
    SlotView {
        snapshot: SnapshotView {
            runtime,
            grant_state,
            state_revision: if news {
                runtime.revision
            } else {
                slot.snapshot.state_revision
            },
            ..slot.snapshot
        },
        ..slot
    }
}

/// The failure that an event reports of the current media, if it does.
pub open spec fn reported_failure(slot: SlotView, event: KernelEventView) -> Option<Seq<char>> {
    match event {
        KernelEventView::MediaFailed { media_generation, error } => if concerns(
            media_generation,
            slot.snapshot.runtime.media_generation,
        ) {
            Some(error)
        } else {
            None
        },
        _ => None,
    }
}

/// The steps after an event of the kernel display.
pub open spec fn kernel_reported_steps(slot: SlotView, event: KernelEventView) -> Seq<
    SlotStepView,
> {
    let news = kernel_observed(slot.snapshot.runtime, slot.snapshot.grant_state, event).2;
    when(news, SlotStepView::Publish) + seq![
        SlotStepView::Observe(kernel_reported(slot, event).input()),
    ] + when(
        reported_failure(slot, event) is Some,
        SlotStepView::ReportFailure(reported_failure(slot, event)->0),
    ) + when(
        event == KernelEventView::Revoked,
        SlotStepView::Terminal("CastKMS grant was revoked"@),
    )
}

/// A slot whose kernel display is lost.
pub open spec fn kernel_lost(slot: SlotView, error: Seq<char>) -> SlotView {
    let unknown = slot.snapshot.runtime.with_topology(DisplayTopology::Unknown);
    SlotView {
        snapshot: with_runtime(
            slot.snapshot,
            unknown.with_media(unknown.media_generation, failed_status(error)),
        ),
        ..slot
    }
}

/// A slot whose media has failed.
pub open spec fn media_failed(slot: SlotView, diagnostic: Seq<char>) -> SlotView {
    SlotView { snapshot: with_media_failure(slot.snapshot, diagnostic), ..slot }
}

/// How a recovery came to be asked for.
#[derive(Debug, PartialEq, Eq)]
pub enum RecoveryCause {
    /// The record of the device changed.
    DeviceUpdate,
    /// The session failed, with the diagnostic.
    TransportFailure(String),
}

/// The contents of a [`RecoveryCause`].
pub enum CauseView {
    DeviceUpdate,
    TransportFailure(Seq<char>),
}

impl View for RecoveryCause {
    type V = CauseView;

    open spec fn view(&self) -> CauseView {
        match *self {
            RecoveryCause::DeviceUpdate => CauseView::DeviceUpdate,
            RecoveryCause::TransportFailure(diagnostic) => CauseView::TransportFailure(diagnostic@),
        }
    }
}

/// A request for a recovery was taken in as it is due: one that could not be
/// made ends the display.
pub open spec fn recovery_answered(
    before: SlotView,
    device: DeviceView,
    cause: CauseView,
    reply: Result<u64, String>,
    after: SlotView,
    steps: Seq<SlotStepView>,
) -> bool {
    match reply {
        Ok(request_generation) => {
            &&& after == (SlotView {
                session: DeviceSessionPolicyState::Recovering {
                    request: request_for(request_generation, device),
                    last_session_generation: before.session.generation(),
                },
                ..before
            })
            &&& steps == match cause {
                CauseView::DeviceUpdate => Seq::empty(),
                CauseView::TransportFailure(diagnostic) => seq![
                    SlotStepView::ReportFailure(diagnostic),
                ],
            }
        },
        Err(error) => match cause {
            CauseView::DeviceUpdate => {
                let diagnostic = "start Device-session recovery: "@ + error@;
                &&& after == media_failed(before, diagnostic)
                &&& steps == seq![SlotStepView::Publish, SlotStepView::Terminal(diagnostic)]
            },
            CauseView::TransportFailure(diagnostic) => {
                &&& after == before
                &&& steps == seq![
                    SlotStepView::ReportFailure(diagnostic),
                    SlotStepView::Terminal(
                        "start recovery after Device-session transport failure: "@ + error@,
                    ),
                ]
            },
        },
    }
}

/// The slot once a session is ready: it is taken only if it was waited for, and
/// belongs to the device as it is known now.
pub open spec fn session_taken(
    slot: SlotView,
    request_generation: u64,
    device: DeviceView,
    session_generation: u64,
) -> SlotView {
    if slot.session.awaits(request_generation, device) && device == slot.snapshot.device
        && device.availability == DeviceAvailability::Available {
        SlotView {
            session: DeviceSessionPolicyState::Ready {
                bound_connection_generation: device.connection_generation,
                session_generation,
            },
            ..slot
        }
    } else {
        slot
    }
}

/// The steps once a session is ready.
pub open spec fn session_taken_steps(
    slot: SlotView,
    request_generation: u64,
    device: DeviceView,
    session_generation: u64,
) -> Seq<SlotStepView> {
    when(
        slot.session.awaits(request_generation, device) && device == slot.snapshot.device
            && device.availability == DeviceAvailability::Available,
        SlotStepView::Observe(
            session_taken(slot, request_generation, device, session_generation).input(),
        ),
    )
}

/// The slot once a recovery has failed, if it was waited for.
pub open spec fn recovery_lost(
    slot: SlotView,
    request_generation: u64,
    device: DeviceView,
    error: Seq<char>,
) -> SlotView {
    if slot.session.awaits(request_generation, device) {
        SlotView {
            session: DeviceSessionPolicyState::Unavailable {
                last_session_generation: slot.session.generation(),
            },
            ..media_failed(slot, "Device-session recovery failed: "@ + error)
        }
    } else {
        slot
    }
}

/// The steps once a recovery has failed.
pub open spec fn recovery_lost_steps(
    slot: SlotView,
    request_generation: u64,
    device: DeviceView,
    error: Seq<char>,
) -> Seq<SlotStepView> {
    if slot.session.awaits(request_generation, device) {
        seq![
            SlotStepView::Publish,
            SlotStepView::Terminal("Device-session recovery failed: "@ + error),
        ]
    } else {
        Seq::empty()
    }
}

/// The session is the live one.
pub open spec fn is_live(slot: SlotView, session_generation: u64) -> bool {
    slot.session matches DeviceSessionPolicyState::Ready { session_generation: current, .. }
        && current == session_generation
}

/// The slot once a session has failed, if it is the live one.
pub open spec fn transport_lost(slot: SlotView, session_generation: u64, error: Seq<char>) -> SlotView {
    if is_live(slot, session_generation) {
        SlotView {
            session: DeviceSessionPolicyState::Unavailable {
                last_session_generation: session_generation,
            },
            ..media_failed(slot, transport_diagnostic(error))
        }
    } else {
        slot
    }
}

/// The steps once a session has failed: a device that can be reached is
/// recovered.
pub open spec fn transport_lost_steps(
    slot: SlotView,
    session_generation: u64,
    error: Seq<char>,
) -> Seq<SlotStepView> {
    if is_live(slot, session_generation) {
        seq![
            SlotStepView::Publish,
            SlotStepView::Observe(transport_lost(slot, session_generation, error).input()),
            if slot.snapshot.device.availability == DeviceAvailability::Available {
                SlotStepView::Recover {
                    device: slot.snapshot.device,
                    cause: CauseView::TransportFailure(transport_diagnostic(error)),
                }
            } else {
                SlotStepView::ReportFailure(transport_diagnostic(error))
            },
        ]
    } else {
        Seq::empty()
    }
}

/// The slot once the media owner shows something.
pub open spec fn media_shown(slot: SlotView, generation: u64, status: StatusView) -> SlotView {
    if slot.snapshot.runtime.media_is_news(generation, status) {
        SlotView {
            snapshot: with_runtime(
                slot.snapshot,
                slot.snapshot.runtime.with_media(generation, status),
            ),
            ..slot
        }
    } else {
        slot
    }
}

/// How a display stands with its device session at first.
pub open spec fn first_session(
    snapshot: SnapshotView,
    prepared: DeviceView,
    session_generation: u64,
) -> DeviceSessionPolicyState {
    if snapshot.device.availability == DeviceAvailability::Available {
        DeviceSessionPolicyState::Ready {
            bound_connection_generation: prepared.connection_generation,
            session_generation,
        }
    } else {
        DeviceSessionPolicyState::Unavailable { last_session_generation: session_generation }
    }
}

impl SlotRuntime {
    /// A slot for a display that was just added.
    pub fn new(
        snapshot: AddedCastDisplaySnapshot,
        prepared: &DeviceInfo,
        session_generation: u64,
    ) -> (slot: Self)
        ensures
            slot@.snapshot == snapshot@,
            slot@.session == first_session(snapshot@, prepared@, session_generation),
    {
        let ready = snapshot.device.availability == DeviceAvailability::Available;
        SlotRuntime {
            snapshot,
            device_session: DeviceSessionPolicyState::new(prepared, ready, session_generation),
        }
    }

    fn input(&self) -> (input: MediaPolicyInput)
        ensures
            input == self@.input(),
    {
        media_policy_input(&self.snapshot, &self.device_session)
    }

    /// Take in the current record of the device.
    pub fn update_device(&mut self, device: DeviceInfo) -> (steps: Vec<SlotStep>)
        ensures
            final(self)@ == device_updated(old(self)@, device@),
            steps_view(steps@) == device_updated_steps(old(self)@, device@),
    {
        let ghost before = self@;
        let ghost record = device@;
        let mut steps: Vec<SlotStep> = Vec::new();
        let action = self.device_session.observe_device(&device);
        let changed = update_device(&mut self.snapshot, device);
        if changed {
            push_step(&mut steps, SlotStep::Publish);
        }
        if changed || action.is_some() {
            push_step(&mut steps, SlotStep::Observe(self.input()));
        }
        push_step(&mut steps, SlotStep::Reply(changed));
        match action {
            Some(DeviceSessionAction::Cancel) => {
                push_step(&mut steps, SlotStep::CancelRecovery);
            },
            Some(DeviceSessionAction::Recover(device)) => {
                push_step(
                    &mut steps,
                    SlotStep::Recover { device, cause: RecoveryCause::DeviceUpdate },
                );
            },
            None => {},
        }
        proof {
            assert(steps_view(steps@) =~= device_updated_steps(before, record));
        }
        steps
    }

    /// Take in whether a recovery could be asked for.
    pub fn recovery_requested(
        &mut self,
        device: &DeviceInfo,
        cause: RecoveryCause,
        reply: Result<u64, String>,
    ) -> (steps: Vec<SlotStep>)
        ensures
            recovery_answered(
                old(self)@,
                device@,
                cause@,
                reply,
                final(self)@,
                steps_view(steps@),
            ),
    {
        let mut steps: Vec<SlotStep> = Vec::new();
        let ghost none = steps_view(steps@);
        proof {
            assert(none =~= Seq::empty());
        }
        match reply {
            Ok(request_generation) => {
                self.device_session.begin_request(request_generation, device);
                if let RecoveryCause::TransportFailure(diagnostic) = cause {
                    let ghost text = diagnostic@;
                    push_step(&mut steps, SlotStep::ReportFailure(diagnostic));
                    proof {
                        assert(steps_view(steps@) =~= seq![SlotStepView::ReportFailure(text)]);
                    }
                }
            },
            Err(error) => match cause {
                RecoveryCause::DeviceUpdate => {
                    let diagnostic = concat("start Device-session recovery: ", error.as_str());
                    publish_media_failure(&mut self.snapshot, diagnostic.as_str());
                    push_step(&mut steps, SlotStep::Publish);
                    let ghost text = diagnostic@;
                    push_step(&mut steps, SlotStep::Terminal(diagnostic));
                    proof {
                        assert(steps_view(steps@) =~= seq![
                            SlotStepView::Publish,
                            SlotStepView::Terminal(text),
                        ]);
                    }
                },
                RecoveryCause::TransportFailure(diagnostic) => {
                    let ghost text = diagnostic@;
                    push_step(&mut steps, SlotStep::ReportFailure(diagnostic));
                    let terminal = concat(
                        "start recovery after Device-session transport failure: ",
                        error.as_str(),
                    );
                    let ghost end = terminal@;
                    push_step(&mut steps, SlotStep::Terminal(terminal));
                    proof {
                        assert(steps_view(steps@) =~= seq![
                            SlotStepView::ReportFailure(text),
                            SlotStepView::Terminal(end),
                        ]);
                    }
                },
            },
        }
        steps
    }

    /// Take in an event of the kernel display.
    pub fn kernel_event(&mut self, event: KernelDisplayEvent) -> (steps: Vec<SlotStep>)
        ensures
            final(self)@ == kernel_reported(old(self)@, event@),
            steps_view(steps@) == kernel_reported_steps(old(self)@, event@),
    {
        let ghost before = self@;
        let ghost reported = event@;
        let mut steps: Vec<SlotStep> = Vec::new();
        let revoked = matches!(event, KernelDisplayEvent::Revoked);
        let media_failure = current_media_failure(self.snapshot.runtime.media_generation(), &event);
        if apply_kernel_event(&mut self.snapshot, event) {
            push_step(&mut steps, SlotStep::Publish);
        }
        push_step(&mut steps, SlotStep::Observe(self.input()));
        if let Some(error) = media_failure {
            push_step(&mut steps, SlotStep::ReportFailure(error));
        }
        if revoked {
            push_step(&mut steps, SlotStep::Terminal("CastKMS grant was revoked".to_owned()));
        }
        proof {
            assert(steps_view(steps@) =~= kernel_reported_steps(before, reported));
        }
        steps
    }

    /// Take in the failure of the kernel display itself.
    pub fn kernel_failed(&mut self, error: &KernelDisplayError) -> (steps: Vec<SlotStep>)
        ensures
            final(self)@ == kernel_lost(old(self)@, error@.text()),
            steps_view(steps@) == seq![
                SlotStepView::Publish,
                SlotStepView::Terminal(error@.text()),
            ],
    {
        let diagnostic = error.to_text();
        self.snapshot.runtime.observe_topology(DisplayTopology::Unknown);
        let media_generation: u64 = self.snapshot.runtime.media_generation();
        self.snapshot.runtime.observe_media(
            media_generation,
            MediaStatus::Failed(diagnostic.clone()),
        );
        self.snapshot.state_revision = self.snapshot.runtime.revision();
        let mut steps: Vec<SlotStep> = Vec::new();
        push_step(&mut steps, SlotStep::Publish);
        push_step(&mut steps, SlotStep::Terminal(diagnostic));
        proof {
            assert(steps_view(steps@) =~= seq![
                SlotStepView::Publish,
                SlotStepView::Terminal(error@.text()),
            ]);
        }
        steps
    }

    /// Take in a recovered session, if it is waited for.
    pub fn session_ready(
        &mut self,
        request_generation: u64,
        device: &DeviceInfo,
        session_generation: u64,
    ) -> (steps: Vec<SlotStep>)
        ensures
            final(self)@ == session_taken(
                old(self)@,
                request_generation,
                device@,
                session_generation,
            ),
            steps_view(steps@) == session_taken_steps(
                old(self)@,
                request_generation,
                device@,
                session_generation,
            ),
    {
        let mut steps: Vec<SlotStep> = Vec::new();
        let ghost none = steps_view(steps@);
        if self.device_session.complete_request(
            request_generation,
            device,
            session_generation,
            &self.snapshot.device,
        ) {
            push_step(&mut steps, SlotStep::Observe(self.input()));
            proof {
                assert(steps_view(steps@) =~= seq![SlotStepView::Observe(self@.input())]);
            }
        } else {
            proof {
                assert(none =~= Seq::empty());
            }
        }
        steps
    }

    /// Take in the failure of a recovery, if it is waited for.
    pub fn recovery_failed(&mut self, request_generation: u64, device: &DeviceInfo, error: &str) -> (
    steps: Vec<SlotStep>)
        ensures
            final(self)@ == recovery_lost(old(self)@, request_generation, device@, error@),
            steps_view(steps@) == recovery_lost_steps(
                old(self)@,
                request_generation,
                device@,
                error@,
            ),
    {
        let mut steps: Vec<SlotStep> = Vec::new();
        proof {
            assert(steps_view(steps@) =~= Seq::empty());
        }
        if self.device_session.fail_request(request_generation, device) {
            let diagnostic = concat("Device-session recovery failed: ", error);
            let ghost text = diagnostic@;
            publish_media_failure(&mut self.snapshot, diagnostic.as_str());
            push_step(&mut steps, SlotStep::Publish);
            push_step(&mut steps, SlotStep::Terminal(diagnostic));
            proof {
                assert(steps_view(steps@) =~= seq![
                    SlotStepView::Publish,
                    SlotStepView::Terminal(text),
                ]);
            }
        }
        steps
    }

    /// Take in the failure of a session, if it is the live one. A recovery is
    /// asked for where the device can be reached, and has the diagnostic as its
    /// cause.
    pub fn transport_failed(&mut self, session_generation: u64, error: &str) -> (steps: Vec<
        SlotStep,
    >)
        ensures
            final(self)@ == transport_lost(old(self)@, session_generation, error@),
            steps_view(steps@) == transport_lost_steps(old(self)@, session_generation, error@),
    {
        let mut steps: Vec<SlotStep> = Vec::new();
        proof {
            assert(steps_view(steps@) =~= Seq::empty());
        }
        if self.device_session.transport_failed(session_generation) {
            let diagnostic = concat("Device session transport failed: ", error);
            let ghost text = diagnostic@;
            publish_media_failure(&mut self.snapshot, diagnostic.as_str());
            push_step(&mut steps, SlotStep::Publish);
            push_step(&mut steps, SlotStep::Observe(self.input()));
            let last = if self.snapshot.device.availability == DeviceAvailability::Available {
                SlotStep::Recover {
                    device: self.snapshot.device.clone(),
                    cause: RecoveryCause::TransportFailure(diagnostic),
                }
            } else {
                SlotStep::ReportFailure(diagnostic)
            };
            let ghost end = last@;
            push_step(&mut steps, last);
            proof {
                assert(steps_view(steps@) =~= seq![
                    SlotStepView::Publish,
                    SlotStepView::Observe(self@.input()),
                    end,
                ]);
            }
        }
        steps
    }

    /// Take in the end of the recovery itself.
    pub fn recovery_stopped(&mut self) -> (steps: Vec<SlotStep>)
        ensures
            final(self)@ == media_failed(
                old(self)@,
                "Device-session recovery coordinator stopped"@,
            ),
            steps_view(steps@) == seq![
                SlotStepView::Publish,
                SlotStepView::Terminal("Device-session recovery coordinator stopped"@),
            ],
    {
        let diagnostic = "Device-session recovery coordinator stopped";
        publish_media_failure(&mut self.snapshot, diagnostic);
        let mut steps: Vec<SlotStep> = Vec::new();
        push_step(&mut steps, SlotStep::Publish);
        push_step(&mut steps, SlotStep::Terminal(diagnostic.to_owned()));
        proof {
            assert(steps_view(steps@) =~= seq![
                SlotStepView::Publish,
                SlotStepView::Terminal("Device-session recovery coordinator stopped"@),
            ]);
        }
        steps
    }

    /// Take in what the media owner shows; publish it if it is news.
    pub fn media_changed(&mut self, generation: u64, status: MediaStatus) -> (steps: Vec<SlotStep>)
        ensures
            final(self)@ == media_shown(old(self)@, generation, status@),
            steps_view(steps@) == when(
                old(self)@.snapshot.runtime.media_is_news(generation, status@),
                SlotStepView::Publish,
            ),
    {
        let mut steps: Vec<SlotStep> = Vec::new();
        if self.snapshot.runtime.observe_media(generation, status) {
            self.snapshot.state_revision = self.snapshot.runtime.revision();
            push_step(&mut steps, SlotStep::Publish);
        }
        proof {
            assert(steps_view(steps@) =~= when(
                old(self)@.snapshot.runtime.media_is_news(generation, status@),
                SlotStepView::Publish,
            ));
        }
        steps
    }
}

/// What happens to an added display.
#[derive(Debug)]
pub enum SlotEvent {
    /// The owner of the display is gone.
    OwnerDropped,
    UpdateDevice(DeviceInfo),
    Remove(DeviceSessionStopReason),
    /// All command handles are gone.
    CommandsClosed,
    /// A recovery was asked for, or could not be.
    RecoveryRequested { device: DeviceInfo, cause: RecoveryCause, reply: Result<u64, String> },
    Kernel(Result<KernelDisplayEvent, KernelDisplayError>),
    /// The recovery tells something, or will tell nothing any more.
    Recovery(Option<DeviceSessionRecoveryEvent>),
    Media { generation: u64, status: MediaStatus },
    /// The media policy has given up, or is gone.
    PolicyEnded(Option<String>),
}

/// How an added display goes on.
#[derive(Debug)]
pub enum SlotFlow {
    /// Do the steps; a terminal one ends the display.
    Steps(Vec<SlotStep>),
    Exit(SlotExit),
}

/// The display took an event in as it is due.
pub open spec fn slot_reacts(before: SlotView, event: SlotEvent, after: SlotView, flow: SlotFlow) -> bool {
    match event {
        SlotEvent::OwnerDropped => after == before && flow == SlotFlow::Exit(SlotExit::Shutdown),
        SlotEvent::CommandsClosed => after == before && flow == SlotFlow::Exit(SlotExit::Shutdown),
        SlotEvent::Remove(reason) => after == before && flow == SlotFlow::Exit(
            SlotExit::Remove(reason),
        ),
        SlotEvent::PolicyEnded(exhausted) => {
            &&& after == before
            &&& flow matches SlotFlow::Exit(SlotExit::Terminal(error)) && error@ == (
            match exhausted {
                Some(text) => text@,
                None => "media recovery policy stopped unexpectedly"@,
            })
        },
        SlotEvent::UpdateDevice(device) => {
            &&& after == device_updated(before, device@)
            &&& flow matches SlotFlow::Steps(steps) && steps_view(steps@) == device_updated_steps(
                before,
                device@,
            )
        },
        SlotEvent::RecoveryRequested { device, cause, reply } => flow matches SlotFlow::Steps(
            steps,
        ) && recovery_answered(before, device@, cause@, reply, after, steps_view(steps@)),
        SlotEvent::Kernel(Ok(event)) => {
            &&& after == kernel_reported(before, event@)
            &&& flow matches SlotFlow::Steps(steps) && steps_view(steps@) == kernel_reported_steps(
                before,
                event@,
            )
        },
        SlotEvent::Kernel(Err(error)) => {
            &&& after == kernel_lost(before, error@.text())
            &&& flow matches SlotFlow::Steps(steps) && steps_view(steps@) == seq![
                SlotStepView::Publish,
                SlotStepView::Terminal(error@.text()),
            ]
        },
        SlotEvent::Recovery(
            Some(
                DeviceSessionRecoveryEvent::Ready {
                    request_generation,
                    device,
                    session_generation,
                    retired_session_cleanup_error,
                },
            ),
        ) => {
            &&& after == session_taken(before, request_generation, device@, session_generation@)
            &&& flow matches SlotFlow::Steps(steps) && steps_view(steps@) == session_taken_steps(
                before,
                request_generation,
                device@,
                session_generation@,
            )
        },
        SlotEvent::Recovery(
            Some(DeviceSessionRecoveryEvent::Failed { request_generation, device, error }),
        ) => {
            &&& after == recovery_lost(before, request_generation, device@, error@)
            &&& flow matches SlotFlow::Steps(steps) && steps_view(steps@) == recovery_lost_steps(
                before,
                request_generation,
                device@,
                error@,
            )
        },
        SlotEvent::Recovery(
            Some(DeviceSessionRecoveryEvent::TransportFailed { session_generation, error }),
        ) => {
            &&& after == transport_lost(before, session_generation@, error@)
            &&& flow matches SlotFlow::Steps(steps) && steps_view(steps@) == transport_lost_steps(
                before,
                session_generation@,
                error@,
            )
        },
        SlotEvent::Recovery(None) => {
            &&& after == media_failed(before, "Device-session recovery coordinator stopped"@)
            &&& flow matches SlotFlow::Steps(steps) && steps_view(steps@) == seq![
                SlotStepView::Publish,
                SlotStepView::Terminal("Device-session recovery coordinator stopped"@),
            ]
        },
        SlotEvent::Media { generation, status } => {
            &&& after == media_shown(before, generation, status@)
            &&& flow matches SlotFlow::Steps(steps) && steps_view(steps@) == when(
                before.snapshot.runtime.media_is_news(generation, status@),
                SlotStepView::Publish,
            )
        },
    }
}

impl SlotRuntime {
    /// React to one event.
    pub fn run(&mut self, event: SlotEvent) -> (flow: SlotFlow)
        ensures
            slot_reacts(old(self)@, event, final(self)@, flow),
    {
        match event {
            SlotEvent::OwnerDropped | SlotEvent::CommandsClosed => SlotFlow::Exit(
                SlotExit::Shutdown,
            ),
            SlotEvent::Remove(reason) => SlotFlow::Exit(SlotExit::Remove(reason)),
            SlotEvent::PolicyEnded(exhausted) => SlotFlow::Exit(
                SlotExit::Terminal(policy_ended(exhausted)),
            ),
            SlotEvent::UpdateDevice(device) => SlotFlow::Steps(self.update_device(device)),
            SlotEvent::RecoveryRequested { device, cause, reply } => SlotFlow::Steps(
                self.recovery_requested(&device, cause, reply),
            ),
            SlotEvent::Kernel(Ok(event)) => SlotFlow::Steps(self.kernel_event(event)),
            SlotEvent::Kernel(Err(error)) => SlotFlow::Steps(self.kernel_failed(&error)),
            SlotEvent::Recovery(
                Some(
                    DeviceSessionRecoveryEvent::Ready {
                        request_generation,
                        device,
                        session_generation,
                        ..
                    },
                ),
            ) => SlotFlow::Steps(
                self.session_ready(request_generation, &device, session_generation.get()),
            ),
            SlotEvent::Recovery(
                Some(DeviceSessionRecoveryEvent::Failed { request_generation, device, error }),
            ) => SlotFlow::Steps(
                self.recovery_failed(request_generation, &device, error.as_str()),
            ),
            SlotEvent::Recovery(
                Some(DeviceSessionRecoveryEvent::TransportFailed { session_generation, error }),
            ) => SlotFlow::Steps(
                self.transport_failed(session_generation.get(), error.as_str()),
            ),
            SlotEvent::Recovery(None) => SlotFlow::Steps(self.recovery_stopped()),
            SlotEvent::Media { generation, status } => SlotFlow::Steps(
                self.media_changed(generation, status),
            ),
        }
    }
}

/// The diagnostic of a failed session.
pub open spec fn transport_diagnostic(error: Seq<char>) -> Seq<char> {
    "Device session transport failed: "@ + error
}

/// Why a display ends when its media policy does.
pub fn policy_ended(exhausted: Option<String>) -> (error: String)
    ensures
        error@ == (match exhausted {
            Some(text) => text@,
            None => "media recovery policy stopped unexpectedly"@,
        }),
{
    match exhausted {
        Some(text) => text,
        None => "media recovery policy stopped unexpectedly".to_owned(),
    }
}

/// How a display is taken down.
#[derive(Debug, PartialEq, Eq)]
pub struct SlotEnd {
    pub reason: DeviceSessionStopReason,
    pub media_reason: MediaStopReason,
    pub terminal_error: Option<String>,
}

/// What ends with a display, and why.
pub open spec fn ends_for(
    exit: SlotExit,
    end: SlotEnd,
) -> bool {
    &&& end.reason == (match exit {
        SlotExit::Remove(reason) => reason,
        SlotExit::Terminal(_) => DeviceSessionStopReason::DisplayRemoved,
        SlotExit::Shutdown => DeviceSessionStopReason::DaemonShutdown,
    })
    &&& end.media_reason == (match end.reason {
        DeviceSessionStopReason::DisplayRemoved => MediaStopReason::DisplayRemoved,
        DeviceSessionStopReason::DaemonShutdown => MediaStopReason::BackendShutdown,
    })
    &&& end.terminal_error == (match exit {
        SlotExit::Terminal(error) => Some(error),
        _ => None,
    })
}

/// How a display is taken down that ends as it does.
pub fn finish(exit: SlotExit) -> (end: SlotEnd)
    ensures
        ends_for(exit, end),
{
    let (reason, terminal_error) = match exit {
        SlotExit::Remove(reason) => (reason, None),
        SlotExit::Terminal(error) => (DeviceSessionStopReason::DisplayRemoved, Some(error)),
        SlotExit::Shutdown => (DeviceSessionStopReason::DaemonShutdown, None),
    };
    let media_reason = match reason {
        DeviceSessionStopReason::DisplayRemoved => MediaStopReason::DisplayRemoved,
        DeviceSessionStopReason::DaemonShutdown => MediaStopReason::BackendShutdown,
    };
    SlotEnd { reason, media_reason, terminal_error }
}

/// What could not be cleaned up when a display was taken down.
#[derive(Debug, PartialEq, Eq)]
pub struct RemoveCastDisplayError {
    pub recovery: Option<String>,
    pub media: Option<String>,
    pub detach: Option<String>,
}

impl RemoveCastDisplayError {
    /// The error as one line.
    pub open spec fn text(self) -> Seq<char> {
        "remove cast display failed (media="@ + debug_option(self.media) + ", detach="@
            + debug_option(self.detach) + ")"@
    }

    pub fn to_text(&self) -> (text: String)
        ensures
            text@ == self.text(),
    {
        let mut text = "remove cast display failed (media=".to_owned();
        push_debug_option(&mut text, &self.media);
        text.append(", detach=");
        push_debug_option(&mut text, &self.detach);
        text.append(")");
        text
    }
}

/// Why a display could not be taken down.
#[derive(Debug, PartialEq, Eq)]
pub enum CastDisplaySlotActorError {
    Stopped,
    Join(String),
    Cleanup(RemoveCastDisplayError),
}

impl CastDisplaySlotActorError {
    /// The error as one line.
    pub open spec fn text(self) -> Seq<char> {
        match self {
            CastDisplaySlotActorError::Stopped => "cast-display slot actor stopped"@,
            CastDisplaySlotActorError::Join(error) =>
                "cast-display slot actor task failed: "@ + error@,
            CastDisplaySlotActorError::Cleanup(error) => error.text(),
        }
    }

    pub fn to_text(&self) -> (text: String)
        ensures
            text@ == self.text(),
    {
        match self {
            CastDisplaySlotActorError::Stopped => "cast-display slot actor stopped".to_owned(),
            CastDisplaySlotActorError::Join(error) =>
                concat("cast-display slot actor task failed: ", error.as_str()),
            CastDisplaySlotActorError::Cleanup(error) => error.to_text(),
        }
    }
}

/// The result of taking a display down: every part is tried, in order, and
/// each failure is told.
pub fn removal_result(recovery: Option<String>, media: Option<String>, detach: Option<String>) -> (
result: Result<(), RemoveCastDisplayError>)
    ensures
        result is Ok <==> recovery is None && media is None && detach is None,
        result matches Err(error) ==> error == (RemoveCastDisplayError {
            recovery,
            media,
            detach,
        }),
{
    if recovery.is_none() && media.is_none() && detach.is_none() {
        Ok(())
    } else {
        Err(RemoveCastDisplayError { recovery, media, detach })
    }
}

/// What is told of a removal: the answer of the owner, once its task has ended.
pub open spec fn told_removal(
    asked: bool,
    answer: Option<Result<(), RemoveCastDisplayError>>,
    task: Result<(), String>,
) -> Result<(), CastDisplaySlotActorError> {
    match (answer, task) {
        (Some(answer), task) if asked => match task {
            Err(text) => Err(CastDisplaySlotActorError::Join(text)),
            Ok(_) => match answer {
                Ok(_) => Ok(()),
                Err(error) => Err(CastDisplaySlotActorError::Cleanup(error)),
            },
        },
        _ => Err(CastDisplaySlotActorError::Stopped),
    }
}

/// The result of a removal that was asked for: whether the display took the
/// request, what it answered, and how its task ended.
pub fn removal_ended(
    asked: bool,
    answer: Option<Result<(), RemoveCastDisplayError>>,
    task: Result<(), String>,
) -> (result: Result<(), CastDisplaySlotActorError>)
    ensures
        result == told_removal(asked, answer, task),
{
    if !asked {
        return Err(CastDisplaySlotActorError::Stopped);
    }
    match answer {
        None => Err(CastDisplaySlotActorError::Stopped),
        Some(answer) => match task {
            Err(text) => Err(CastDisplaySlotActorError::Join(text)),
            Ok(()) => match answer {
                Ok(()) => Ok(()),
                Err(error) => Err(CastDisplaySlotActorError::Cleanup(error)),
            },
        },
    }
}

/// The revision of a snapshot stays that of its runtime state, whatever happens
/// to the display.
pub proof fn state_revisions_follow_the_runtime(
    before: SlotView,
    event: SlotEvent,
    after: SlotView,
    flow: SlotFlow,
)
    requires
        before.snapshot.state_revision == before.snapshot.runtime.revision,
        slot_reacts(before, event, after, flow),
    ensures
        after.snapshot.state_revision == after.snapshot.runtime.revision,
{
}

/// No event changes which display a slot is, its output, or the session of its
/// kernel display.
pub proof fn displays_keep_their_identity(
    before: SlotView,
    event: SlotEvent,
    after: SlotView,
    flow: SlotFlow,
)
    requires
        slot_reacts(before, event, after, flow),
    ensures
        after.snapshot.display_id == before.snapshot.display_id,
        after.snapshot.output == before.snapshot.output,
        after.snapshot.kernel_session_id == before.snapshot.kernel_session_id,
{
}

/// What changes of a snapshot is published, before anything else is done.
pub proof fn changes_are_published(
    before: SlotView,
    event: SlotEvent,
    after: SlotView,
    flow: SlotFlow,
)
    requires
        slot_reacts(before, event, after, flow),
        after.snapshot != before.snapshot,
    ensures
        flow is Steps,
        steps_view(flow->Steps_0@).len() > 0,
        steps_view(flow->Steps_0@)[0] == SlotStepView::Publish,
{
}

/// The diagnostic of a lost session reaches the media policy, whether or not the
/// recovery can be asked for, and at once where the device cannot be reached.
pub proof fn lost_sessions_are_told_to_the_media_policy(
    before: SlotView,
    session_generation: u64,
    error: Seq<char>,
    reply: Result<u64, String>,
    after: SlotView,
    steps: Seq<SlotStepView>,
)
    requires
        is_live(before, session_generation),
    ensures
        ({
            let lost = transport_lost(before, session_generation, error);
            match transport_lost_steps(before, session_generation, error).last() {
                SlotStepView::Recover { device, cause } => recovery_answered(
                    lost,
                    device,
                    cause,
                    reply,
                    after,
                    steps,
                ) ==> steps[0] == SlotStepView::ReportFailure(transport_diagnostic(error)),
                last => last == SlotStepView::ReportFailure(transport_diagnostic(error)),
            }
        }),
{
}

/// A display ends when its owner, its commands or its policy do, or when it is removed; each
/// for its own reason. Nothing about it changes at that.
pub proof fn displays_end_for_a_reason(
    before: SlotView,
    event: SlotEvent,
    after: SlotView,
    flow: SlotFlow,
)
    requires
        slot_reacts(before, event, after, flow),
    ensures
        flow is Exit <==> event is OwnerDropped || event is CommandsClosed || event is Remove
            || event is PolicyEnded,
        flow is Exit ==> after == before,
        event is OwnerDropped || event is CommandsClosed ==> flow->Exit_0 is Shutdown,
        event matches SlotEvent::Remove(reason) ==> flow->Exit_0 is Remove && flow->Exit_0->Remove_0
            == reason,
        event matches SlotEvent::PolicyEnded(why) ==> flow->Exit_0 is Terminal && (why is Some
            ==> flow->Exit_0->Terminal_0@ == why->0@),
{
}

/// A record of the device is taken in as it is, and whoever sent it hears whether it was
/// news. The session is kept or given up; if it is given up, another is asked for while the
/// device is available, and no longer asked for otherwise.
pub proof fn device_records_are_taken_in(
    before: SlotView,
    device: DeviceInfo,
    after: SlotView,
    flow: SlotFlow,
)
    requires
        slot_reacts(before, SlotEvent::UpdateDevice(device), after, flow),
    ensures
        ({
            let steps = steps_view(flow->Steps_0@);
            let changed = before.snapshot.device != device@;
            let kept = before.session.keeps(device@);
            &&& flow is Steps
            &&& after.snapshot.device == device@
            &&& kept ==> after.session == before.session
            &&& !kept ==> after.session is Unavailable && after.session.generation()
                == before.session.generation()
            &&& changed ==> steps[0] is Publish
            &&& (if changed {
                steps[2] == SlotStepView::Reply(true) && steps[1] is Observe
            } else if kept {
                steps[0] == SlotStepView::Reply(false) && steps.len() == 1
            } else {
                steps[1] == SlotStepView::Reply(false) && steps[0] is Observe
            })
            &&& kept ==> !(steps.last() is CancelRecovery) && !(steps.last() is Recover)
            &&& !kept && device.availability is Available ==> steps.last() is Recover
                && steps.last()->Recover_device == device@ && steps.last()->cause is DeviceUpdate
            &&& !kept && !(device.availability is Available) ==> steps.last() is CancelRecovery
            &&& after.snapshot.grant_state == before.snapshot.grant_state
            &&& after.snapshot.runtime.topology == before.snapshot.runtime.topology
            &&& after.snapshot.runtime.media == before.snapshot.runtime.media
            &&& changed ==> after.snapshot.state_revision >= before.snapshot.runtime.revision
                && after.snapshot.state_revision >= device.device_revision
            &&& !changed ==> after.snapshot == before.snapshot
        }),
{
}

/// A session that was asked for is ready for just the record that it was asked for, and while
/// that is still the one that is known and available; the media policy is told of it, and of
/// nothing else.
pub proof fn awaited_sessions_are_taken(
    before: SlotView,
    request_generation: u64,
    device: DeviceInfo,
    session_generation: crate::nonzero::NonZeroU64,
    cleanup: Option<String>,
    after: SlotView,
    flow: SlotFlow,
)
    requires
        slot_reacts(
            before,
            SlotEvent::Recovery(
                Some(
                    DeviceSessionRecoveryEvent::Ready {
                        request_generation,
                        device,
                        session_generation,
                        retired_session_cleanup_error: cleanup,
                    },
                ),
            ),
            after,
            flow,
        ),
    ensures
        ({
            let steps = steps_view(flow->Steps_0@);
            let request = before.session->request;
            let taken = before.session is Recovering && request.request_generation
                == request_generation && request.connection_generation
                == device.connection_generation && request.discovery_generation
                == device.discovery_generation && request.device_revision == device.device_revision
                && before.snapshot.device == device@ && device.availability is Available;
            &&& flow is Steps
            &&& after.snapshot == before.snapshot
            &&& !taken ==> after == before && steps.len() == 0
            &&& taken ==> {
                &&& after.session is Ready
                &&& after.session->Ready_session_generation == session_generation@
                &&& after.session->bound_connection_generation == device.connection_generation
                &&& steps.len() == 1
                &&& steps[0] is Observe
                &&& steps[0]->Observe_0.device_session is Ready
                &&& steps[0]->Observe_0.device_session_generation == session_generation@
            }
        }),
{
}

/// A session that cannot be had ends the display, if it was awaited: the failure is shown
/// with its reason. An answer that nobody awaits changes nothing.
pub proof fn failed_recoveries_end_the_display(
    before: SlotView,
    request_generation: u64,
    device: DeviceInfo,
    error: String,
    after: SlotView,
    flow: SlotFlow,
)
    requires
        slot_reacts(
            before,
            SlotEvent::Recovery(
                Some(DeviceSessionRecoveryEvent::Failed { request_generation, device, error }),
            ),
            after,
            flow,
        ),
    ensures
        ({
            let steps = steps_view(flow->Steps_0@);
            let awaited = before.session.awaits(request_generation, device@);
            &&& !awaited ==> after == before && steps.len() == 0
            &&& awaited ==> {
                &&& after.session is Unavailable
                &&& after.session.generation() == before.session.generation()
                &&& after.snapshot.device == before.snapshot.device
                &&& steps.len() == 2 && steps[0] is Publish && steps[1] is Terminal
                &&& steps[1]->Terminal_0.skip(steps[1]->Terminal_0.len() - error@.len()) == error@
            }
        }),
{
    let steps = steps_view(flow->Steps_0@);
    if before.session.awaits(request_generation, device@) {
        assert(steps[1]->Terminal_0.skip(steps[1]->Terminal_0.len() - error@.len()) =~= error@);
    }
}

/// The session that is used is lost once: that is published and told to the media policy, and
/// another session is asked for while the device is available. The loss of any other session
/// changes nothing.
pub proof fn lost_sessions_are_replaced(
    before: SlotView,
    session_generation: crate::nonzero::NonZeroU64,
    error: String,
    after: SlotView,
    flow: SlotFlow,
)
    requires
        slot_reacts(
            before,
            SlotEvent::Recovery(
                Some(DeviceSessionRecoveryEvent::TransportFailed { session_generation, error }),
            ),
            after,
            flow,
        ),
    ensures
        ({
            let steps = steps_view(flow->Steps_0@);
            let live = before.session is Ready && before.session->Ready_session_generation
                == session_generation@;
            &&& !live ==> after == before && steps.len() == 0
            &&& live ==> {
                &&& after.session == (DeviceSessionPolicyState::Unavailable {
                    last_session_generation: session_generation@,
                })
                &&& steps.len() == 3
                &&& steps[0] is Publish
                &&& steps[1] is Observe && !(steps[1]->Observe_0.device_session is Ready)
                &&& before.snapshot.device.availability is Available <==> steps[2] is Recover
                &&& !(before.snapshot.device.availability is Available) ==> steps[2]
                    is ReportFailure
                &&& steps[2] is Recover ==> steps[2]->Recover_device == before.snapshot.device
                    && steps[2]->cause is TransportFailure
            }
        }),
{
}

/// A request for a session that was made is awaited with its number, for the record that it
/// was made for; one that could not be made ends the display.
pub proof fn requests_are_awaited(
    before: SlotView,
    device: DeviceView,
    cause: CauseView,
    reply: Result<u64, String>,
    after: SlotView,
    steps: Seq<SlotStepView>,
)
    requires
        recovery_answered(before, device, cause, reply, after, steps),
    ensures
        reply is Ok ==> {
            &&& after.session.awaits(reply->Ok_0, device)
            &&& after.session is Recovering
            &&& after.session->request.request_generation == reply->Ok_0
            &&& after.session->request.connection_generation == device.connection_generation
            &&& after.session->request.discovery_generation == device.discovery_generation
            &&& after.session->request.device_revision == device.device_revision
            &&& after.session.generation() == before.session.generation()
            &&& after.snapshot == before.snapshot
            &&& cause is DeviceUpdate <==> steps.len() == 0
        },
        reply is Err ==> steps.last() is Terminal && after.session == before.session,
        cause is TransportFailure ==> steps[0] == SlotStepView::ReportFailure(
            cause->TransportFailure_0,
        ),
{
}

/// What the kernel display tells is shown and published if it is news, and the media policy
/// is told in any case; a revocation ends the display, and a failure of the current media is
/// reported with its reason.
pub proof fn kernel_events_are_told_on(
    before: SlotView,
    event: KernelDisplayEvent,
    after: SlotView,
    flow: SlotFlow,
)
    requires
        slot_reacts(before, SlotEvent::Kernel(Ok(event)), after, flow),
    ensures
        ({
            let steps = steps_view(flow->Steps_0@);
            &&& flow is Steps
            &&& after.session == before.session
            &&& after.snapshot.device == before.snapshot.device
            &&& steps.len() > 0
            &&& event is Revoked <==> steps.last() is Terminal
            &&& event is Revoked ==> after.snapshot.grant_state is Revoked
            &&& event matches KernelDisplayEvent::Changed(seen) ==> {
                &&& after.snapshot.grant_state == seen.grant_state
                &&& after.snapshot.runtime.topology == seen.topology
                &&& steps.last() is Observe
                &&& steps.last()->Observe_0 == after.input()
                &&& steps[0] is Publish <==> before.snapshot.grant_state != seen.grant_state
                    || before.snapshot.runtime.topology != seen.topology
            }
            &&& event matches KernelDisplayEvent::MediaFailed { media_generation, error } ==> {
                let current = media_generation is None || media_generation->0@
                    == before.snapshot.runtime.media_generation;
                &&& steps.last() is ReportFailure <==> current
                &&& current ==> steps.last()->ReportFailure_0 == error@
                &&& !current ==> steps.last() is Observe
            }
        }),
{
}

/// A failed kernel display is shown as unknown, with failed media, and ends the display with
/// the reason.
pub proof fn failed_kernel_displays_end_the_display(
    before: SlotView,
    error: KernelDisplayError,
    after: SlotView,
    flow: SlotFlow,
)
    requires
        slot_reacts(before, SlotEvent::Kernel(Err(error)), after, flow),
    ensures
        ({
            let steps = steps_view(flow->Steps_0@);
            &&& flow is Steps
            &&& steps.len() == 2 && steps[0] is Publish && steps[1] == SlotStepView::Terminal(
                error@.text(),
            )
            &&& after.snapshot.runtime.topology is Unknown
            &&& after.snapshot.runtime.media.state is Failed
            &&& after.snapshot.runtime.media.error == Some(error@.text())
            &&& after.session == before.session
        }),
{
}

/// Media that are news are shown and published; others are neither.
pub proof fn media_news_are_published(
    before: SlotView,
    generation: u64,
    status: MediaStatus,
    after: SlotView,
    flow: SlotFlow,
)
    requires
        slot_reacts(before, SlotEvent::Media { generation, status }, after, flow),
    ensures
        ({
            let steps = steps_view(flow->Steps_0@);
            let news = before.snapshot.runtime.media_is_news(generation, status@);
            &&& flow is Steps
            &&& news ==> steps.len() == 1 && steps[0] is Publish
                && after.snapshot.runtime.media_generation == generation
                && after.snapshot.runtime.media == status@
            &&& !news ==> steps.len() == 0 && after == before
            &&& after.session == before.session
        }),
{
}

/// What ends with a display hears why: a removal its own reason, a failure that the display is
/// removed, and the end of everything that the daemon shuts down.
pub proof fn ends_are_told_their_reason(exit: SlotExit, end: SlotEnd)
    requires
        ends_for(exit, end),
    ensures
        exit matches SlotExit::Remove(reason) ==> end.reason == reason,
        exit is Terminal ==> end.reason is DisplayRemoved,
        exit is Shutdown ==> end.reason is DaemonShutdown,
        end.reason is DisplayRemoved <==> end.media_reason is DisplayRemoved,
        end.reason is DaemonShutdown <==> end.media_reason is BackendShutdown,
        end.terminal_error is Some <==> exit is Terminal,
        exit matches SlotExit::Terminal(error) ==> end.terminal_error == Some(error),
{
}

/// A removal succeeds only if it was asked for, was answered well, and its task ended; the
/// answer is passed on otherwise.
pub proof fn removals_succeed_only_as_a_whole(
    asked: bool,
    answer: Option<Result<(), RemoveCastDisplayError>>,
    task: Result<(), String>,
)
    ensures
        told_removal(asked, answer, task) is Ok <==> asked && answer is Some && answer->0 is Ok
            && task is Ok,
        !asked || answer is None ==> told_removal(asked, answer, task)->Err_0 is Stopped,
        asked && answer is Some && task is Err ==> told_removal(asked, answer, task)->Err_0
            == CastDisplaySlotActorError::Join(task->Err_0),
        asked && answer is Some && task is Ok && answer->0 is Err ==> told_removal(
            asked,
            answer,
            task,
        )->Err_0 == CastDisplaySlotActorError::Cleanup(answer->0->Err_0),
{
}

/// A display begins with the session that was made for it, bound to the connection that it was
/// prepared on, unless its device is not available.
pub proof fn displays_begin_with_their_session(
    snapshot: SnapshotView,
    prepared: DeviceView,
    session_generation: u64,
)
    ensures
        first_session(snapshot, prepared, session_generation) is Ready
            <==> snapshot.device.availability is Available,
        first_session(snapshot, prepared, session_generation).generation() == session_generation,
        first_session(snapshot, prepared, session_generation) is Ready ==> first_session(
            snapshot,
            prepared,
            session_generation,
        )->bound_connection_generation == prepared.connection_generation,
        !(snapshot.device.availability is Available) ==> first_session(
            snapshot,
            prepared,
            session_generation,
        ) is Unavailable,
{
}

/// The text of a failed removal tells the media first, then the detachment.
pub proof fn removal_texts_tell_both_parts(error: RemoveCastDisplayError)
    ensures
        ({
            let text = error.text();
            let media = debug_option(error.media);
            let detach = debug_option(error.detach);
            &&& text.subrange(34, 34 + media.len() as int) == media
            &&& text.subrange(
                43 + media.len() as int,
                43 + media.len() as int + detach.len() as int,
            ) == detach
            &&& text.len() == 44 + media.len() + detach.len()
        }),
{
    reveal_strlit("remove cast display failed (media=");
    reveal_strlit(", detach=");
    reveal_strlit(")");
    let text = error.text();
    let media = debug_option(error.media);
    let detach = debug_option(error.detach);
    assert(text.subrange(34, 34 + media.len() as int) =~= media);
    assert(text.subrange(43 + media.len() as int, 43 + media.len() as int + detach.len() as int)
        =~= detach);
}

/// A slot shows its snapshot and its session; its steps show what they hold.
pub proof fn slots_show_what_they_hold(slot: SlotRuntime, step: SlotStep)
    ensures
        slot@.snapshot == slot.snapshot@,
        slot@.session == slot.device_session,
        step is Publish <==> step@ is Publish,
        step is CancelRecovery <==> step@ is CancelRecovery,
        step matches SlotStep::Observe(input) ==> step@ == SlotStepView::Observe(input),
        step matches SlotStep::Reply(changed) ==> step@ == SlotStepView::Reply(changed),
        step matches SlotStep::ReportFailure(text) ==> step@ == SlotStepView::ReportFailure(text@),
        step matches SlotStep::Terminal(text) ==> step@ == SlotStepView::Terminal(text@),
        step matches SlotStep::Recover { device, cause } ==> step@ is Recover
            && step@->Recover_device == device@ && (cause is DeviceUpdate <==> step@->Recover_cause
            is DeviceUpdate),
{
}

/// The text of a failed removal begins with the words of its kind.
pub proof fn actor_failures_say_their_kind(value: CastDisplaySlotActorError)
    ensures
        value is Stopped ==> "cast-display slot actor stopped"@.is_prefix_of(value.text()),
        value is Join ==> "cast-display slot actor task failed: "@.is_prefix_of(value.text()),
{
    let text = value.text();
    if value is Stopped {
        assert("cast-display slot actor stopped"@ =~= text.subrange(
            0,
            "cast-display slot actor stopped"@.len() as int,
        ));
    }
    if value is Join {
        assert("cast-display slot actor task failed: "@ =~= text.subrange(
            0,
            "cast-display slot actor task failed: "@.len() as int,
        ));
    }
}

} // verus!
