//! The making of a replacement session for a display's device.

use crate::device_recovery::{bounded, DeviceSessionFactoryError, MAX_RECOVERY_ERROR_BYTES};
use crate::display::sequence::SetupCleanup;
use crate::display::setup::PreparationRequest;
use crate::nonzero::NonZeroU64;
use crate::preparation::PreparedCastDevice;
use crate::protocol::DeviceInfo;
use crate::text::concat;
use vstd::prelude::*;

verus! {

/// What every session of one display has in common.
#[derive(Debug)]
pub struct SessionFactory {
    pub session_id: String,
    pub offer: PreparationRequest,
    pub audio_enabled: bool,
}

/// What a replacement waits for.
#[derive(Debug, Clone, Copy, PartialEq, Eq, Structural)]
pub enum FactoryPhase {
    Resolving,
    CreatingSession,
    Preparing,
    Validating,
    StartingMonitor,
}

/// One replacement under way.
#[derive(Debug)]
pub struct Replacement {
    pub device: DeviceInfo,
    pub session_generation: NonZeroU64,
    pub phase: FactoryPhase,
    pub prepared: Option<PreparedCastDevice>,
}

/// The next outside operation of a replacement.
#[derive(Debug)]
pub enum FactoryAction {
    Resolve { device: DeviceInfo },
    CreateSession { session_id: String, session_generation: u64, requested_features: u64 },
    Prepare { offer: PreparationRequest },
    Validate { device: DeviceInfo, audio_enabled: bool },
    StartMonitor,
}

/// The answer to an outside operation.
#[derive(Debug)]
pub enum FactoryReply {
    /// The recovery was cancelled before there was an answer.
    Interrupted,
    /// The device was found, the session made or prepared, or its events are
    /// watched; or the text of the failure.
    Done(Result<(), String>),
    Validated(Result<PreparedCastDevice, String>),
}

/// A replacement that failed: the error, and whether the session has to be
/// stopped, or waited for and stopped.
#[derive(Debug, PartialEq, Eq)]
pub struct FactoryFailure {
    pub error: DeviceSessionFactoryError,
    pub cleanup: Option<SetupCleanup>,
}

/// How a replacement goes on.
#[derive(Debug)]
pub enum FactoryProgress {
    Next { replacement: Replacement, action: FactoryAction },
    Ready { prepared: PreparedCastDevice, session_generation: NonZeroU64 },
    Failed(FactoryFailure),
}

impl FactoryPhase {
    /// What a failure of the phase's operation is called.
    pub open spec fn label(self) -> Seq<char> {
        match self {
            FactoryPhase::Resolving => "resolve current Device: "@,
            FactoryPhase::CreatingSession => "create replacement Device session: "@,
            FactoryPhase::Preparing => "prepare replacement Device session: "@,
            FactoryPhase::Validating => "validate replacement Device preparation: "@,
            FactoryPhase::StartingMonitor => "monitor replacement Device session: "@,
        }
    }

    /// What is taken down when the replacement ends in this phase.
    pub open spec fn cleanup(self, cancelled: bool) -> Option<SetupCleanup> {
        match self {
            FactoryPhase::Resolving => None,
            FactoryPhase::CreatingSession => if cancelled {
                Some(SetupCleanup::StopPendingSession)
            } else {
                None
            },
            _ => Some(SetupCleanup::StopBackend),
        }
    }

    fn failed_cleanup(self, cancelled: bool) -> (cleanup: Option<SetupCleanup>)
        ensures
            cleanup == self.cleanup(cancelled),
    {
        match self {
            FactoryPhase::Resolving => None,
            FactoryPhase::CreatingSession => if cancelled {
                Some(SetupCleanup::StopPendingSession)
            } else {
                None
            },
            _ => Some(SetupCleanup::StopBackend),
        }
    }

    fn cancelled(self) -> (progress: FactoryProgress)
        ensures
            ends_cancelled(progress, self),
    {
        FactoryProgress::Failed(
            FactoryFailure {
                error: DeviceSessionFactoryError::Cancelled,
                cleanup: self.failed_cleanup(true),
            },
        )
    }

    fn failed(self, text: &str) -> (progress: FactoryProgress)
        ensures
            ends_failed(progress, self, text@),
    {
        let label = match self {
            FactoryPhase::Resolving => "resolve current Device: ",
            FactoryPhase::CreatingSession => "create replacement Device session: ",
            FactoryPhase::Preparing => "prepare replacement Device session: ",
            FactoryPhase::Validating => "validate replacement Device preparation: ",
            FactoryPhase::StartingMonitor => "monitor replacement Device session: ",
        };
        let message = concat(label, text);
        FactoryProgress::Failed(
            FactoryFailure {
                error: DeviceSessionFactoryError::failed(message.as_str()),
                cleanup: self.failed_cleanup(false),
            },
        )
    }
}

/// The replacement ended because it was cancelled in this phase.
pub open spec fn ends_cancelled(progress: FactoryProgress, phase: FactoryPhase) -> bool {
    progress == FactoryProgress::Failed(
        FactoryFailure {
            error: DeviceSessionFactoryError::Cancelled,
            cleanup: phase.cleanup(true),
        },
    )
}

/// The replacement ended because the phase's operation failed.
pub open spec fn ends_failed(progress: FactoryProgress, phase: FactoryPhase, text: Seq<char>) -> bool {
    progress matches FactoryProgress::Failed(failure) && (failure.error matches
        DeviceSessionFactoryError::Failed(error) && error@ == bounded(
        phase.label() + text,
        MAX_RECOVERY_ERROR_BYTES as nat,
    )) && failure.cleanup == phase.cleanup(false)
}

impl Replacement {
    /// A prepared device is known from its validation on.
    pub open spec fn wf(self) -> bool {
        self.prepared is Some <==> self.phase == FactoryPhase::StartingMonitor
    }

    /// The reply answers what the replacement waits for.
    pub open spec fn awaits(self, reply: FactoryReply) -> bool {
        match self.phase {
            FactoryPhase::Validating => reply is Validated,
            _ => reply is Interrupted || reply is Done,
        }
    }
}

/// The replacement goes on in this phase.
pub open spec fn continues(
    before: Replacement,
    progress: FactoryProgress,
    phase: FactoryPhase,
    prepared: Option<PreparedCastDevice>,
) -> bool {
    progress matches FactoryProgress::Next { replacement, .. } && replacement == (Replacement {
        phase,
        prepared,
        ..before
    })
}

/// How a replacement goes on after an answer. `cancelled` tells whether the
/// recovery was cancelled by the time the answer was there.
pub open spec fn replacement_reacts(
    factory: SessionFactory,
    before: Replacement,
    reply: FactoryReply,
    cancelled: bool,
    progress: FactoryProgress,
) -> bool {
    let phase = before.phase;
    match reply {
        FactoryReply::Interrupted => ends_cancelled(progress, phase),
        FactoryReply::Validated(Err(text)) => ends_failed(progress, phase, text@),
        FactoryReply::Validated(Ok(prepared)) => if cancelled {
            ends_cancelled(progress, phase)
        } else {
            &&& continues(before, progress, FactoryPhase::StartingMonitor, Some(prepared))
            &&& progress->action is StartMonitor
        },
        FactoryReply::Done(done) => if cancelled {
            ends_cancelled(progress, phase)
        } else {
            match (done, phase) {
                (Err(text), _) => ends_failed(progress, phase, text@),
                (Ok(_), FactoryPhase::Resolving) => {
                    &&& continues(before, progress, FactoryPhase::CreatingSession, None)
                    &&& progress->action matches FactoryAction::CreateSession {
                        session_id,
                        session_generation,
                        requested_features,
                    }
                    &&& session_id@ == factory.session_id@
                    &&& session_generation == before.session_generation@
                    &&& requested_features == factory.offer.requested_features
                },
                (Ok(_), FactoryPhase::CreatingSession) => {
                    &&& continues(before, progress, FactoryPhase::Preparing, None)
                    &&& progress->action matches FactoryAction::Prepare { offer }
                    &&& offer@ == factory.offer@
                },
                (Ok(_), FactoryPhase::Preparing) => {
                    &&& continues(before, progress, FactoryPhase::Validating, None)
                    &&& progress->action matches FactoryAction::Validate { device, audio_enabled }
                    &&& device@ == before.device@
                    &&& audio_enabled == factory.audio_enabled
                },
                (Ok(_), _) => before.prepared matches Some(prepared) ==> progress
                    == (FactoryProgress::Ready {
                    prepared,
                    session_generation: before.session_generation,
                }),
            }
        },
    }
}

impl SessionFactory {
    /// Replace the session of a device by one of another generation.
    pub fn create_prepared_session(
        &self,
        device: DeviceInfo,
        session_generation: NonZeroU64,
    ) -> (begun: (Replacement, FactoryAction))
        ensures
            begun.0 == (Replacement {
                device,
                session_generation,
                phase: FactoryPhase::Resolving,
                prepared: None,
            }),
            begun.0.wf(),
            begun.1 matches FactoryAction::Resolve { device: asked } && asked@ == device@,
    {
        let action = FactoryAction::Resolve { device: device.clone() };
        (
            Replacement {
                device,
                session_generation,
                phase: FactoryPhase::Resolving,
                prepared: None,
            },
            action,
        )
    }

    /// Go on after an answer.
    pub fn proceed(&self, replacement: Replacement, reply: FactoryReply, cancelled: bool) -> (progress:
        FactoryProgress)
        requires
            replacement.wf(),
            replacement.awaits(reply),
        ensures
            replacement_reacts(*self, replacement, reply, cancelled, progress),
            progress matches FactoryProgress::Next { replacement: next, .. } ==> next.wf(),
    {
        let phase = replacement.phase;
        let session_generation = replacement.session_generation;
        match reply {
            FactoryReply::Interrupted => phase.cancelled(),
            FactoryReply::Validated(Err(text)) => phase.failed(text.as_str()),
            FactoryReply::Validated(Ok(prepared)) => {
                if cancelled {
                    return phase.cancelled();
                }
                FactoryProgress::Next {
                    replacement: Replacement {
                        device: replacement.device,
                        session_generation,
                        phase: FactoryPhase::StartingMonitor,
                        prepared: Some(prepared),
                    },
                    action: FactoryAction::StartMonitor,
                }
            },
            FactoryReply::Done(done) => {
                if cancelled {
                    return phase.cancelled();
                }
                if let Err(text) = done {
                    return phase.failed(text.as_str());
                }
                let (next, action) = match phase {
                    FactoryPhase::Resolving => (
                        FactoryPhase::CreatingSession,
                        FactoryAction::CreateSession {
                            session_id: self.session_id.clone(),
                            session_generation: session_generation.get(),
                            requested_features: self.offer.requested_features,
                        },
                    ),
                    FactoryPhase::CreatingSession => (
                        FactoryPhase::Preparing,
                        FactoryAction::Prepare { offer: self.offer.clone() },
                    ),
                    _ => match replacement.prepared {
                        Some(prepared) => {
                            return FactoryProgress::Ready { prepared, session_generation };
                        },
                        None => (
                            FactoryPhase::Validating,
                            FactoryAction::Validate {
                                device: replacement.device.clone(),
                                audio_enabled: self.audio_enabled,
                            },
                        ),
                    },
                };
                FactoryProgress::Next {
                    replacement: Replacement {
                        device: replacement.device,
                        session_generation,
                        phase: next,
                        prepared: None,
                    },
                    action,
                }
            },
        }
    }
}

/// A replacement stays with its device and its generation, and goes through
/// its operations in order.
pub proof fn replacements_keep_their_generation(
    factory: SessionFactory,
    before: Replacement,
    reply: FactoryReply,
    cancelled: bool,
    progress: FactoryProgress,
)
    requires
        before.wf(),
        before.awaits(reply),
        replacement_reacts(factory, before, reply, cancelled, progress),
    ensures
        match progress {
            FactoryProgress::Next { replacement, .. } => replacement.device == before.device
                && replacement.session_generation == before.session_generation
                && factory_position(replacement.phase) == factory_position(before.phase) + 1,
            FactoryProgress::Ready { session_generation, .. } => session_generation
                == before.session_generation && before.phase == FactoryPhase::StartingMonitor,
            FactoryProgress::Failed(_) => true,
        },
{
}

/// The number of operations before this one.
pub open spec fn factory_position(phase: FactoryPhase) -> nat {
    match phase {
        FactoryPhase::Resolving => 0,
        FactoryPhase::CreatingSession => 1,
        FactoryPhase::Preparing => 2,
        FactoryPhase::Validating => 3,
        FactoryPhase::StartingMonitor => 4,
    }
}

/// A session that could not be made leaves nothing behind: there is nothing to stop before it
/// was asked for, and it is stopped from then on; one that is still being made is stopped when
/// it is given up.
pub proof fn replacements_leave_nothing_behind(
    factory: SessionFactory,
    before: Replacement,
    reply: FactoryReply,
    cancelled: bool,
    progress: FactoryProgress,
)
    requires
        before.wf(),
        before.awaits(reply),
        replacement_reacts(factory, before, reply, cancelled, progress),
        progress is Failed,
    ensures
        before.phase is Resolving ==> progress->Failed_0.cleanup is None,
        before.phase is Preparing || before.phase is Validating || before.phase is StartingMonitor
            ==> progress->Failed_0.cleanup is Some && progress->Failed_0.cleanup->0 is StopBackend,
        before.phase is CreatingSession && progress->Failed_0.error is Cancelled
            ==> progress->Failed_0.cleanup is Some && progress->Failed_0.cleanup->0
            is StopPendingSession,
        before.phase is CreatingSession && progress->Failed_0.error is Failed
            ==> progress->Failed_0.cleanup is None,
        reply is Interrupted ==> progress->Failed_0.error is Cancelled,
        reply matches FactoryReply::Done(Err(text)) ==> !(progress->Failed_0.error is Cancelled)
            || cancelled,
{
}

/// A replacement is made as the display's first session was: under its identity, with its
/// offer, and with or without sound as before, but of its own generation.
pub proof fn replacements_are_made_like_the_first(
    factory: SessionFactory,
    before: Replacement,
    reply: FactoryReply,
    progress: FactoryProgress,
)
    requires
        before.wf(),
        before.awaits(reply),
        replacement_reacts(factory, before, reply, false, progress),
        reply matches FactoryReply::Done(done) && done is Ok || (reply matches
            FactoryReply::Validated(validated) && validated is Ok),
    ensures
        before.phase is Resolving ==> progress is Next && progress->action is CreateSession
            && progress->action->session_id@ == factory.session_id@
            && progress->action->CreateSession_session_generation == before.session_generation@
            && progress->action->requested_features == factory.offer.requested_features,
        before.phase is CreatingSession ==> progress is Next && progress->action is Prepare
            && progress->action->offer@ == factory.offer@,
        before.phase is Preparing ==> progress is Next && progress->action is Validate
            && progress->action->Validate_device@ == before.device@
            && progress->action->audio_enabled == factory.audio_enabled,
        before.phase is Validating ==> progress is Next && progress->action is StartMonitor
            && progress->replacement.prepared == Some(reply->Validated_0->Ok_0),
        before.phase is StartingMonitor ==> progress is Ready && progress->Ready_prepared
            == before.prepared->0 && progress->Ready_session_generation
            == before.session_generation,
{
}

/// The name of a phase says what is done in it.
pub proof fn phases_are_named_by_their_work(value: FactoryPhase)
    ensures
        value is Resolving ==> "resolve current Device: "@.is_prefix_of(value.label()),
        value is CreatingSession ==> "create replacement Device session: "@.is_prefix_of(
            value.label(),
        ),
        value is Preparing ==> "prepare replacement Device session: "@.is_prefix_of(value.label()),
        value is Validating ==> "validate replacement Device preparation: "@.is_prefix_of(
            value.label(),
        ),
        value is StartingMonitor ==> "monitor replacement Device session: "@.is_prefix_of(
            value.label(),
        ),
{
    let text = value.label();
    if value is Resolving {
        assert("resolve current Device: "@ =~= text.subrange(
            0,
            "resolve current Device: "@.len() as int,
        ));
    }
    if value is CreatingSession {
        assert("create replacement Device session: "@ =~= text.subrange(
            0,
            "create replacement Device session: "@.len() as int,
        ));
    }
    if value is Preparing {
        assert("prepare replacement Device session: "@ =~= text.subrange(
            0,
            "prepare replacement Device session: "@.len() as int,
        ));
    }
    if value is Validating {
        assert("validate replacement Device preparation: "@ =~= text.subrange(
            0,
            "validate replacement Device preparation: "@.len() as int,
        ));
    }
    if value is StartingMonitor {
        assert("monitor replacement Device session: "@ =~= text.subrange(
            0,
            "monitor replacement Device session: "@.len() as int,
        ));
    }
}

} // verus!
