use pronk::castkms_actor::actor::{
    after_start, bind_cec_transport, detached, run_actor, validate_output_identity, ActorEvent,
    ActorReaction, ActorStep, CaptureActor, SpawnReply, SpawnStep, StopAnswer,
};
use pronk::castkms_actor::cec::{
    control_answer, control_completion, control_outcome, handle_cec_transmit, synchronize_cec_authority,
    teardown_cec, AuthorityStep, CecCompletion, CecStep, CecTransmitAdmission,
    CecTransmitEvent, ControlOutcome,
};
use pronk::castkms_actor::detach_sequence::{
    monitor_detached, CaptureDetach, DetachPhase, DetachReply, MonitorDetach,
};
use pronk::castkms_actor::frames::{
    maybe_queue, QueueFailure, SourceStep, VideoSourceActorEvent,
};
use pronk::castkms_actor::holder_sequence::{
    events_read, HolderEvent, HolderPhase, HolderProgress, HolderReply,
};
use pronk::castkms_actor::port::{
    detach, join_task, next_event, request_unit, send_command, shutdown, start, CaptureRequest,
    ReplyOutcome,
    SendOutcome,
};
use pronk::castkms_actor::start::{
    admit_start, start_generation, AdmittedStart, AudioSink, CastKmsActorConfig,
};
use pronk::castkms_actor::{
    combined_kernel_failures, raw_audio_caps, raw_video_caps, require_not_cancelled,
    source_generation_is_current, validate_stream_route, CaptureStreamInfo, CursorCaptureMode,
    PipeWireBufferTransport, VideoNodeIdentity,
};
use pronk::cec_bridge::CecBridge;
use pronk::device_control_port::DeviceControlError;
use pronk::display_state::{DisplayGrantState, DisplayTopology, MediaState, RouteTarget, RoutedMode};
use pronk::kernel_display_port::{KernelDisplayError, KernelDisplayEvent, KernelDisplayObservation};
use pronk::media_session::{MediaRoute, MediaStartRequest};
use pronk::nonzero::{NonZeroU32, NonZeroU64};

fn id(value: u32) -> NonZeroU32 {
    NonZeroU32::new(value).unwrap()
}

fn generation(value: u64) -> NonZeroU64 {
    NonZeroU64::new(value).unwrap()
}

fn request() -> MediaStartRequest {
    MediaStartRequest {
        media_generation: 9,
        route: MediaRoute {
            route_generation: 3,
            target: RouteTarget::new(id(7)),
            mode: RoutedMode {
                width: 1920,
                height: 1080,
                refresh_millihz: 60_000,
                flags: 0,
            },
        },
    }
}

fn stream(width: u32) -> CaptureStreamInfo {
    CaptureStreamInfo {
        stream_id: id(2),
        crtc_id: id(7),
        mode_generation: generation(11),
        width: id(width),
        height: id(1080),
        refresh_hz: id(60),
        cursor_mode: CursorCaptureMode::IncludeInFrame,
    }
}

fn identity() -> VideoNodeIdentity {
    VideoNodeIdentity {
        node_name: "pronk.video.session.9".into(),
        object_id: id(1),
        object_serial: generation(2),
        media_generation: generation(9),
    }
}

fn config() -> CastKmsActorConfig {
    CastKmsActorConfig {
        session_id: "session".into(),
        device_instance: "device".into(),
        node_description: "display".into(),
        device_path: "/sys/devices/castkms".into(),
        output_index: 0,
        video_profile_id: "h264-high".into(),
        audio_profile_id: None,
        video_bitrate: generation(4_000_000),
        device_control: true,
    }
}

fn admitted() -> AdmittedStart {
    admit_start(false, request(), 5, 6, false).unwrap()
}

fn observation(grant_state: DisplayGrantState) -> KernelDisplayObservation {
    KernelDisplayObservation {
        topology: DisplayTopology::Attached { route: None },
        grant_state,
    }
}

fn capturing() -> CaptureActor {
    let mut actor = CaptureActor::new(observation(DisplayGrantState::Active), false, false);
    actor.active = Some(start_generation(&config(), admitted(), stream(1920), identity(), None).0);
    actor
}

fn available(buffer_id: u32) -> VideoSourceActorEvent {
    VideoSourceActorEvent::BufferAvailable {
        media_generation: generation(9),
        buffer_id: id(buffer_id),
        transport: PipeWireBufferTransport::ReadyBeforePublish,
    }
}

#[test]
fn route_validation_keeps_kernel_and_application_generations_distinct() {
    validate_stream_route(stream(1920), request()).unwrap();
    assert!(validate_stream_route(stream(1280), request()).is_err());
    assert_eq!(
        raw_video_caps(stream(1920)),
        "video/x-raw,format=BGRx,width=1920,height=1080,framerate=60/1"
    );
}

#[test]
fn asynchronous_media_failure_is_an_explicit_kernel_port_event() {
    let event = KernelDisplayEvent::MediaFailed {
        media_generation: None,
        error: "source disappeared".into(),
    };
    assert_eq!(
        event,
        KernelDisplayEvent::MediaFailed {
            media_generation: None,
            error: "source disappeared".into(),
        }
    );
    let _ = MediaState::Failed;
}

#[test]
fn queued_source_events_are_filtered_only_when_they_are_stale() {
    let active = NonZeroU64::new(2).unwrap();
    assert!(!source_generation_is_current(active, NonZeroU64::new(1).unwrap()).unwrap());
    assert!(source_generation_is_current(active, active).unwrap());
    assert!(source_generation_is_current(active, NonZeroU64::new(3).unwrap()).is_err());
}

#[test]
fn starts_are_admitted_one_at_a_time() {
    assert_eq!(
        admit_start(true, request(), 5, 6, false).unwrap_err().message,
        "another media generation is still active"
    );
    let mut zero = request();
    zero.media_generation = 0;
    assert_eq!(
        admit_start(false, zero, 5, 6, false).unwrap_err().message,
        "media generation is zero"
    );
    assert_eq!(
        admit_start(false, request(), 0, 6, false).unwrap_err().message,
        "CastKMS connector ID is zero"
    );
    assert_eq!(
        admit_start(false, request(), 5, 0, false).unwrap_err().message,
        "CastKMS grant ID is zero"
    );
    assert_eq!(
        admit_start(false, request(), 5, 6, true).unwrap_err().to_text(),
        "start capture generation: operation was cancelled"
    );
    assert_eq!(admitted().connector_id, id(5));
}

#[test]
fn a_started_generation_begins_suspended_and_describes_its_targets() {
    let sink = AudioSink {
        node_name: "audio".into(),
        object_serial: generation(8),
    };
    let (active, media) =
        start_generation(&config(), admitted(), stream(1920), identity(), Some(sink));
    assert!(active.suspended);
    assert_eq!(media.video_target.node_name, "pronk.video.session.9");
    assert_eq!(media.video_target.object_serial, generation(2));
    assert_eq!(media.audio_target.unwrap().caps, raw_audio_caps());
    assert_eq!(media.configuration.mode, request().route.mode);
}

#[test]
fn a_buffer_is_queued_once_capture_is_active() {
    let mut actor = capturing();
    let ActorReaction::Source(step) = run_actor(&mut actor, ActorEvent::Source(Some(available(4))))
    else {
        panic!("the buffer was refused");
    };
    assert_eq!(step, SourceStep::Done);
    assert!(maybe_queue(actor.active.as_mut().unwrap()).unwrap().is_none());
    assert!(matches!(
        run_actor(
            &mut actor,
            ActorEvent::Activate {
                media_generation: generation(9)
            }
        ),
        ActorReaction::Reply(Ok(()))
    ));
    let queued = maybe_queue(actor.active.as_mut().unwrap()).unwrap().unwrap();
    assert_eq!(queued.buffer_id, id(4));
}

#[test]
fn a_buffer_that_negotiates_twice_fails_the_generation() {
    let mut actor = capturing();
    run_actor(&mut actor, ActorEvent::Source(Some(available(4))));
    let ActorReaction::FailActive(text) =
        run_actor(&mut actor, ActorEvent::Source(Some(available(4))))
    else {
        panic!("the second negotiation was taken");
    };
    assert_eq!(
        text,
        "handle PipeWire source event: buffer 4 negotiated its transport twice"
    );
    let ActorReaction::FailActive(text) = run_actor(&mut actor, ActorEvent::Source(None)) else {
        panic!("the end of the source was ignored");
    };
    assert_eq!(
        text,
        "observe PipeWire source: source actor event stream closed"
    );
}

#[test]
fn commands_about_another_generation_are_refused() {
    let mut actor = capturing();
    assert!(matches!(
        run_actor(
            &mut actor,
            ActorEvent::Suspend {
                media_generation: generation(8)
            }
        ),
        ActorReaction::Reply(Err(_))
    ));
    assert!(matches!(
        run_actor(
            &mut actor,
            ActorEvent::Stop {
                media_generation: generation(8)
            }
        ),
        ActorReaction::Stop(StopAnswer::Refused(_))
    ));
    assert!(matches!(
        run_actor(
            &mut actor,
            ActorEvent::Stop {
                media_generation: generation(9)
            }
        ),
        ActorReaction::Stop(StopAnswer::StopActive)
    ));
    assert!(actor.take_active().is_some());
    assert!(matches!(
        run_actor(
            &mut actor,
            ActorEvent::Stop {
                media_generation: generation(9)
            }
        ),
        ActorReaction::Stop(StopAnswer::AlreadyStopped)
    ));
}

/// Begin with an event of the holder, whose transport is bound.
fn begin(actor: &mut CaptureActor, event: HolderEvent, online: bool) -> HolderProgress {
    let event = ActorEvent::Holder {
        event,
        online,
        bound: true,
    };
    match run_actor(actor, event) {
        ActorReaction::Holder(progress) => progress,
        other => panic!("the event was ignored: {other:?}"),
    }
}

/// Answer what an event of the holder waits for.
fn answer(actor: &mut CaptureActor, progress: HolderProgress, reply: HolderReply) -> HolderProgress {
    let HolderProgress::Next(phase) = progress else {
        panic!("the event waits for nothing: {progress:?}");
    };
    let event = ActorEvent::HolderReply {
        phase,
        reply,
        bound: true,
    };
    match run_actor(actor, event) {
        ActorReaction::Holder(progress) => progress,
        other => panic!("the reply was ignored: {other:?}"),
    }
}

fn done() -> HolderReply {
    HolderReply::Done(Ok(()))
}

fn refused(text: &str) -> HolderReply {
    HolderReply::Done(Err(text.into()))
}

fn ended(progress: HolderProgress) -> String {
    match progress {
        HolderProgress::End(error) => error.to_text(),
        other => panic!("the owner does not end: {other:?}"),
    }
}

#[test]
fn a_lost_grant_fails_the_generation() {
    let mut actor = capturing();
    let lost = observation(DisplayGrantState::SuspendedNoMaster);
    let polling = begin(&mut actor, HolderEvent::PollDue, true);
    assert!(matches!(polling, HolderProgress::Next(HolderPhase::Polling)));
    let first = answer(&mut actor, polling, HolderReply::Observed(Ok(lost)));
    let HolderProgress::Next(HolderPhase::Doing { steps }) = &first else {
        panic!("the loss was ignored");
    };
    assert_eq!(
        *steps,
        vec![
            ActorStep::ReconcileGrant {
                operation: "reconcile CastKMS grant state"
            },
            ActorStep::SynchronizeCec {
                authority_active: false
            },
            ActorStep::Publish(lost),
            ActorStep::FailActive("CastKMS grant became SuspendedNoMaster".into()),
        ]
    );
    let following = answer(&mut actor, first, done());
    assert!(matches!(
        following,
        HolderProgress::Next(HolderPhase::Following {
            step: AuthorityStep::DropPendingAndSuspend,
            ..
        })
    ));
    let publishing = answer(&mut actor, following, done());
    let failing = answer(&mut actor, publishing, done());
    let telling = answer(&mut actor, failing, HolderReply::Stopped(Ok(())));
    assert!(matches!(
        &telling,
        HolderProgress::Next(HolderPhase::TellingFailure { diagnostic, .. })
            if diagnostic == "CastKMS grant became SuspendedNoMaster"
    ));
    assert!(matches!(
        answer(&mut actor, telling, done()),
        HolderProgress::Done
    ));
    assert_eq!(actor.current, lost);
}

#[test]
fn a_generation_that_cannot_be_stopped_ends_the_owner() {
    let mut actor = capturing();
    let following = begin(&mut actor, HolderEvent::GrantRevoked, true);
    let publishing = answer(&mut actor, following, done());
    assert!(matches!(
        &publishing,
        HolderProgress::Next(HolderPhase::Doing { steps })
            if steps[0] == ActorStep::PublishRevoked && steps.len() == 3
    ));
    // Nobody has to be there to be told.
    let reconciling = answer(&mut actor, publishing, refused("closed"));
    let failing = answer(&mut actor, reconciling, done());
    // What is not waited for changes nothing.
    let failing = answer(&mut actor, failing, done());
    let telling = answer(
        &mut actor,
        failing,
        HolderReply::Stopped(Err(KernelDisplayError::new("stop", "stuck"))),
    );
    assert!(matches!(
        &telling,
        HolderProgress::Next(HolderPhase::TellingFailure { diagnostic, .. })
            if diagnostic == "CastKMS grant was revoked; cleanup also failed: stop: stuck"
    ));
    assert_eq!(
        ended(answer(&mut actor, telling, done())),
        "recover failed media generation: cleanup failed after media error: stop: stuck"
    );
    let mut actor = capturing();
    let following = begin(&mut actor, HolderEvent::GrantRevoked, true);
    let publishing = answer(&mut actor, following, done());
    let reconciling = answer(&mut actor, publishing, done());
    assert_eq!(
        ended(answer(&mut actor, reconciling, refused("gone"))),
        "reconcile revoked CastKMS grant: gone"
    );
}

#[test]
fn grant_events_keep_their_order() {
    let mut actor = capturing();
    let state = DisplayGrantState::Revoked;
    let reconciling = begin(&mut actor, HolderEvent::GrantState(state), true);
    assert!(matches!(
        reconciling,
        HolderProgress::Next(HolderPhase::ReconcilingEvent { .. })
    ));
    let following = answer(&mut actor, reconciling, done());
    assert!(matches!(
        following,
        HolderProgress::Next(HolderPhase::FollowingEvent {
            step: AuthorityStep::DropPendingAndSuspend,
            ..
        })
    ));
    let observing = answer(&mut actor, following, done());
    assert!(matches!(
        observing,
        HolderProgress::Next(HolderPhase::ObservingEvent { .. })
    ));
    let shown = observation(DisplayGrantState::Revoked);
    let steps = answer(&mut actor, observing, HolderReply::Observed(Ok(shown)));
    assert!(matches!(
        steps,
        HolderProgress::Next(HolderPhase::Doing { steps })
            if steps == vec![
                ActorStep::Publish(shown),
                ActorStep::FailActive("CastKMS grant became Revoked".into()),
            ]
    ));

    // An active grant that was known has nothing left to do.
    let mut actor = capturing();
    let active = HolderEvent::GrantState(DisplayGrantState::Active);
    let reconciling = begin(&mut actor, active, true);
    let following = answer(&mut actor, reconciling, done());
    let observing = answer(&mut actor, following, done());
    let same = observation(DisplayGrantState::Active);
    assert!(matches!(
        answer(&mut actor, observing, HolderReply::Observed(Ok(same))),
        HolderProgress::Done
    ));
}

#[test]
fn failures_of_grant_events_are_named() {
    assert_eq!(
        events_read(Err("reset".into())).unwrap_err().to_text(),
        "read grant-holder event stream: reset"
    );
    assert_eq!(events_read(Ok(vec![HolderEvent::Unknown])).unwrap().len(), 1);
    let mut actor = capturing();
    let event = || HolderEvent::GrantState(DisplayGrantState::Pending);
    let reconciling = begin(&mut actor, event(), true);
    assert_eq!(
        ended(answer(&mut actor, reconciling, refused("stale"))),
        "reconcile CastKMS grant-state event: stale"
    );
    let reconciling = begin(&mut actor, event(), true);
    let following = answer(&mut actor, reconciling, done());
    assert_eq!(
        ended(answer(&mut actor, following, refused("busy"))),
        "suspend connector CEC transport authority: busy"
    );
    let reconciling = begin(&mut actor, event(), true);
    let following = answer(&mut actor, reconciling, done());
    let observing = answer(&mut actor, following, done());
    let unseen = KernelDisplayError::new("observe", "gone");
    assert_eq!(
        ended(answer(&mut actor, observing, HolderReply::Observed(Err(unseen)))),
        "observe: gone"
    );
}

#[test]
fn a_transport_that_is_not_bound_follows_nothing() {
    let mut actor = capturing();
    let reaction = run_actor(
        &mut actor,
        ActorEvent::HolderReply {
            phase: HolderPhase::ReconcilingEvent {
                state: DisplayGrantState::Pending,
            },
            reply: done(),
            bound: false,
        },
    );
    assert!(matches!(
        reaction,
        ActorReaction::Holder(HolderProgress::Next(HolderPhase::ObservingEvent { .. }))
    ));
}

#[test]
fn repeated_observations_ask_for_nothing() {
    let mut actor = capturing();
    let same = observation(DisplayGrantState::Active);
    let polling = begin(&mut actor, HolderEvent::PollDue, true);
    assert!(matches!(
        answer(&mut actor, polling, HolderReply::Observed(Ok(same))),
        HolderProgress::Done
    ));
}

#[test]
fn queue_failures_end_the_generation_or_the_owner() {
    let mut actor = capturing();
    let error = || KernelDisplayError::new("queue buffer", "busy");
    assert!(matches!(
        run_actor(&mut actor, ActorEvent::Queued(Ok(()))),
        ActorReaction::Nothing
    ));
    assert!(matches!(
        run_actor(
            &mut actor,
            ActorEvent::Queued(Err(QueueFailure::Recoverable(error())))
        ),
        ActorReaction::FailActive(text) if text == "queue buffer: busy"
    ));
    assert!(matches!(
        run_actor(
            &mut actor,
            ActorEvent::Queued(Err(QueueFailure::Fatal(error())))
        ),
        ActorReaction::End(_)
    ));
    assert!(matches!(
        run_actor(&mut actor, ActorEvent::FrameHandled(Ok(()))),
        ActorReaction::TryQueue
    ));
    assert!(matches!(
        run_actor(&mut actor, ActorEvent::CommandsClosed),
        ActorReaction::End(_)
    ));
    assert!(matches!(
        begin(&mut actor, HolderEvent::Unknown, true),
        HolderProgress::Done
    ));
}

#[test]
fn an_unanswered_start_is_stopped_and_an_incomplete_rollback_ends_the_owner() {
    let flow = after_start(true, false, true, false);
    assert!(flow.stop_active);
    assert!(flow.end.is_none());
    let flow = after_start(false, true, false, true);
    assert!(!flow.stop_active);
    assert_eq!(
        flow.end.unwrap().to_text(),
        "roll back failed capture start: capture resources remain owned after startup failure"
    );
}

#[test]
fn a_detach_tells_every_failure() {
    assert!(detached(Ok(()), Ok(()), Vec::new(), Ok(())).is_ok());
    let error = detached(
        Err(KernelDisplayError::new("stop", "stuck")),
        Err("gone".into()),
        vec!["fail pending CEC transmit: late".into()],
        Err(KernelDisplayError::new("detach", "denied")),
    )
    .unwrap_err();
    assert_eq!(
        error.to_text(),
        "tear down CastKMS actor: stop: stuck; shut down PipeWire source actor: gone; \
         fail pending CEC transmit: late; detach: denied"
    );
    assert!(combined_kernel_failures("nothing", Vec::new()).is_ok());
    assert!(require_not_cancelled(true, "wait").is_err());
}

#[test]
fn connectors_must_belong_to_the_reserved_output() {
    assert!(validate_output_identity(3, 3).is_ok());
    assert_eq!(
        validate_output_identity(3, 4).unwrap_err().to_text(),
        "validate connector output identity: grant output index 3 differs from reserved output 4"
    );
    assert!(bind_cec_transport(true, Some(4), 4).unwrap());
    assert!(!bind_cec_transport(true, None, 4).unwrap());
    assert!(!bind_cec_transport(false, Some(5), 4).unwrap());
    assert_eq!(
        bind_cec_transport(true, Some(5), 4).unwrap_err().message,
        "CEC output index 5 differs from reserved output 4"
    );
}

#[test]
fn remote_control_follows_the_grant() {
    assert_eq!(
        synchronize_cec_authority(false, true),
        AuthorityStep::Nothing
    );
    assert_eq!(
        synchronize_cec_authority(true, true),
        AuthorityStep::BringOnline
    );
    assert_eq!(
        synchronize_cec_authority(true, false),
        AuthorityStep::DropPendingAndSuspend
    );
}

#[test]
fn remote_control_messages_are_answered() {
    let mut bridge = CecBridge::new();
    assert_eq!(
        handle_cec_transmit(&mut bridge, Ok(CecTransmitAdmission::Stale), &[0x00], 2).unwrap(),
        CecStep::Ignore
    );
    assert_eq!(
        handle_cec_transmit(&mut bridge, Ok(CecTransmitAdmission::Accepted), &[0x44], 2).unwrap(),
        CecStep::Complete {
            completion: CecCompletion::NotAcknowledged { attempts: 2 },
            operation: "reject CastKMS CEC transmit",
        }
    );
    assert_eq!(
        handle_cec_transmit(
            &mut bridge,
            Ok(CecTransmitAdmission::Accepted),
            &[0x40, 0xfe],
            2
        )
        .unwrap(),
        CecStep::CompleteAndReply {
            message: vec![0x04, 0x00, 0xfe, 0x00],
            operation: "acknowledge CastKMS CEC request",
            reply_operation: "inject CastKMS CEC response",
        }
    );
    assert_eq!(
        control_completion(ControlOutcome::Refused, 3),
        CecCompletion::NotAcknowledged { attempts: 3 }
    );
    assert_eq!(
        control_completion(ControlOutcome::TaskFailed, 3),
        CecCompletion::Failed
    );
    let mut failures = Vec::new();
    teardown_cec(
        Some(Err("late".into())),
        Some((Ok(()), Err("busy".into()))),
        &mut failures,
    );
    assert_eq!(
        failures,
        vec![
            "fail pending CEC transmit: late",
            "unbind CEC transport: busy"
        ]
    );
}

#[test]
fn requests_to_the_owner_say_why_they_failed() {
    assert!(send_command(SendOutcome::Sent).is_ok());
    assert_eq!(
        send_command(SendOutcome::Closed).unwrap_err().to_text(),
        "CastKMS actor command channel closed"
    );
    assert_eq!(
        send_command(SendOutcome::Cancelled).unwrap_err().to_text(),
        "CastKMS command was cancelled"
    );
    assert_eq!(
        request_unit(CaptureRequest::Suspend, ReplyOutcome::Cancelled)
            .unwrap_err()
            .to_text(),
        "suspend CastKMS capture was cancelled"
    );
    assert_eq!(
        request_unit(CaptureRequest::Activate, ReplyOutcome::Closed)
            .unwrap_err()
            .to_text(),
        "CastKMS actor reply closed"
    );
    assert_eq!(
        request_unit(
            CaptureRequest::Stop,
            ReplyOutcome::Reply(Err(KernelDisplayError::new("stop", "stuck")))
        )
        .unwrap_err()
        .to_text(),
        "stop: stuck"
    );
    assert_eq!(
        start(ReplyOutcome::Cancelled).unwrap_err().to_text(),
        "CastKMS capture start was cancelled"
    );
    assert!(shutdown(false).is_ok());
    assert!(shutdown(true).is_err());
}

#[test]
fn a_detach_prefers_the_owners_answer() {
    let ended = || Err(KernelDisplayError::new("run", "ended"));
    assert_eq!(detach(false, None, ended()), ended());
    assert_eq!(
        detach(true, None, Ok(())).unwrap_err().message,
        "actor reply closed"
    );
    assert_eq!(
        detach(
            true,
            Some(Err(KernelDisplayError::new("detach", "denied"))),
            ended()
        )
        .unwrap_err()
        .message,
        "denied"
    );
    assert_eq!(detach(true, Some(Ok(())), ended()), ended());
    assert!(join_task(None).is_ok());
    assert_eq!(
        join_task(Some(Err("panicked".into()))).unwrap_err().to_text(),
        "join CastKMS actor: panicked"
    );
}

#[test]
fn an_actor_is_spawned_step_by_step() {
    let observed = || SpawnReply::Observed(Ok(()));
    assert_eq!(
        SpawnStep::Observe.spawn(false, 4, observed()),
        Ok(Some(SpawnStep::Register))
    );
    assert_eq!(
        SpawnStep::Observe.spawn(true, 4, observed()),
        Ok(Some(SpawnStep::QueryCec))
    );
    assert_eq!(
        SpawnStep::QueryCec.spawn(true, 4, SpawnReply::Cec(Ok(None))),
        Ok(Some(SpawnStep::Register))
    );
    let mut steps = Vec::new();
    let mut step = SpawnStep::QueryCec.spawn(true, 4, SpawnReply::Cec(Ok(Some(4))));
    while let Ok(Some(current)) = step {
        steps.push(current);
        step = current.spawn(true, 4, SpawnReply::Done(Ok(())));
    }
    assert_eq!(
        steps,
        vec![
            SpawnStep::BindCec,
            SpawnStep::BringCecOnline,
            SpawnStep::Register,
            SpawnStep::SpawnSource,
        ]
    );
    assert_eq!(
        SpawnStep::QueryCec
            .spawn(true, 4, SpawnReply::Cec(Ok(Some(5))))
            .unwrap_err()
            .to_text(),
        "validate connector CEC identity: CEC output index 5 differs from reserved output 4"
    );
    assert_eq!(
        SpawnStep::Register
            .spawn(true, 4, SpawnReply::Done(Err("no reactor".into())))
            .unwrap_err()
            .to_text(),
        "register grant holder for Tokio readiness: no reactor"
    );
}

fn message(cookie: u64, bytes: &[u8]) -> CecTransmitEvent {
    CecTransmitEvent {
        transport_generation: 1,
        state_generation: 1,
        cookie,
        attempts: 3,
        message: bytes.to_vec(),
    }
}

#[test]
fn a_start_becomes_the_active_generation() {
    let mut actor = CaptureActor::new(observation(DisplayGrantState::Active), false, false);
    let start = || ActorEvent::Start {
        request: request(),
        connector_id: 5,
        grant_id: 6,
        cancelled: false,
    };
    let ActorReaction::Start(Ok(admitted)) = run_actor(&mut actor, start()) else {
        panic!("the start was refused");
    };
    let (generation, _) = start_generation(&config(), admitted, stream(1920), identity(), None);
    assert!(matches!(
        run_actor(&mut actor, ActorEvent::Started(generation)),
        ActorReaction::Nothing
    ));
    let ActorReaction::AfterStart(flow) = run_actor(
        &mut actor,
        ActorEvent::StartAnswered {
            started: true,
            answered: false,
            holds_active_stream: true,
            holds_retired_stream: false,
        },
    ) else {
        panic!("the answer was ignored");
    };
    assert!(flow.stop_active);
    assert!(flow.end.is_none());
    let ActorReaction::Start(Err(error)) = run_actor(&mut actor, start()) else {
        panic!("a second start was admitted");
    };
    assert_eq!(
        error.to_text(),
        "start capture generation: another media generation is still active"
    );
    let ActorReaction::Detach { generation, pending } = run_actor(&mut actor, ActorEvent::Detach)
    else {
        panic!("the owner did not detach");
    };
    assert!(generation.unwrap().suspended);
    assert!(pending.is_none());
    assert!(actor.active.is_none());
}

#[test]
fn messages_need_a_bridge() {
    let mut actor = CaptureActor::new(observation(DisplayGrantState::Active), true, false);
    let event = || HolderEvent::CecTransmit(message(7, &[0x40, 0x44, 0x41]));
    let missing =
        "handle CastKMS CEC transmit: CEC event arrived without an enabled Device control port";
    assert_eq!(ended(begin(&mut actor, event(), true)), missing);

    // The grant is looked at again before that, where the transport is offline.
    let rechecking = begin(&mut actor, event(), false);
    let state = DisplayGrantState::Pending;
    let reconciling = answer(&mut actor, rechecking, HolderReply::Grant(Ok(state)));
    assert_eq!(ended(answer(&mut actor, reconciling, done())), missing);
}

#[test]
fn offline_messages_recheck_the_grant_first() {
    let mut actor = CaptureActor::new(observation(DisplayGrantState::Active), true, true);
    let event = || HolderEvent::CecTransmit(message(7, &[0x40, 0x44, 0x41]));
    let rechecking = begin(&mut actor, event(), false);
    assert!(matches!(
        rechecking,
        HolderProgress::Next(HolderPhase::RecheckingCec { .. })
    ));
    let state = DisplayGrantState::Active;
    let reconciling = answer(&mut actor, rechecking, HolderReply::Grant(Ok(state)));
    let following = answer(&mut actor, reconciling, done());
    assert!(matches!(
        following,
        HolderProgress::Next(HolderPhase::FollowingCec { .. })
    ));
    assert!(matches!(
        answer(&mut actor, following, done()),
        HolderProgress::Next(HolderPhase::RecordingCec { .. })
    ));

    let rechecking = begin(&mut actor, event(), false);
    let reply = HolderReply::Grant(Err("gone".into()));
    assert_eq!(
        ended(answer(&mut actor, rechecking, reply)),
        "recheck CEC transmit authority: gone"
    );
    let rechecking = begin(&mut actor, event(), false);
    let reconciling = answer(&mut actor, rechecking, HolderReply::Grant(Ok(state)));
    assert_eq!(
        ended(answer(&mut actor, reconciling, refused("busy"))),
        "reconcile CEC transmit authority: busy"
    );
    let rechecking = begin(&mut actor, event(), false);
    let reconciling = answer(&mut actor, rechecking, HolderReply::Grant(Ok(state)));
    let following = answer(&mut actor, reconciling, done());
    assert_eq!(
        ended(answer(&mut actor, following, refused("late"))),
        "resume connector CEC transport authority: late"
    );
}

/// Hand a message to the owner, and record it.
fn record(actor: &mut CaptureActor, bytes: &[u8], admission: CecTransmitAdmission) -> HolderProgress {
    let event = HolderEvent::CecTransmit(message(7, bytes));
    let recording = begin(actor, event, true);
    answer(actor, recording, HolderReply::Recorded(Ok(admission)))
}

#[test]
fn a_device_works_on_one_message_at_a_time() {
    let mut actor = CaptureActor::new(observation(DisplayGrantState::Active), true, true);
    let press = [0x40, 0x44, 0x41];
    assert!(matches!(
        record(&mut actor, &press, CecTransmitAdmission::Accepted),
        HolderProgress::Control(_)
    ));
    let second = HolderEvent::CecTransmit(message(8, &press));
    assert_eq!(
        ended(begin(&mut actor, second, true)),
        "handle CastKMS CEC transmit: a Device control operation is already pending"
    );
    let refusal = HolderEvent::CecControlled(ControlOutcome::Refused);
    let completing = begin(&mut actor, refusal, true);
    let HolderProgress::Next(HolderPhase::CompletingCec {
        event,
        completion,
        operation,
        reply: None,
    }) = &completing
    else {
        panic!("the message was not answered");
    };
    assert_eq!(event.cookie, 7);
    assert_eq!(*completion, CecCompletion::NotAcknowledged { attempts: 3 });
    assert_eq!(*operation, "complete Device-backed CEC transmit");
    assert!(actor.pending.is_none());
    assert!(matches!(
        answer(&mut actor, completing, done()),
        HolderProgress::Done
    ));
}

#[test]
fn replies_follow_the_acknowledgement() {
    let mut actor = CaptureActor::new(observation(DisplayGrantState::Active), true, true);
    let abort = [0x40, 0xfe];
    let completing = record(&mut actor, &abort, CecTransmitAdmission::Accepted);
    let injecting = answer(&mut actor, completing, done());
    assert!(matches!(
        &injecting,
        HolderProgress::Next(HolderPhase::InjectingCec { message })
            if *message == vec![0x04, 0x00, 0xfe, 0x00]
    ));
    assert_eq!(
        ended(answer(&mut actor, injecting, refused("full"))),
        "inject CastKMS CEC response: full"
    );
    let completing = record(&mut actor, &abort, CecTransmitAdmission::Accepted);
    assert_eq!(
        ended(answer(&mut actor, completing, refused("full"))),
        "acknowledge CastKMS CEC request: full"
    );
}

#[test]
fn messages_end_with_the_right_to_send_them() {
    let mut actor = CaptureActor::new(observation(DisplayGrantState::Active), true, true);
    let press = [0x40, 0x44, 0x41];
    record(&mut actor, &press, CecTransmitAdmission::Accepted);
    assert!(actor.pending.is_some());
    let active = HolderEvent::GrantState(DisplayGrantState::Active);
    let reconciling = begin(&mut actor, active, true);
    answer(&mut actor, reconciling, done());
    assert!(actor.pending.is_some());
    let pending = HolderEvent::GrantState(DisplayGrantState::Pending);
    let reconciling = begin(&mut actor, pending, true);
    assert!(actor.pending.is_some());
    answer(&mut actor, reconciling, done());
    assert!(actor.pending.is_none());
    record(&mut actor, &press, CecTransmitAdmission::Accepted);
    let ActorReaction::Detach { pending, .. } = run_actor(&mut actor, ActorEvent::Detach) else {
        panic!("the owner did not detach");
    };
    assert_eq!(pending.unwrap().cookie, 7);
}

#[test]
fn stale_and_unrecorded_messages_go_no_further() {
    let mut actor = CaptureActor::new(observation(DisplayGrantState::Active), true, true);
    let press = [0x40, 0x44, 0x41];
    assert!(matches!(
        record(&mut actor, &press, CecTransmitAdmission::Stale),
        HolderProgress::Done
    ));
    let event = HolderEvent::CecTransmit(message(7, &press));
    let recording = begin(&mut actor, event, true);
    let reply = HolderReply::Recorded(Err("gone".into()));
    assert_eq!(
        ended(answer(&mut actor, recording, reply)),
        "record CastKMS CEC transmit: gone"
    );
}

#[test]
fn owners_end_in_order() {
    let mut end = CaptureDetach::begin(Some(message(7, &[0x40, 0x44, 0x41])));
    let refused = |text: &str| DetachReply::Done(Err(text.into()));
    // The monitor is not detached before everything else has ended.
    end.proceed(DetachReply::Monitor(MonitorDetach::Done), true);
    assert!(matches!(end.phase, DetachPhase::Stopping));
    end.proceed(
        DetachReply::Stopped(Err(KernelDisplayError::new("stop", "stuck"))),
        true,
    );
    assert!(matches!(end.phase, DetachPhase::EndingSource));
    end.proceed(refused("gone"), true);
    assert!(matches!(&end.phase, DetachPhase::FailingMessage { event } if event.cookie == 7));
    end.proceed(refused("late"), true);
    assert!(matches!(end.phase, DetachPhase::TakingOffline));
    end.proceed(DetachReply::Done(Ok(())), true);
    assert!(matches!(end.phase, DetachPhase::Unbinding { .. }));
    end.proceed(refused("busy"), true);
    assert!(matches!(end.phase, DetachPhase::Detaching));
    end.proceed(
        DetachReply::Monitor(MonitorDetach::Refused("denied".into())),
        true,
    );
    assert!(matches!(end.phase, DetachPhase::Ended));
    assert_eq!(
        end.finish().unwrap_err().to_text(),
        "tear down CastKMS actor: stop: stuck; shut down PipeWire source actor: gone; \
         fail pending CEC transmit: late; unbind CEC transport: busy; \
         detach grant-scoped monitor: denied"
    );

    // Without a message and a transport nothing is done about them.
    let mut end = CaptureDetach::begin(None);
    end.proceed(DetachReply::Stopped(Ok(())), false);
    end.proceed(DetachReply::Done(Ok(())), false);
    assert!(matches!(end.phase, DetachPhase::Detaching));
    end.proceed(DetachReply::Monitor(MonitorDetach::Done), false);
    assert!(end.finish().is_ok());
    assert_eq!(
        monitor_detached(MonitorDetach::TaskFailed("panicked".into()))
            .unwrap_err()
            .to_text(),
        "join CastKMS detach: panicked"
    );
}

#[test]
fn devices_answer_in_time_or_refuse() {
    assert_eq!(control_answer(Some(Ok(()))), Ok(()));
    let late = control_answer(None);
    assert_eq!(
        late.as_ref().unwrap_err().to_text(),
        "Device control operation timed out"
    );
    assert_eq!(control_outcome(Ok(late)), ControlOutcome::Refused);
    assert_eq!(control_outcome(Ok(Ok(()))), ControlOutcome::Done);
    assert_eq!(
        control_outcome(Err("panicked".into())),
        ControlOutcome::TaskFailed
    );
    assert_eq!(
        DeviceControlError::unsupported().to_text(),
        "Device session does not support control operations"
    );
    assert_eq!(
        next_event(None).unwrap_err().to_text(),
        "observe CastKMS actor: event stream closed"
    );
    assert_eq!(
        next_event(Some(KernelDisplayEvent::Revoked)),
        Ok(KernelDisplayEvent::Revoked)
    );
}
