use pronk::castkms_actor::frame_sequence::{FramePhase, FrameProgress, FrameReply};
use pronk::castkms_actor::frames::{
    buffer_released, capture_queue_needs_retry, finish_arming, finish_queue, frame_readiness,
    handle_capture_frame, handle_source_event, maybe_queue, published_frame, take_matched,
    CaptureFrameEvent, QueueFailure, QueueReply, QueueRequest, SourceStep, TimedOutcome,
    VideoSourceActorEvent,
};
use pronk::castkms_actor::start::{
    admit_start, allocate_pool, audio_resolver_connected, audio_sink_resolved, check_capabilities,
    export_video_buffers, node_name, producer_connected, rollback_stops_capture,
    rollback_unpublished, source_config, source_started, start_generation, stop_started_source,
    stream_started, CastKmsActorConfig, StartFailure, Undo,
};
use pronk::castkms_actor::stop::{
    consumer_owned, drain_outstanding_capture, drained_events, drained_readiness, fail_active,
    stop_active, stop_needs_capture_stop, CaptureBufferInfo, CaptureBufferState, DrainStep,
    SourceStop, StopReport,
};
use pronk::castkms_actor::undo_sequence::{StartUndo, UndoPhase, UndoProgress, UndoReply};
use pronk::castkms_actor::{
    ActiveGeneration, CaptureQueue, CaptureStreamInfo, CursorCaptureMode, PipeWireBufferTransport,
    VideoNodeIdentity,
};
use pronk::display_state::{RouteTarget, RoutedMode};
use pronk::kernel_display_port::KernelDisplayError;
use pronk::media_driver::PortOutcome;
use pronk::media_session::{MediaRoute, MediaStartRequest};
use pronk::nonzero::{NonZeroU32, NonZeroU64};

fn id(value: u32) -> NonZeroU32 {
    NonZeroU32::new(value).unwrap()
}

fn generation(value: u64) -> NonZeroU64 {
    NonZeroU64::new(value).unwrap()
}

fn request() -> MediaStartRequest {
    MediaStartRequest {
        media_generation: 9,
        route: MediaRoute {
            route_generation: 3,
            target: RouteTarget::new(id(7)),
            mode: RoutedMode {
                width: 1920,
                height: 1080,
                refresh_millihz: 60_000,
                flags: 0,
            },
        },
    }
}

fn stream() -> CaptureStreamInfo {
    CaptureStreamInfo {
        stream_id: id(2),
        crtc_id: id(7),
        mode_generation: generation(11),
        width: id(1920),
        height: id(1080),
        refresh_hz: id(60),
        cursor_mode: CursorCaptureMode::IncludeInFrame,
    }
}

fn identity() -> VideoNodeIdentity {
    VideoNodeIdentity {
        node_name: "pronk.video.session.9".into(),
        object_id: id(1),
        object_serial: generation(2),
        media_generation: generation(9),
    }
}

fn config() -> CastKmsActorConfig {
    CastKmsActorConfig {
        session_id: "session".into(),
        device_instance: "device".into(),
        node_description: "display".into(),
        device_path: "/sys/devices/castkms".into(),
        output_index: 0,
        video_profile_id: "h264-high".into(),
        audio_profile_id: None,
        video_bitrate: generation(4_000_000),
        device_control: false,
    }
}

fn capturing(transport: PipeWireBufferTransport) -> ActiveGeneration {
    let admitted = admit_start(false, request(), 5, 6, false).unwrap();
    let mut active = start_generation(&config(), admitted, stream(), identity(), None).0;
    active.suspended = false;
    for buffer_id in [4, 5, 6] {
        handle_source_event(
            &mut active,
            VideoSourceActorEvent::BufferAvailable {
                media_generation: generation(9),
                buffer_id: id(buffer_id),
                transport,
            },
        )
        .unwrap();
    }
    active
}

fn queue_of(request: QueueRequest) -> CaptureQueue {
    CaptureQueue {
        stream_id: id(2),
        buffer_id: request.buffer_id,
        user_data: request.user_data,
        ready_point: Some(77),
    }
}

fn queue(active: &mut ActiveGeneration) -> CaptureQueue {
    let request = maybe_queue(active).unwrap().unwrap();
    let queued = queue_of(request);
    let capture = finish_queue(active, request, QueueReply::Queued(queued))
        .unwrap()
        .unwrap();
    finish_arming(active, capture, Ok(())).unwrap();
    queued
}

fn frame(queue: CaptureQueue) -> CaptureFrameEvent {
    CaptureFrameEvent {
        stream_id: queue.stream_id.get(),
        buffer_id: queue.buffer_id.get(),
        user_data: queue.user_data.get(),
        status: 0,
        mode_generation: 11,
        damage_x: 1,
        damage_y: 2,
        damage_width: 3,
        damage_height: 4,
        sequence: 21,
        timestamp_ns: 1_000,
        dropped_frames: 1,
    }
}

#[test]
fn buffers_go_round_in_order() {
    let mut active = capturing(PipeWireBufferTransport::SyncTimeline);
    let first = queue(&mut active);
    let second = queue(&mut active);
    assert_eq!((first.buffer_id, second.buffer_id), (id(4), id(5)));
    assert_ne!(first.user_data, second.user_data);
    assert!(maybe_queue(&mut active).unwrap().is_none());
    assert!(!capture_queue_needs_retry(Some(&active)));

    let matched = handle_capture_frame(&active, frame(second)).unwrap();
    assert!(!matched.wait);
    let capture = take_matched(&mut active, matched);
    let published = published_frame(frame(second), matched, capture, Ok(id(5))).unwrap();
    assert_eq!(published.sequence, 21);
    assert_eq!(published.pts_ns, 1_000);
    assert!(published.discontinuity);
    assert_eq!(published.acquire_point, Some(77));
    assert_eq!(published.damage.width, id(3));
    assert!(capture_queue_needs_retry(Some(&active)));

    assert_eq!(
        handle_source_event(
            &mut active,
            VideoSourceActorEvent::BufferReleased {
                media_generation: generation(9),
                buffer_id: id(5),
                sequence: 21,
            }
        )
        .unwrap(),
        SourceStep::Release {
            stream_id: id(2),
            buffer_id: id(5),
        }
    );
    assert_eq!(
        buffer_released(&mut active, id(5), Err("busy".into()))
            .unwrap_err()
            .to_text(),
        "release CastKMS capture buffer: busy"
    );
    buffer_released(&mut active, id(5), Ok(())).unwrap();
    assert_eq!(queue(&mut active).buffer_id, id(6));
}

#[test]
fn a_waited_buffer_is_complete_before_it_is_published() {
    let mut active = capturing(PipeWireBufferTransport::ReadyBeforePublish);
    let queued = queue(&mut active);
    let matched = handle_capture_frame(&active, frame(queued)).unwrap();
    assert!(matched.wait);
    assert!(frame_readiness(TimedOutcome::Done).is_ok());
    assert!(frame_readiness(TimedOutcome::TimedOut).is_err());
    assert!(frame_readiness(TimedOutcome::Failed("fence".into())).is_err());
    let capture = take_matched(&mut active, matched);
    assert_eq!(
        published_frame(frame(queued), matched, capture, Ok(id(4)))
            .unwrap()
            .acquire_point,
        None
    );
    assert!(published_frame(frame(queued), matched, capture, Err("lost".into())).is_err());
}

#[test]
fn a_busy_kernel_puts_the_buffer_back_in_front() {
    let mut active = capturing(PipeWireBufferTransport::SyncTimeline);
    let request = maybe_queue(&mut active).unwrap().unwrap();
    assert!(finish_queue(&mut active, request, QueueReply::Busy)
        .unwrap()
        .is_none());
    assert_eq!(maybe_queue(&mut active).unwrap().unwrap().buffer_id, id(4));
}

#[test]
fn a_failed_queue_is_recoverable_and_a_lost_fence_is_not() {
    let mut active = capturing(PipeWireBufferTransport::SyncTimeline);
    let request = maybe_queue(&mut active).unwrap().unwrap();
    assert!(matches!(
        finish_queue(&mut active, request, QueueReply::Failed("no memory".into())),
        Err(QueueFailure::Recoverable(error)) if error.message == "no memory"
    ));
    let request = maybe_queue(&mut active).unwrap().unwrap();
    let capture = finish_queue(&mut active, request, QueueReply::Queued(queue_of(request)))
        .unwrap()
        .unwrap();
    assert!(matches!(
        finish_arming(&mut active, capture, Err("no fence".into())),
        Err(QueueFailure::Fatal(error)) if error.operation == "arm CastKMS capture fence"
    ));
}

#[test]
fn frames_that_do_not_fit_are_refused() {
    let mut active = capturing(PipeWireBufferTransport::SyncTimeline);
    let queued = queue(&mut active);
    let refused = |change: fn(&mut CaptureFrameEvent)| {
        let mut frame = frame(queued);
        change(&mut frame);
        handle_capture_frame(&active, frame).unwrap_err().message
    };
    assert_eq!(
        refused(|frame| frame.user_data = 99),
        "frame identity differs from every outstanding buffer"
    );
    assert_eq!(
        refused(|frame| frame.status = -5),
        "capture completed with status -5 at mode generation 11"
    );
    assert_eq!(
        refused(|frame| frame.mode_generation = 12),
        "capture completed with status 0 at mode generation 12"
    );
    assert_eq!(
        refused(|frame| frame.damage_x = -1),
        "negative damage x coordinate"
    );
    assert_eq!(
        refused(|frame| frame.damage_y = -1),
        "negative damage y coordinate"
    );
    assert_eq!(refused(|frame| frame.damage_width = 0), "zero damage width");
    assert_eq!(
        refused(|frame| frame.damage_height = 0),
        "zero damage height"
    );
}

#[test]
fn a_start_goes_through_its_checks() {
    assert!(audio_resolver_connected(PortOutcome::Done(())).is_ok());
    assert!(audio_resolver_connected(PortOutcome::Cancelled).is_err());
    assert!(audio_sink_resolved(PortOutcome::Failed("no sink".into())).is_err());
    assert!(check_capabilities(Err("gone".into())).is_err());
    let admitted = admit_start(false, request(), 5, 6, false).unwrap();
    assert_eq!(
        stream_started(admitted, Ok(stream())).unwrap(),
        stream()
    );
    let mut narrow = stream();
    narrow.width = id(1280);
    let failure = stream_started(admitted, Ok(narrow)).unwrap_err();
    assert_eq!(failure.undo, Undo::Stream(narrow));
    assert_eq!(
        stream_started(admitted, Err("busy".into())).unwrap_err().undo,
        Undo::Nothing
    );
    assert!(producer_connected(stream(), PortOutcome::Done(())).is_ok());
    assert_eq!(
        producer_connected(stream(), PortOutcome::Cancelled)
            .unwrap_err()
            .undo,
        Undo::Stream(stream())
    );
    assert!(export_video_buffers(stream(), Err("denied".into())).is_err());
    assert_eq!(
        node_name("session", generation(9)),
        "pronk.video.session.9"
    );
    assert_eq!(
        source_config(&config(), admitted, stream()).node_name,
        "pronk.video.session.9"
    );
    let mut other = identity();
    other.media_generation = generation(8);
    assert!(source_started(admitted, stream(), Ok(identity()), false).is_ok());
    assert!(matches!(
        source_started(admitted, stream(), Ok(other), false)
            .unwrap_err()
            .undo,
        Undo::SourceAndStream { .. }
    ));
    assert!(matches!(
        source_started(admitted, stream(), Ok(identity()), true)
            .unwrap_err()
            .undo,
        Undo::SourceAndStream { .. }
    ));
    assert_eq!(
        allocate_pool(1, stream(), Err("no memory".into()))
            .unwrap_err()
            .error
            .message,
        "buffer 1: no memory"
    );
    assert!(check_capabilities(Ok(1)).is_err());
    assert!(check_capabilities(Ok(4)).is_ok());
}

#[test]
fn a_rollback_failure_comes_before_the_start_failure() {
    let failure = || StartFailure {
        error: KernelDisplayError::new("start", "refused"),
        undo: Undo::Stream(stream()),
    };
    let told = |replies: Vec<UndoReply>| {
        let mut progress = StartUndo::begin(failure());
        for reply in replies {
            let UndoProgress::Next(undo) = progress else {
                panic!("the way back has ended");
            };
            progress = undo.proceed(reply);
        }
        match progress {
            UndoProgress::Failed(error) => error.to_text(),
            UndoProgress::Next(undo) => panic!("the way back goes on: {undo:?}"),
        }
    };
    let found = || UndoReply::ActiveStream(Some(stream()));
    let done = || UndoReply::Done(Ok(()));
    let refused = |text: &str| UndoReply::Done(Err(text.into()));
    assert_eq!(
        told(vec![found(), done(), UndoReply::Buffers(true), done()]),
        "start: refused"
    );
    // What is not waited for changes nothing, and another stream captures on.
    assert_eq!(
        told(vec![done(), UndoReply::ActiveStream(None), UndoReply::Buffers(false)]),
        "start: refused"
    );
    assert_eq!(
        told(vec![found(), refused("stuck")]),
        "roll back CastKMS capture: stuck"
    );
    assert_eq!(
        told(vec![found(), done(), UndoReply::Buffers(true), refused("held")]),
        "destroy rolled-back capture pool: held"
    );
    let source = StartFailure {
        error: KernelDisplayError::new("start", "stale"),
        undo: Undo::SourceAndStream {
            media_generation: generation(9),
            stream: stream(),
        },
    };
    let UndoProgress::Next(undo) = StartUndo::begin(source) else {
        panic!("the source runs on");
    };
    assert!(matches!(undo.phase, UndoPhase::StoppingSource { .. }));
    let UndoProgress::Failed(error) =
        undo.proceed(UndoReply::Source(SourceStop::Failed("gone".into())))
    else {
        panic!("the source's failure is not told");
    };
    assert_eq!(error.to_text(), "roll back PipeWire source: gone");
    let nothing = StartFailure {
        error: KernelDisplayError::new("start", "early"),
        undo: Undo::Nothing,
    };
    assert!(matches!(StartUndo::begin(nothing), UndoProgress::Failed(_)));
    assert!(rollback_unpublished(Some(Ok(())), Some(Ok(()))).is_ok());
    assert!(rollback_unpublished(None, Some(Err("held".into()))).is_err());
    assert!(rollback_stops_capture(Some(stream()), stream()));
    assert!(!rollback_stops_capture(None, stream()));
    assert!(stop_started_source(SourceStop::NoActiveGeneration).is_ok());
    assert!(stop_started_source(SourceStop::Failed("gone".into())).is_err());
}

#[test]
fn a_stop_tries_every_part_and_tells_every_failure() {
    let clean = StopReport {
        source: Some(SourceStop::Stopped(identity())),
        early_releases: vec![(id(4), Ok(()))],
        capture: Some(Ok(())),
        drained: vec![Ok(())],
        late_releases: Vec::new(),
        pool: Ok(()),
    };
    assert!(stop_active(&identity(), clean).is_ok());
    let failed = StopReport {
        source: Some(SourceStop::Failed("no loop".into())),
        early_releases: vec![(id(4), Err("held".into()))],
        capture: Some(Err("busy".into())),
        drained: vec![Err(KernelDisplayError::new("drain", "late"))],
        late_releases: vec![(id(5), Err("held".into()))],
        pool: Err("in use".into()),
    };
    assert_eq!(
        stop_active(&identity(), failed).unwrap_err().message,
        "stop PipeWire generation: no loop; release consumer-owned CastKMS buffer 4: held; \
         stop CastKMS capture: busy; drain: late; \
         release consumer-owned CastKMS buffer 5: held; \
         destroy retired CastKMS capture pool: in use"
    );
    assert!(stop_needs_capture_stop(Some(stream()), stream()));
    let report = fail_active("lost".into(), Ok(()));
    assert_eq!(report.diagnostic, "lost");
    let report = fail_active("lost".into(), Err(KernelDisplayError::new("stop", "stuck")));
    assert_eq!(report.diagnostic, "lost; cleanup also failed: stop: stuck");
    assert!(report.result.is_err());
}

#[test]
fn requests_that_are_still_out_are_drained() {
    let buffers = vec![
        CaptureBufferInfo {
            buffer_id: id(4),
            state: CaptureBufferState::Completed,
        },
        CaptureBufferInfo {
            buffer_id: id(5),
            state: CaptureBufferState::Queued,
        },
        CaptureBufferInfo {
            buffer_id: id(6),
            state: CaptureBufferState::ConsumerOwned,
        },
    ];
    assert_eq!(consumer_owned(&buffers), vec![id(6)]);
    assert_eq!(
        drain_outstanding_capture(&buffers, id(4), false),
        DrainStep::TakeCompletion
    );
    assert_eq!(
        drain_outstanding_capture(&buffers, id(5), false),
        DrainStep::AwaitEvents
    );
    assert!(matches!(
        drain_outstanding_capture(&buffers, id(5), true),
        DrainStep::Fail(error)
            if error.message == "timed out waiting for canceled capture completion"
    ));
    assert!(matches!(
        drain_outstanding_capture(&buffers, id(6), false),
        DrainStep::Fail(error)
            if error.message == "queued buffer entered unexpected state ConsumerOwned"
    ));
    assert!(matches!(
        drain_outstanding_capture(&buffers, id(7), true),
        DrainStep::Fail(error) if error.message == "queued buffer disappeared during teardown"
    ));
    assert!(drained_readiness(TimedOutcome::Done).is_ok());
    assert_eq!(
        drained_readiness(TimedOutcome::TimedOut).unwrap_err().message,
        "timed out waiting for capture-buffer readiness"
    );
    assert_eq!(
        drained_events(TimedOutcome::Failed("closed".into()))
            .unwrap_err()
            .operation,
        "drain CastKMS event stream"
    );
}

#[test]
fn a_frame_goes_its_way_to_the_media_graph() {
    let mut active = Some(capturing(PipeWireBufferTransport::ReadyBeforePublish));
    let queued = queue(active.as_mut().unwrap());
    let FrameProgress::Next(phase) = FramePhase::arrive(&mut active, frame(queued)) else {
        panic!("the frame was refused");
    };
    assert!(matches!(phase, FramePhase::Waiting { .. }));
    assert_eq!(active.as_ref().unwrap().outstanding.len(), 1);
    let FrameProgress::Failed(error) =
        phase.proceed(&mut active, FrameReply::Waited(TimedOutcome::TimedOut))
    else {
        panic!("the frame went on");
    };
    assert_eq!(
        error.to_text(),
        "wait for CastKMS capture readiness: timed out before publishing a waited PipeWire buffer"
    );
    let FrameProgress::Next(phase) =
        phase.proceed(&mut active, FrameReply::Waited(TimedOutcome::Done))
    else {
        panic!("the complete frame was refused");
    };
    assert!(matches!(phase, FramePhase::Delegating { .. }));
    assert!(active.as_ref().unwrap().outstanding.is_empty());
    let FrameProgress::Failed(error) =
        phase.proceed(&mut active, FrameReply::Delegated(Err("gone".into())))
    else {
        panic!("the lost completion was ignored");
    };
    assert_eq!(error.operation, "delegate CastKMS capture completion");
    let FrameProgress::Next(FramePhase::Publishing(published)) =
        phase.proceed(&mut active, FrameReply::Delegated(Ok(id(4))))
    else {
        panic!("the frame is not published");
    };
    assert_eq!(published.sequence, 21);
    assert!(published.discontinuity);
    assert_eq!(published.acquire_point, None);
    let publishing = FramePhase::Publishing(published);
    assert_eq!(
        publishing.proceed(&mut active, FrameReply::Published(Ok(()))),
        FrameProgress::Published
    );
    let FrameProgress::Failed(error) =
        publishing.proceed(&mut active, FrameReply::Published(Err("closed".into())))
    else {
        panic!("the failure was ignored");
    };
    assert_eq!(error.to_text(), "publish captured PipeWire frame: closed");
}

#[test]
fn a_frame_of_a_timeline_needs_no_wait() {
    let mut active = Some(capturing(PipeWireBufferTransport::SyncTimeline));
    let queued = queue(active.as_mut().unwrap());
    let mut foreign = frame(queued);
    foreign.user_data += 1;
    let FrameProgress::Failed(error) = FramePhase::arrive(&mut active, foreign) else {
        panic!("a foreign frame was taken");
    };
    assert_eq!(
        error.message,
        "frame identity differs from every outstanding buffer"
    );
    assert_eq!(active.as_ref().unwrap().outstanding.len(), 1);
    let FrameProgress::Next(phase) = FramePhase::arrive(&mut active, frame(queued)) else {
        panic!("the frame was refused");
    };
    let FrameProgress::Next(FramePhase::Publishing(published)) =
        phase.proceed(&mut active, FrameReply::Delegated(Ok(id(4))))
    else {
        panic!("the frame is not published");
    };
    assert_eq!(published.acquire_point, Some(77));
    let mut idle = None;
    let FrameProgress::Failed(error) = FramePhase::arrive(&mut idle, frame(queued)) else {
        panic!("a frame without a generation was taken");
    };
    assert_eq!(
        error.to_text(),
        "handle CastKMS capture frame: frame arrived without an active media generation"
    );
}
