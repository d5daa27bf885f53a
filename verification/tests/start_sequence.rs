use pronk::castkms_actor::start::{admit_start, AudioSink, CastKmsActorConfig, StartFailure, Undo};
use pronk::castkms_actor::start_sequence::{
    AllocatedBuffer, CaptureStart, StartAction, StartProgress, StartReply,
};
use pronk::castkms_actor::{CaptureStreamInfo, CursorCaptureMode, VideoNodeIdentity};
use pronk::display_state::{RouteTarget, RoutedMode};
use pronk::media_driver::PortOutcome;
use pronk::media_session::{MediaRoute, MediaStartRequest};
use pronk::nonzero::{NonZeroU32, NonZeroU64};

fn id(value: u32) -> NonZeroU32 {
    NonZeroU32::new(value).unwrap()
}

fn generation(value: u64) -> NonZeroU64 {
    NonZeroU64::new(value).unwrap()
}

fn request() -> MediaStartRequest {
    MediaStartRequest {
        media_generation: 9,
        route: MediaRoute {
            route_generation: 3,
            target: RouteTarget::new(id(7)),
            mode: RoutedMode {
                width: 1920,
                height: 1080,
                refresh_millihz: 60_000,
                flags: 0,
            },
        },
    }
}

fn stream() -> CaptureStreamInfo {
    CaptureStreamInfo {
        stream_id: id(2),
        crtc_id: id(7),
        mode_generation: generation(11),
        width: id(1920),
        height: id(1080),
        refresh_hz: id(60),
        cursor_mode: CursorCaptureMode::IncludeInFrame,
    }
}

fn identity(media_generation: u64) -> VideoNodeIdentity {
    VideoNodeIdentity {
        node_name: "pronk.video.session.9".into(),
        object_id: id(1),
        object_serial: generation(2),
        media_generation: generation(media_generation),
    }
}

fn config(audio: bool) -> CastKmsActorConfig {
    CastKmsActorConfig {
        session_id: "session".into(),
        device_instance: "device".into(),
        node_description: "display".into(),
        device_path: "/sys/devices/castkms".into(),
        output_index: 4,
        video_profile_id: "h264-high".into(),
        audio_profile_id: if audio { Some("opus".into()) } else { None },
        video_bitrate: generation(4_000_000),
        device_control: false,
    }
}

fn sink() -> AudioSink {
    AudioSink {
        node_name: "castkms.audio".into(),
        object_serial: generation(5),
    }
}

fn buffer(buffer_id: u32) -> StartReply {
    StartReply::Buffer(Ok(AllocatedBuffer {
        stream_id: id(2),
        buffer_id: id(buffer_id),
    }))
}

/// The answers up to the source that is started.
fn answers() -> Vec<StartReply> {
    let mut replies = vec![
        StartReply::Resolver(PortOutcome::Done(())),
        StartReply::Sink(PortOutcome::Done(sink())),
        StartReply::Capabilities(Ok(4)),
        StartReply::Stream(Ok(stream())),
    ];
    replies.extend((10..14).map(buffer));
    replies.push(StartReply::Producer(PortOutcome::Done(())));
    replies.extend((0..4).map(|_| StartReply::Exported(Ok(true))));
    replies
}

fn next(progress: StartProgress) -> (CaptureStart, StartAction) {
    match progress {
        StartProgress::Next { start, action } => (start, action),
        other => panic!("the start does not go on: {other:?}"),
    }
}

fn failure(progress: StartProgress) -> StartFailure {
    match progress {
        StartProgress::Failed(failure) => failure,
        other => panic!("the start does not fail: {other:?}"),
    }
}

fn start_after(count: usize) -> CaptureStart {
    let admitted = admit_start(false, request(), 5, 6, false).unwrap();
    let (mut start, _) = CaptureStart::begin(&config(true), admitted);
    for reply in answers().into_iter().take(count) {
        start = next(start.proceed(&config(true), reply, false)).0;
    }
    start
}

#[test]
fn a_start_goes_through_the_kernel_and_the_source() {
    let admitted = admit_start(false, request(), 5, 6, false).unwrap();
    let (mut start, first) = CaptureStart::begin(&config(true), admitted);
    assert_eq!(first, StartAction::ConnectResolver);
    let mut actions = Vec::new();
    for reply in answers() {
        assert!(start.takes(&reply));
        let stream = StartReply::Stream(Err(String::new()));
        assert_eq!(start.takes(&stream), matches!(reply, StartReply::Stream(_)));
        let (following, action) = next(start.proceed(&config(true), reply, false));
        start = following;
        actions.push(action);
    }
    assert_eq!(
        actions[0],
        StartAction::ResolveSink {
            device_path: "/sys/devices/castkms".into(),
            output_index: 4,
        }
    );
    assert_eq!(
        actions[1],
        StartAction::QueryCapabilities {
            target: RouteTarget::new(id(7)),
        }
    );
    assert_eq!(
        actions[2],
        StartAction::StartStream {
            cursor_mode: CursorCaptureMode::IncludeInFrame,
        }
    );
    for action in &actions[3..7] {
        assert_eq!(*action, StartAction::AllocateBuffer);
    }
    assert_eq!(actions[7], StartAction::ConnectProducer);
    for (index, action) in actions[8..12].iter().enumerate() {
        assert_eq!(
            *action,
            StartAction::ExportBuffer {
                stream_id: id(2),
                buffer_id: id(10 + index as u32),
            }
        );
    }
    assert!(matches!(
        &actions[12],
        StartAction::StartSource { config }
            if config.node_name == "pronk.video.session.9"
                && config.connector_id == id(5)
                && config.grant_id == id(6)
                && config.output_index == 4
    ));
    match start.proceed(&config(true), StartReply::Source(Ok(identity(9))), false) {
        StartProgress::Started { generation, media } => {
            assert!(generation.suspended);
            assert!(generation.source_active);
            assert_eq!(generation.stream, stream());
            assert_eq!(media.video_target.node_name, "pronk.video.session.9");
            assert_eq!(media.audio_target.unwrap().node_name, "castkms.audio");
        }
        other => panic!("nothing was started: {other:?}"),
    }
}

#[test]
fn a_silent_start_asks_for_no_audio() {
    let admitted = admit_start(false, request(), 5, 6, false).unwrap();
    let (_, first) = CaptureStart::begin(&config(false), admitted);
    assert!(matches!(first, StartAction::QueryCapabilities { .. }));
}

#[test]
fn a_failed_start_is_undone() {
    let silent = failure(start_after(2).proceed(
        &config(true),
        StartReply::Capabilities(Ok(3)),
        false,
    ));
    assert_eq!(
        silent.error.message,
        "CastKMS supports 3 buffers; 4 are required"
    );
    assert_eq!(silent.undo, Undo::Nothing);
    let foreign = failure(start_after(5).proceed(
        &config(true),
        StartReply::Buffer(Ok(AllocatedBuffer {
            stream_id: id(3),
            buffer_id: id(9),
        })),
        false,
    ));
    assert_eq!(foreign.error.message, "buffer belongs to another stream");
    assert_eq!(foreign.undo, Undo::Stream(stream()));
    let short = failure(start_after(5).proceed(
        &config(true),
        StartReply::Buffer(Err("no memory".into())),
        false,
    ));
    assert_eq!(short.error.message, "buffer 1: no memory");
    let stale = failure(start_after(13).proceed(
        &config(true),
        StartReply::Source(Ok(identity(8))),
        false,
    ));
    assert_eq!(
        stale.error.message,
        "source returned a stale media generation"
    );
    assert_eq!(
        stale.undo,
        Undo::SourceAndStream {
            media_generation: generation(9),
            stream: stream(),
        }
    );
}

#[test]
fn a_start_heeds_its_cancellation() {
    let filled = failure(start_after(7).proceed(&config(true), buffer(13), true));
    assert_eq!(filled.error.message, "operation was cancelled");
    assert_eq!(filled.undo, Undo::Stream(stream()));
    assert!(matches!(
        start_after(6).proceed(&config(true), buffer(12), true),
        StartProgress::Next { .. }
    ));
    let producer = failure(start_after(8).proceed(
        &config(true),
        StartReply::Producer(PortOutcome::Cancelled),
        true,
    ));
    assert_eq!(producer.undo, Undo::Stream(stream()));
    let source = failure(start_after(13).proceed(
        &config(true),
        StartReply::Source(Ok(identity(9))),
        true,
    ));
    assert_eq!(
        source.undo,
        Undo::SourceAndStream {
            media_generation: generation(9),
            stream: stream(),
        }
    );
}
