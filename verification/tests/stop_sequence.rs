use std::collections::{HashMap, VecDeque};

use pronk::castkms_actor::frames::TimedOutcome;
use pronk::castkms_actor::stop::{CaptureBufferInfo, CaptureBufferState, SourceStop};
use pronk::castkms_actor::stop_sequence::{
    CaptureStop, CaptureStopAction, CaptureStopReply, DrainPhase, DrainReply, StreamBuffer,
};
use pronk::castkms_actor::{
    ActiveGeneration, CaptureQueue, CaptureStreamInfo, CursorCaptureMode, OutstandingCapture,
    PipeWireBufferTransport, VideoNodeIdentity,
};
use pronk::nonzero::{NonZeroU32, NonZeroU64};

fn id(value: u32) -> NonZeroU32 {
    NonZeroU32::new(value).unwrap()
}

fn number(value: u64) -> NonZeroU64 {
    NonZeroU64::new(value).unwrap()
}

fn stream() -> CaptureStreamInfo {
    CaptureStreamInfo {
        stream_id: id(2),
        crtc_id: id(7),
        mode_generation: number(11),
        width: id(1920),
        height: id(1080),
        refresh_hz: id(60),
        cursor_mode: CursorCaptureMode::IncludeInFrame,
    }
}

fn identity() -> VideoNodeIdentity {
    VideoNodeIdentity {
        node_name: "pronk.video.session.9".into(),
        object_id: id(1),
        object_serial: number(2),
        media_generation: number(9),
    }
}

fn generation(outstanding: &[u32]) -> ActiveGeneration {
    ActiveGeneration {
        media_generation: number(9),
        stream: stream(),
        identity: identity(),
        transports: HashMap::new(),
        available: VecDeque::new(),
        outstanding: outstanding
            .iter()
            .map(|buffer_id| OutstandingCapture {
                queue: CaptureQueue {
                    stream_id: id(2),
                    buffer_id: id(*buffer_id),
                    user_data: number(1),
                    ready_point: None,
                },
                transport: PipeWireBufferTransport::SyncTimeline,
            })
            .collect(),
        next_user_data: 2,
        source_active: true,
        suspended: false,
    }
}

fn buffers(states: &[(u32, CaptureBufferState)]) -> Vec<CaptureBufferInfo> {
    states
        .iter()
        .map(|(buffer_id, state)| CaptureBufferInfo {
            buffer_id: id(*buffer_id),
            state: *state,
        })
        .collect()
}

fn buffer(buffer_id: u32) -> StreamBuffer {
    StreamBuffer {
        stream_id: id(2),
        buffer_id: id(buffer_id),
    }
}

#[test]
fn a_stop_goes_through_its_parts() {
    let mut stop = CaptureStop::begin(generation(&[5]));
    assert_eq!(
        stop.action(),
        CaptureStopAction::StopSource {
            media_generation: number(9)
        }
    );
    stop.proceed(CaptureStopReply::Source(SourceStop::Stopped(identity())));
    assert_eq!(
        stop.action(),
        CaptureStopAction::ListBuffers { stream_id: id(2) }
    );
    stop.proceed(CaptureStopReply::Buffers(buffers(&[
        (4, CaptureBufferState::ConsumerOwned),
        (5, CaptureBufferState::Queued),
    ])));
    assert_eq!(stop.action(), CaptureStopAction::ReleaseBuffer(buffer(4)));
    stop.proceed(CaptureStopReply::Done(Ok(())));
    assert_eq!(stop.action(), CaptureStopAction::FindActiveStream);
    stop.proceed(CaptureStopReply::ActiveStream(Some(stream())));
    assert_eq!(stop.action(), CaptureStopAction::StopCapture);
    stop.proceed(CaptureStopReply::Done(Ok(())));
    assert_eq!(
        stop.action(),
        CaptureStopAction::ListBuffers { stream_id: id(2) }
    );
    stop.proceed(CaptureStopReply::Drain(DrainReply::Buffers {
        buffers: buffers(&[(5, CaptureBufferState::Queued)]),
        expired: false,
    }));
    assert_eq!(stop.action(), CaptureStopAction::ReadEvents);
    stop.proceed(CaptureStopReply::Drain(DrainReply::Waited(
        TimedOutcome::Done,
    )));
    stop.proceed(CaptureStopReply::Drain(DrainReply::Buffers {
        buffers: buffers(&[(5, CaptureBufferState::Completed)]),
        expired: false,
    }));
    assert_eq!(stop.action(), CaptureStopAction::WaitReadiness(buffer(5)));
    stop.proceed(CaptureStopReply::Drain(DrainReply::Waited(
        TimedOutcome::Done,
    )));
    assert_eq!(stop.action(), CaptureStopAction::TakeCompletion(buffer(5)));
    stop.proceed(CaptureStopReply::Drain(DrainReply::Taken(Ok(buffer(5)))));
    assert_eq!(stop.action(), CaptureStopAction::ReleaseBuffer(buffer(5)));
    stop.proceed(CaptureStopReply::Drain(DrainReply::Released(Ok(()))));
    assert_eq!(
        stop.action(),
        CaptureStopAction::ListBuffers { stream_id: id(2) }
    );
    stop.proceed(CaptureStopReply::Buffers(Vec::new()));
    assert_eq!(
        stop.action(),
        CaptureStopAction::DestroyPool { stream_id: id(2) }
    );
    stop.proceed(CaptureStopReply::Done(Ok(())));
    assert_eq!(stop.action(), CaptureStopAction::Nothing);
    assert!(stop.finish().is_ok());
}

#[test]
fn a_failed_part_keeps_no_other_from_being_tried() {
    let mut stop = CaptureStop::begin(generation(&[5]));
    stop.proceed(CaptureStopReply::Source(SourceStop::Failed("gone".into())));
    stop.proceed(CaptureStopReply::Buffers(Vec::new()));
    stop.proceed(CaptureStopReply::ActiveStream(None));
    stop.proceed(CaptureStopReply::Drain(DrainReply::Buffers {
        buffers: Vec::new(),
        expired: false,
    }));
    stop.proceed(CaptureStopReply::Buffers(buffers(&[(
        6,
        CaptureBufferState::ConsumerOwned,
    )])));
    stop.proceed(CaptureStopReply::Done(Err("busy".into())));
    stop.proceed(CaptureStopReply::Done(Err("held".into())));
    assert_eq!(stop.action(), CaptureStopAction::Nothing);
    assert_eq!(
        stop.finish().unwrap_err().to_text(),
        "stop capture generation: stop PipeWire generation: gone; \
         drain CastKMS capture: queued buffer disappeared during teardown; \
         release consumer-owned CastKMS buffer 6: busy; \
         destroy retired CastKMS capture pool: held"
    );
}

#[test]
fn a_request_is_drained_in_its_time() {
    let looked = DrainPhase::Looking.proceed(
        id(5),
        DrainReply::Buffers {
            buffers: buffers(&[(5, CaptureBufferState::Completed)]),
            expired: true,
        },
    );
    assert!(matches!(
        looked,
        DrainPhase::Ended(Err(error))
            if error.message == "timed out waiting for canceled capture completion"
    ));
    let waited = DrainPhase::AwaitingEvents
        .proceed(id(5), DrainReply::Waited(TimedOutcome::Failed("closed".into())));
    assert!(matches!(
        waited,
        DrainPhase::Ended(Err(error))
            if error.operation == "drain CastKMS event stream" && error.message == "closed"
    ));
    let ready = DrainPhase::AwaitingReadiness.proceed(id(5), DrainReply::Waited(TimedOutcome::TimedOut));
    assert!(matches!(
        ready,
        DrainPhase::Ended(Err(error))
            if error.message == "timed out waiting for capture-buffer readiness"
    ));
    let taken = DrainPhase::Taking.proceed(id(5), DrainReply::Taken(Err("revoked".into())));
    assert!(matches!(
        taken,
        DrainPhase::Ended(Err(error)) if error.operation == "take drained CastKMS completion"
    ));
    assert_eq!(
        DrainPhase::Taking.proceed(id(5), DrainReply::Released(Ok(()))),
        DrainPhase::Taking
    );
}
