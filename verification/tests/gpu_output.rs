use pronk::castkms_actor::frames::{VideoDamage, VideoFrame, VideoSourceActorEvent};
use pronk::castkms_actor::{PipeWireBufferTransport, VideoNodeIdentity};
use pronk::gpu_output::{
    retire, AccessReady, GpuOutput, OutputEvent, OutputReady, SlotState,
};
use pronk::nonzero::{NonZeroU32, NonZeroU64};

fn identity() -> VideoNodeIdentity {
    VideoNodeIdentity {
        node_name: "gpu-output-test".into(),
        object_id: NonZeroU32::new(1).unwrap(),
        object_serial: NonZeroU64::new(2).unwrap(),
        media_generation: NonZeroU64::new(3).unwrap(),
    }
}

fn pool() -> Vec<SlotState> {
    vec![SlotState::Unprepared]
}

fn available(id: NonZeroU32) -> VideoSourceActorEvent {
    VideoSourceActorEvent::BufferAvailable {
        media_generation: identity().media_generation,
        buffer_id: id,
        transport: PipeWireBufferTransport::ReadyBeforePublish,
    }
}

fn released(id: NonZeroU32, sequence: u64) -> VideoSourceActorEvent {
    VideoSourceActorEvent::BufferReleased {
        media_generation: identity().media_generation,
        buffer_id: id,
        sequence,
    }
}

fn frame(id: NonZeroU32, sequence: u64) -> VideoFrame {
    VideoFrame {
        buffer_id: id,
        sequence,
        pts_ns: 0,
        damage: VideoDamage {
            x: 0,
            y: 0,
            width: id,
            height: id,
        },
        discontinuity: false,
        acquire_point: None,
    }
}

#[test]
fn registration_must_describe_the_exact_unused_pool() {
    let id = NonZeroU32::new(1).unwrap();
    assert!(GpuOutput::new(identity(), &pool(), vec![]).is_err());
    assert!(GpuOutput::new(identity(), &pool(), vec![id, id]).is_err());
    let used = vec![SlotState::Used];
    assert!(GpuOutput::new(identity(), &used, vec![id]).is_err());
    assert!(GpuOutput::new(identity(), &pool(), vec![id]).is_ok());
}

#[test]
fn foreign_events_do_not_initialize_storage() {
    let id = NonZeroU32::new(1).unwrap();
    let mut owner = GpuOutput::new(identity(), &pool(), vec![id]).unwrap();
    let stale = VideoSourceActorEvent::BufferAvailable {
        media_generation: NonZeroU64::new(2).unwrap(),
        buffer_id: id,
        transport: PipeWireBufferTransport::ReadyBeforePublish,
    };
    assert!(matches!(
        owner.handle_event(&stale).unwrap(),
        OutputEvent::Ignored
    ));
    assert!(!owner.slots[0].initialized);
    assert!(owner.claim(id).is_err());
}

#[test]
fn timeline_transport_is_not_accepted_as_ready_before_publish_transport() {
    let id = NonZeroU32::new(1).unwrap();
    let mut owner = GpuOutput::new(identity(), &pool(), vec![id]).unwrap();
    let event = VideoSourceActorEvent::BufferAvailable {
        media_generation: identity().media_generation,
        buffer_id: id,
        transport: PipeWireBufferTransport::SyncTimeline,
    };
    assert!(owner.handle_event(&event).is_err());
    assert!(!owner.slots[0].initialized);
}

#[test]
fn generation_failure_stops_new_claims() {
    let id = NonZeroU32::new(1).unwrap();
    let mut owner = GpuOutput::new(identity(), &pool(), vec![id]).unwrap();
    let event = VideoSourceActorEvent::GenerationFailed {
        identity: identity(),
        error: "source event stream closed".into(),
    };
    let OutputEvent::Stopped(waits) = owner.handle_event(&event).unwrap() else {
        panic!("stop")
    };
    let retirement = retire(&waits.into_iter().map(|slot| (slot, Ok(()))).collect());
    assert!(retirement.waits.is_empty());
    assert!(retirement.errors.is_empty());
    assert!(owner.claim(id).is_err());
    assert!(matches!(
        owner.handle_event(&event).unwrap(),
        OutputEvent::Ignored
    ));
}

#[test]
fn a_buffer_is_published_once_per_use() {
    let id = NonZeroU32::new(8).unwrap();
    let mut owner = GpuOutput::new(identity(), &pool(), vec![id]).unwrap();
    assert_eq!(
        owner.handle_event(&available(id)).unwrap(),
        OutputEvent::Prepare { slot: 0 }
    );
    assert!(owner.handle_event(&available(id)).is_err());
    assert_eq!(
        owner.complete(AccessReady::Writable { slot: 0 }),
        OutputReady::Writable(id)
    );
    assert_eq!(owner.claim(id).unwrap(), 0);
    let slot = owner.begin_publish(0, frame(id, 5)).unwrap();
    owner.published(slot, 5);
    assert_eq!(
        owner.begin_publish(0, frame(id, 6)).unwrap_err().0,
        "invalid GPU output publication"
    );
    assert_eq!(
        owner.handle_event(&released(id, 4)).unwrap_err().0,
        "release does not match the active GPU publication"
    );
    assert_eq!(
        owner.handle_event(&released(id, 5)).unwrap(),
        OutputEvent::Return { slot: 0, sequence: 5 }
    );
    assert!(owner.handle_event(&released(id, 5)).is_err());
    assert!(owner.begin_publish(0, frame(id, 5)).is_err());
    assert!(owner.begin_publish(1, frame(id, 6)).is_err());
    assert!(owner.begin_publish(0, frame(id, 6)).is_ok());
    assert_eq!(
        owner.claim(NonZeroU32::new(9).unwrap()).unwrap_err().0,
        "unknown GPU output buffer"
    );
}

#[test]
fn the_end_of_the_source_returns_every_publication() {
    let first = NonZeroU32::new(8).unwrap();
    let second = NonZeroU32::new(9).unwrap();
    let states = vec![SlotState::Unprepared; 2];
    let mut owner = GpuOutput::new(identity(), &states, vec![first, second]).unwrap();
    owner.handle_event(&available(first)).unwrap();
    owner.handle_event(&available(second)).unwrap();
    owner.published(0, 1);
    owner.published(1, 2);
    let mut other = identity();
    other.node_name = "another".into();
    assert_eq!(
        owner.quiesced(&other).unwrap_err().0,
        "shutdown report does not match the active GPU source"
    );
    let waits = owner.quiesced(&identity()).unwrap();
    assert_eq!(waits, vec![0, 1]);
    let retirement = retire(&vec![(0, Ok(())), (1, Err("snapshot failed".into()))]);
    assert_eq!(retirement.waits, vec![0]);
    assert_eq!(retirement.errors, vec!["snapshot failed"]);
    assert!(owner.quiesced(&identity()).is_err());
}
