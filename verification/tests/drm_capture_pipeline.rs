use pronk::device_session_port::DeviceMediaKind;
use pronk::display_media::{
    create_pipeline, release, CaptureSource, DisplayMediaConfig, PipelinePlan,
};
use pronk::display_state::{RouteTarget, RoutedMode};
use pronk::drm_capture_pipeline::sequence::{
    PipelineAction, PipelinePhase, PipelineProgress, PipelineReply, PipelineStart, PreparedNode,
};
use pronk::drm_capture_pipeline::setup::{
    check_cancellation, create_actor, create_actor_from_buffers, spawn_actor, CaptureOffer, Setup,
    SetupConfig, SetupJob, SetupPhase, SetupProgress, SetupReply,
};
use pronk::drm_capture_pipeline::{
    require_route_layout, CaptureOperation, DrmCapturePipeline, Layout,
};
use pronk::media_session::{MediaRoute, MediaStartRequest};
use pronk::nonzero::{NonZeroU32, NonZeroU64};

fn id(value: u32) -> NonZeroU32 {
    NonZeroU32::new(value).unwrap()
}

fn generation(value: u64) -> NonZeroU64 {
    NonZeroU64::new(value).unwrap()
}

fn config() -> SetupConfig {
    SetupConfig {
        pool_size: NonZeroU32::new(4).unwrap(),
        request_capacity: NonZeroU32::new(3).unwrap(),
        pool_byte_limit: NonZeroU64::new(128 * 1024 * 1024).unwrap(),
        heap_path: "/dev/dma_heap/system".into(),
        poll_interval_ns: 2_000_000,
        shutdown_timeout_ns: 5_000_000_000,
    }
}

fn media_config() -> DisplayMediaConfig {
    DisplayMediaConfig {
        connector_id: id(5),
        output_index: 0,
        session_id: "session-test".into(),
        device_instance: "device-test".into(),
        node_description: "test output".into(),
        video_profile_id: "h264".into(),
        video_bitrate: generation(4_000_000),
        capture_rate_hz: id(30),
    }
}

fn pipeline() -> DrmCapturePipeline {
    let PipelinePlan::FinalImage(config) =
        create_pipeline(CaptureSource::FinalImage, media_config())
    else {
        panic!("final images were not captured");
    };
    DrmCapturePipeline::new(config)
}

fn request(media_generation: u64) -> MediaStartRequest {
    MediaStartRequest {
        media_generation,
        route: MediaRoute {
            route_generation: 1,
            target: RouteTarget::new(id(3)),
            mode: RoutedMode {
                width: 1280,
                height: 720,
                refresh_millihz: 60_000,
                flags: 0,
            },
        },
    }
}

fn layout(width: u32, height: u32) -> Layout {
    Layout {
        width: id(width),
        height: id(height),
    }
}

#[test]
fn shared_setup_policy_rejects_an_oversubscribed_request_queue() {
    let mut config = config();
    config.request_capacity = NonZeroU32::new(5).unwrap();
    assert!(config.validate().is_err());
}

#[test]
fn shared_setup_policy_rejects_zero_timing() {
    let mut config = config();
    config.poll_interval_ns = 0;
    assert!(config.validate().is_err());
}

#[test]
fn the_setup_policy_bounds_the_pool() {
    assert!(config().validate().is_ok());
    let mut small = config();
    small.pool_size = id(1);
    small.request_capacity = id(1);
    assert!(small.validate().is_err());
    let mut large = config();
    large.pool_size = id(1000);
    assert_eq!(
        large.validate().unwrap_err().to_text(),
        "invalid capture pool, queue, or timing configuration"
    );
    let mut hasty = config();
    hasty.shutdown_timeout_ns = 0;
    assert!(hasty.validate().is_err());
}

#[test]
fn the_capture_source_is_never_switched() {
    assert!(matches!(
        create_pipeline(CaptureSource::Renderer, media_config()),
        PipelinePlan::Renderer(config) if config.private_capacity == 3 && config.output_capacity == 4
    ));
    let config = pipeline().config;
    assert_eq!(config.pool_size, id(4));
    assert_eq!(config.request_capacity, id(3));
    assert_eq!(config.pool_byte_limit, generation(128 * 1024 * 1024));
    assert_eq!(config.heap_path, "/dev/dma_heap/system");
    assert!(SetupConfig::from_pipeline(&config).validate().is_ok());
    assert!(release(CaptureSource::FinalImage, Err("unused".into())).is_ok());
    assert!(release(CaptureSource::Renderer, Err("busy".into())).is_err());
}

fn node(media_generation: u64) -> PipelineReply {
    PipelineReply::Prepared(Ok(PreparedNode {
        node_name: "node".into(),
        object_serial: generation(7),
        media_generation: generation(media_generation),
    }))
}

fn next(
    pipeline: &mut DrmCapturePipeline,
    start: PipelineStart,
    reply: PipelineReply,
) -> PipelineStart {
    match pipeline.proceed(start, reply, false) {
        PipelineProgress::Next(next) => next,
        _ => panic!("the start ended early"),
    }
}

fn fails(
    pipeline: &mut DrmCapturePipeline,
    start: PipelineStart,
    reply: PipelineReply,
) -> String {
    match pipeline.proceed(start, reply, false) {
        PipelineProgress::Failed(error) => error.to_text(),
        _ => panic!("the failure was ignored"),
    }
}

/// A start whose video node is still missing.
fn before_the_node(pipeline: &mut DrmCapturePipeline) -> PipelineStart {
    let start = pipeline.start(request(1), false).unwrap();
    assert_eq!(pipeline.action(start), PipelineAction::Open);
    let start = next(pipeline, start, PipelineReply::Done(Ok(())));
    assert_eq!(pipeline.action(start), PipelineAction::Describe);
    let start = next(pipeline, start, PipelineReply::Described(Ok(layout(1280, 720))));
    assert_eq!(
        pipeline.action(start),
        PipelineAction::Allocate {
            layout: layout(1280, 720),
            heap_path: "/dev/dma_heap/system".into(),
            pool_size: id(4),
            pool_byte_limit: generation(128 * 1024 * 1024),
        }
    );
    let start = next(pipeline, start, PipelineReply::Done(Ok(())));
    assert!(matches!(
        pipeline.action(start),
        PipelineAction::StartActor { capacity, .. } if capacity == id(3)
    ));
    let start = next(pipeline, start, PipelineReply::Started(Ok(layout(1280, 720))));
    assert_eq!(pipeline.action(start), PipelineAction::Connect);
    let start = next(pipeline, start, PipelineReply::Done(Ok(())));
    let PipelineAction::Prepare(source) = pipeline.action(start) else {
        panic!("no video node is asked for");
    };
    assert_eq!(source.node_name, "pronk.video.session-test.1");
    assert_eq!(source.refresh_hz, id(30));
    start
}

#[test]
fn a_start_is_refused_without_a_generation_or_beside_another() {
    let mut pipeline = pipeline();
    assert_eq!(
        pipeline.start(request(0), false).unwrap_err().to_text(),
        "media generation must be nonzero"
    );
    assert_eq!(
        pipeline.start(request(1), true).unwrap_err().to_text(),
        "capture start was cancelled"
    );
    let start = before_the_node(&mut pipeline);
    assert_eq!(pipeline.active, None);
    let PipelineProgress::Started(prepared) = pipeline.proceed(start, node(1), false) else {
        panic!("the generation did not start");
    };
    assert_eq!(prepared.media_generation, generation(1));
    assert_eq!(prepared.video_target.kind, DeviceMediaKind::Video);
    assert_eq!(
        prepared.video_target.caps,
        "video/x-raw,format=BGRx,width=1280,height=720,framerate=30/1"
    );
    assert_eq!(
        pipeline.start(request(2), false).unwrap_err().to_text(),
        "a previous capture generation still requires cleanup"
    );
    assert!(pipeline.active(generation(1)).is_ok());
    assert_eq!(
        pipeline.active(generation(2)).unwrap_err().to_text(),
        "capture operation requested generation 2; active generation is 1"
    );
    assert_eq!(
        pipeline.stop_active(generation(2)).unwrap_err().to_text(),
        "capture stop requested generation 2; active generation is 1"
    );
    assert!(pipeline.stop_active(generation(1)).unwrap());
    assert!(!pipeline.stop_active(generation(1)).unwrap());
    assert_eq!(
        pipeline.active(generation(1)).unwrap_err().to_text(),
        "no capture generation is active"
    );
    assert!(!pipeline.shutdown());
    pipeline.active = Some(generation(3));
    assert!(pipeline.shutdown());
    assert_eq!(pipeline.active, None);
}

#[test]
fn a_start_that_is_not_wanted_any_more_is_taken_down() {
    let mut pipeline = pipeline();
    let start = before_the_node(&mut pipeline);
    let PipelineProgress::Next(retiring) = pipeline.proceed(start, node(1), true) else {
        panic!("the cancellation was ignored");
    };
    assert_eq!(retiring.phase, PipelinePhase::Retire { stale: false });
    assert_eq!(pipeline.action(retiring), PipelineAction::Shutdown);
    assert_eq!(
        fails(&mut pipeline, retiring, PipelineReply::Done(Ok(()))),
        "capture start was cancelled"
    );
    assert_eq!(
        fails(
            &mut pipeline,
            retiring,
            PipelineReply::Done(Err("stuck".into()))
        ),
        "cancel capture video: stuck"
    );
    let stale = next(&mut pipeline, start, node(2));
    assert_eq!(
        fails(&mut pipeline, stale, PipelineReply::Done(Ok(()))),
        "PipeWire source returned a stale media generation"
    );
    assert_eq!(
        fails(
            &mut pipeline,
            stale,
            PipelineReply::Done(Err("stuck".into()))
        ),
        "stop stale capture video: stuck"
    );
    assert_eq!(pipeline.active, None);
}

#[test]
fn every_step_of_a_start_can_fail() {
    let mut pipeline = pipeline();
    let mut at = |phase: PipelinePhase, reply: PipelineReply| {
        let start = PipelineStart {
            request: request(1),
            generation: generation(1),
            phase,
        };
        fails(&mut pipeline, start, reply)
    };
    let size = layout(1280, 720);
    let lost = || PipelineReply::Done(Err("lost".into()));
    assert_eq!(at(PipelinePhase::Open, lost()), "open capture session: lost");
    assert_eq!(
        at(
            PipelinePhase::Describe,
            PipelineReply::Described(Err("lost".into()))
        ),
        "describe capture output: lost"
    );
    assert_eq!(
        at(
            PipelinePhase::Describe,
            PipelineReply::Described(Ok(layout(640, 480)))
        ),
        "capture output is 640x480; active route is 1280x720"
    );
    assert_eq!(
        at(PipelinePhase::Allocate { layout: size }, lost()),
        "allocate capture pool: lost"
    );
    assert_eq!(
        at(
            PipelinePhase::StartActor { layout: size },
            PipelineReply::Started(Ok(layout(640, 480)))
        ),
        "capture layout changed while the generation was starting"
    );
    assert_eq!(
        at(
            PipelinePhase::Connect { layout: size },
            PipelineReply::Cancelled
        ),
        "capture start was cancelled"
    );
    assert_eq!(
        at(PipelinePhase::Connect { layout: size }, lost()),
        "connect PipeWire producer: lost"
    );
    assert_eq!(
        at(
            PipelinePhase::Prepare { layout: size },
            PipelineReply::Prepared(Err("lost".into()))
        ),
        "prepare capture video: lost"
    );
}

fn setup_error(progress: SetupProgress) -> String {
    match progress {
        SetupProgress::Failed(error) => error.to_text(),
        _ => panic!("the setup went on"),
    }
}

#[test]
fn a_capture_file_is_opened_for_its_first_capture() {
    let mut setup = Setup::new();
    let config = config();
    let job = SetupJob::Create {
        request: request(1),
        expected: Some(4),
    };
    assert_eq!(
        Setup::on_worker(false),
        SetupProgress::Next(SetupPhase::Lock)
    );
    let offer = CaptureOffer {
        offer: 4,
        layout: layout(1280, 720),
    };
    let mut go = |setup: &mut Setup, phase: SetupPhase, reply: SetupReply| {
        setup.proceed(&config, job, phase, reply, false)
    };
    assert_eq!(
        go(&mut setup, SetupPhase::Lock, SetupReply::Ready),
        SetupProgress::Next(SetupPhase::Worker)
    );
    assert_eq!(
        go(&mut setup, SetupPhase::Worker, SetupReply::Ready),
        SetupProgress::Next(SetupPhase::Describe { open: false })
    );
    let allocate = SetupPhase::Allocate {
        layout: layout(1280, 720),
    };
    assert_eq!(
        go(
            &mut setup,
            SetupPhase::Describe { open: false },
            SetupReply::Described(Ok(offer))
        ),
        SetupProgress::Next(allocate)
    );
    assert_eq!(
        go(&mut setup, allocate, SetupReply::Allocated(Ok(()))),
        SetupProgress::Next(SetupPhase::Open)
    );
    let spawn = SetupPhase::Spawn { expected: Some(4) };
    assert_eq!(
        go(&mut setup, SetupPhase::Open, SetupReply::Opened(Ok(()))),
        SetupProgress::Next(spawn)
    );
    assert!(setup.session);
    assert_eq!(
        go(&mut setup, spawn, SetupReply::Spawned(Ok(layout(1280, 720)))),
        SetupProgress::Spawned(layout(1280, 720))
    );
    assert_eq!(
        go(&mut setup, allocate, SetupReply::Allocated(Ok(()))),
        SetupProgress::Next(spawn)
    );
    assert_eq!(
        setup_error(go(
            &mut setup,
            spawn,
            SetupReply::Lost("panicked".into())
        )),
        "capture setup worker failed: panicked"
    );
    assert!(setup.session);
}

#[test]
fn a_cancelled_setup_leaves_the_capture_file_alone() {
    let mut setup = Setup::new();
    let config = config();
    let job = SetupJob::CreateWithBuffers {
        request: request(1),
        offer: 4,
        buffers: 4,
    };
    assert_eq!(
        setup_error(Setup::on_worker(true)),
        "capture start was cancelled"
    );
    for phase in [SetupPhase::Lock, SetupPhase::Worker] {
        assert_eq!(
            setup_error(setup.proceed(&config, job, phase, SetupReply::Ready, true)),
            "capture start was cancelled"
        );
    }
    assert!(!setup.session);
    assert_eq!(
        setup.proceed(&config, job, SetupPhase::Worker, SetupReply::Ready, false),
        SetupProgress::Next(SetupPhase::Open)
    );
    assert_eq!(
        setup_error(setup.proceed(
            &config,
            job,
            SetupPhase::Open,
            SetupReply::Opened(Err("denied".into())),
            true
        )),
        "open capture session: denied"
    );
    assert!(!setup.session);
    assert_eq!(
        setup_error(setup.proceed(
            &config,
            job,
            SetupPhase::Open,
            SetupReply::Opened(Ok(())),
            true
        )),
        "capture start was cancelled"
    );
    assert!(setup.session);
    let few = SetupJob::CreateWithBuffers {
        request: request(1),
        offer: 4,
        buffers: 3,
    };
    assert_eq!(
        setup_error(setup.proceed(&config, few, SetupPhase::Worker, SetupReply::Ready, false)),
        "capture buffer count does not match pool policy"
    );
    let offer = CaptureOffer {
        offer: 4,
        layout: layout(640, 480),
    };
    assert_eq!(
        setup.proceed(
            &config,
            SetupJob::Describe,
            SetupPhase::Describe { open: true },
            SetupReply::Described(Ok(offer)),
            false
        ),
        SetupProgress::Described(offer)
    );
}

#[test]
fn cancelled_queued_setup_does_not_touch_the_capture_file() {
    let mut setup = Setup::new();
    let config = config();
    let SetupProgress::Next(phase) = Setup::on_worker(false) else {
        panic!("the setup did not begin");
    };
    let SetupProgress::Next(queued) =
        setup.proceed(&config, SetupJob::Describe, phase, SetupReply::Ready, false)
    else {
        panic!("the setup is not queued");
    };
    let ended = setup.proceed(&config, SetupJob::Describe, queued, SetupReply::Ready, true);
    assert!(setup_error(ended).contains("cancelled"));
    assert_eq!(setup, Setup { session: false });
}

#[test]
fn captured_images_have_the_size_of_the_route() {
    assert!(require_route_layout(layout(1280, 720), request(1)).is_ok());
    assert_eq!(
        require_route_layout(layout(1920, 1080), request(1))
            .unwrap_err()
            .to_text(),
        "capture output is 1920x1080; active route is 1280x720"
    );
    let offer = |offer: u64, width: u32| {
        Ok(CaptureOffer {
            offer,
            layout: layout(width, 720),
        })
    };
    assert!(create_actor(offer(4, 1280), Some(4), request(1), false).is_ok());
    assert!(create_actor(offer(4, 1280), None, request(1), false).is_ok());
    assert_eq!(
        create_actor(offer(4, 1280), Some(5), request(1), false)
            .unwrap_err()
            .to_text(),
        "capture offer changed while the generation was starting"
    );
    assert!(create_actor(offer(4, 640), None, request(1), false).is_err());
    assert_eq!(
        create_actor(offer(4, 1280), None, request(1), true)
            .unwrap_err()
            .to_text(),
        "capture start was cancelled"
    );
    assert_eq!(
        create_actor(Err("gone".into()), None, request(1), true)
            .unwrap_err()
            .to_text(),
        "describe capture output: gone"
    );
    assert_eq!(
        spawn_actor(Ok(layout(640, 480)), request(1))
            .unwrap_err()
            .to_text(),
        "capture layout changed while the generation was starting"
    );
    assert!(spawn_actor(Ok(layout(1280, 720)), request(1)).is_ok());
    assert_eq!(
        spawn_actor(Err("full".into()), request(1)).unwrap_err().to_text(),
        "start capture actor: full"
    );
}

#[test]
fn setup_work_reports_its_own_failures() {
    assert!(check_cancellation(false).is_ok());
    assert!(create_actor_from_buffers(4, id(4)).is_ok());
    assert_eq!(
        create_actor_from_buffers(3, id(4)).unwrap_err().to_text(),
        "capture buffer count does not match pool policy"
    );
    assert_eq!(
        CaptureOperation::Activate
            .finished(Err("stuck".into()))
            .unwrap_err()
            .to_text(),
        "activate capture video: stuck"
    );
}
