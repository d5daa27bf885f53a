//! Policy and order of one capture setup.

use crate::drm_capture_pipeline::{
    fits_route, layout_refusal, require_route_layout, setup_of, CaptureOperation,
    DrmCapturePipelineConfig, Layout,
};
use crate::media_pipeline_port::MediaPipelineError;
use crate::media_session::MediaStartRequest;
use crate::nonzero::{NonZeroU32, NonZeroU64};
use crate::text::concat;
use vstd::prelude::*;

verus! {

/// Fewest and most buffers of a video source.
pub const MIN_VIDEO_BUFFERS: u32 = 2;

pub const MAX_VIDEO_BUFFERS: u32 = 32;

/// Resource policy of a capture setup.
#[derive(Debug, PartialEq, Eq)]
pub struct SetupConfig {
    pub pool_size: NonZeroU32,
    pub request_capacity: NonZeroU32,
    pub pool_byte_limit: NonZeroU64,
    pub heap_path: String,
    pub poll_interval_ns: u64,
    pub shutdown_timeout_ns: u64,
}

impl SetupConfig {
    /// The pool has a size that the source takes, no more requests are out
    /// than there are buffers, and there is time to wait.
    pub open spec fn sound(self) -> bool {
        &&& MIN_VIDEO_BUFFERS <= self.pool_size@ <= MAX_VIDEO_BUFFERS
        &&& self.request_capacity@ <= self.pool_size@
        &&& self.poll_interval_ns > 0
        &&& self.shutdown_timeout_ns > 0
    }

    pub fn from_pipeline(config: &DrmCapturePipelineConfig) -> (setup: Self)
        ensures
            setup == setup_of(*config),
    {
        SetupConfig {
            pool_size: config.pool_size,
            request_capacity: config.request_capacity,
            pool_byte_limit: config.pool_byte_limit,
            heap_path: config.heap_path.clone(),
            poll_interval_ns: config.poll_interval_ns,
            shutdown_timeout_ns: config.shutdown_timeout_ns,
        }
    }

    pub fn validate(&self) -> (result: Result<(), MediaPipelineError>)
        ensures
            result is Ok <==> self.sound(),
            result matches Err(error) ==> error.0@
                == "invalid capture pool, queue, or timing configuration"@,
    {
        let pool_size: u32 = self.pool_size.get();
        if pool_size < MIN_VIDEO_BUFFERS || pool_size > MAX_VIDEO_BUFFERS
            || self.request_capacity.get() > pool_size || self.poll_interval_ns == 0
            || self.shutdown_timeout_ns == 0 {
            return Err(
                MediaPipelineError::new("invalid capture pool, queue, or timing configuration"),
            );
        }
        Ok(())
    }
}

/// What the kernel offers to capture.
#[derive(Debug, Clone, Copy, PartialEq, Eq, Structural)]
pub struct CaptureOffer {
    pub offer: u64,
    pub layout: Layout,
}

/// Fail a setup that was cancelled.
pub fn check_cancellation(cancelled: bool) -> (result: Result<(), MediaPipelineError>)
    ensures
        result is Err <==> cancelled,
        result matches Err(error) ==> error.0@ == "capture start was cancelled"@,
{
    if cancelled {
        Err(MediaPipelineError::new("capture start was cancelled"))
    } else {
        Ok(())
    }
}

/// Why a described output cannot be captured, if so.
pub open spec fn offer_refusal(
    reply: Result<CaptureOffer, String>,
    expected: Option<u64>,
    request: MediaStartRequest,
    cancelled: bool,
) -> Option<Seq<char>> {
    match reply {
        Err(text) => Some(CaptureOperation::Describe.failure(text@)),
        Ok(offer) => if expected is Some && expected->0 != offer.offer {
            Some("capture offer changed while the generation was starting"@)
        } else if !fits_route(offer.layout, request.route.mode) {
            Some(layout_refusal(offer.layout, request.route.mode))
        } else if cancelled {
            Some("capture start was cancelled"@)
        } else {
            None
        },
    }
}

/// Check what the kernel offers before a pool is allocated for it.
pub fn create_actor(
    reply: Result<CaptureOffer, String>,
    expected: Option<u64>,
    request: MediaStartRequest,
    cancelled: bool,
) -> (result: Result<Layout, MediaPipelineError>)
    ensures
        match offer_refusal(reply, expected, request, cancelled) {
            Some(refusal) => result is Err && result->Err_0.0@ == refusal,
            None => result == Ok::<_, MediaPipelineError>(reply->Ok_0.layout),
        },
{
    let offer = match reply {
        Ok(offer) => offer,
        Err(text) => {
            return Err(CaptureOperation::Describe.failed(text.as_str()));
        },
    };
    if let Some(expected) = expected {
        if expected != offer.offer {
            return Err(
                MediaPipelineError::new("capture offer changed while the generation was starting"),
            );
        }
    }
    if let Err(error) = require_route_layout(offer.layout, request) {
        return Err(error);
    }
    match check_cancellation(cancelled) {
        Err(error) => Err(error),
        Ok(()) => Ok(offer.layout),
    }
}

/// Check the number of buffers that a pool was made of.
pub fn create_actor_from_buffers(buffers: usize, pool_size: NonZeroU32) -> (result: Result<
    (),
    MediaPipelineError,
>)
    ensures
        result is Ok <==> buffers == pool_size@,
        result matches Err(error) ==> error.0@
            == "capture buffer count does not match pool policy"@,
{
    if buffers != pool_size.get() as usize {
        Err(MediaPipelineError::new("capture buffer count does not match pool policy"))
    } else {
        Ok(())
    }
}

/// Check the layout that the started capture has: it must still be that of the
/// route.
pub fn spawn_actor(reply: Result<Layout, String>, request: MediaStartRequest) -> (result: Result<
    Layout,
    MediaPipelineError,
>)
    ensures
        match reply {
            Err(text) => result is Err && result->Err_0.0@ == CaptureOperation::StartActor.failure(
                text@,
            ),
            Ok(layout) => if fits_route(layout, request.route.mode) {
                result == Ok::<_, MediaPipelineError>(layout)
            } else {
                result is Err && result->Err_0.0@
                    == "capture layout changed while the generation was starting"@
            },
        },
{
    match reply {
        Err(text) => Err(CaptureOperation::StartActor.failed(text.as_str())),
        Ok(layout) => match require_route_layout(layout, request) {
            Ok(()) => Ok(layout),
            Err(_) => Err(
                MediaPipelineError::new(
                    "capture layout changed while the generation was starting",
                ),
            ),
        },
    }
}

/// The capture file of a display, which stays open from its first capture on.
#[derive(Debug, PartialEq, Eq)]
pub struct Setup {
    pub session: bool,
}

/// What a setup is asked for.
#[derive(Debug, Clone, Copy, PartialEq, Eq, Structural)]
pub enum SetupJob {
    /// Describe the output.
    Describe,
    /// Capture into a pool that is allocated for the output.
    Create { request: MediaStartRequest, expected: Option<u64> },
    /// Capture into buffers that are there.
    CreateWithBuffers { request: MediaStartRequest, offer: u64, buffers: usize },
}

impl SetupJob {
    /// The offer that the capture must be of, if that matters.
    pub open spec fn expects(self) -> Option<u64> {
        match self {
            SetupJob::Describe => None,
            SetupJob::Create { expected, .. } => expected,
            SetupJob::CreateWithBuffers { offer, .. } => Some(offer),
        }
    }

    fn expected(self) -> (offer: Option<u64>)
        ensures
            offer == self.expects(),
    {
        match self {
            SetupJob::Describe => None,
            SetupJob::Create { expected, .. } => expected,
            SetupJob::CreateWithBuffers { offer, .. } => Some(offer),
        }
    }

    /// The route that a capture is for.
    pub open spec fn request(self) -> Option<MediaStartRequest> {
        match self {
            SetupJob::Describe => None,
            SetupJob::Create { request, .. } => Some(request),
            SetupJob::CreateWithBuffers { request, .. } => Some(request),
        }
    }

    fn route(self) -> (request: Option<MediaStartRequest>)
        ensures
            request == self.request(),
    {
        match self {
            SetupJob::Describe => None,
            SetupJob::Create { request, .. } => Some(request),
            SetupJob::CreateWithBuffers { request, .. } => Some(request),
        }
    }
}

/// What a setup waits for.
#[derive(Debug, Clone, Copy, PartialEq, Eq, Structural)]
pub enum SetupPhase {
    /// An earlier setup of the same display.
    Lock,
    /// A worker of its own, which must not be occupied before.
    Worker,
    /// The description of the output, by the open file if there is one.
    Describe { open: bool },
    /// A pool of buffers for the layout.
    Allocate { layout: Layout },
    /// The capture file.
    Open,
    /// The capture itself.
    Spawn { expected: Option<u64> },
}

/// What came of it.
#[derive(Debug, PartialEq, Eq)]
pub enum SetupReply {
    /// It is there.
    Ready,
    Described(Result<CaptureOffer, String>),
    Allocated(Result<(), String>),
    Opened(Result<(), String>),
    Spawned(Result<Layout, String>),
    /// The worker is gone.
    Lost(String),
}

/// How a setup goes on.
#[derive(Debug, PartialEq, Eq)]
pub enum SetupProgress {
    Next(SetupPhase),
    Described(CaptureOffer),
    /// The capture runs, with images of this layout.
    Spawned(Layout),
    Failed(MediaPipelineError),
}

impl SetupPhase {
    /// The phase can be one of the job.
    pub open spec fn belongs_to(self, job: SetupJob) -> bool {
        match self {
            SetupPhase::Lock | SetupPhase::Worker => true,
            SetupPhase::Describe { .. } => !(job is CreateWithBuffers),
            SetupPhase::Allocate { .. } => job is Create,
            SetupPhase::Open | SetupPhase::Spawn { .. } => !(job is Describe),
        }
    }
}

/// The setup fails with the text.
pub open spec fn setup_fails(progress: SetupProgress, text: Seq<char>) -> bool {
    progress matches SetupProgress::Failed(error) && error.0@ == text
}

/// The buffers are there: open the file if it is not, else capture unless the
/// start was cancelled.
pub open spec fn has_buffers(
    session: bool,
    job: SetupJob,
    cancelled: bool,
    progress: SetupProgress,
) -> bool {
    if !session {
        progress == SetupProgress::Next(SetupPhase::Open)
    } else if cancelled {
        setup_fails(progress, "capture start was cancelled"@)
    } else {
        progress == SetupProgress::Next(SetupPhase::Spawn { expected: job.expects() })
    }
}

/// The setup goes on as it is due. It keeps waiting where the reply is not the
/// one that it waits for.
pub open spec fn setup_reacts(
    session: bool,
    pool_size: NonZeroU32,
    job: SetupJob,
    phase: SetupPhase,
    reply: SetupReply,
    cancelled: bool,
    after: bool,
    progress: SetupProgress,
) -> bool {
    match (phase, reply) {
        (SetupPhase::Lock, SetupReply::Ready) => {
            &&& after == session
            &&& if cancelled {
                setup_fails(progress, "capture start was cancelled"@)
            } else {
                progress == SetupProgress::Next(SetupPhase::Worker)
            }
        },
        (_, SetupReply::Lost(text)) => after == session && setup_fails(
            progress,
            "capture setup worker failed: "@ + text@,
        ),
        (SetupPhase::Worker, SetupReply::Ready) => {
            &&& after == session
            &&& if cancelled {
                setup_fails(progress, "capture start was cancelled"@)
            } else {
                match job {
                    SetupJob::CreateWithBuffers { buffers, .. } => if buffers != pool_size@ {
                        setup_fails(progress, "capture buffer count does not match pool policy"@)
                    } else {
                        has_buffers(session, job, cancelled, progress)
                    },
                    _ => progress == SetupProgress::Next(SetupPhase::Describe { open: session }),
                }
            }
        },
        (SetupPhase::Describe { .. }, SetupReply::Described(described)) => {
            &&& after == session
            &&& match job {
                SetupJob::Describe => match described {
                    Ok(offer) => progress == SetupProgress::Described(offer),
                    Err(text) => setup_fails(progress, CaptureOperation::Describe.failure(text@)),
                },
                _ => match offer_refusal(described, job.expects(), job.request()->0, cancelled) {
                    Some(refusal) => setup_fails(progress, refusal),
                    None => progress == SetupProgress::Next(
                        SetupPhase::Allocate { layout: described->Ok_0.layout },
                    ),
                },
            }
        },
        (SetupPhase::Allocate { .. }, SetupReply::Allocated(allocated)) => {
            &&& after == session
            &&& match allocated {
                Err(text) => setup_fails(progress, CaptureOperation::Allocate.failure(text@)),
                Ok(_) => has_buffers(session, job, cancelled, progress),
            }
        },
        (SetupPhase::Open, SetupReply::Opened(opened)) => match opened {
            Err(text) => after == session && setup_fails(
                progress,
                CaptureOperation::Open.failure(text@),
            ),
            Ok(_) => after && has_buffers(true, job, cancelled, progress),
        },
        (SetupPhase::Spawn { .. }, SetupReply::Spawned(spawned)) => {
            &&& after == session
            &&& match spawned {
                Err(text) => setup_fails(progress, CaptureOperation::StartActor.failure(text@)),
                Ok(layout) => if fits_route(layout, job.request()->0.route.mode) {
                    progress == SetupProgress::Spawned(layout)
                } else {
                    setup_fails(
                        progress,
                        "capture layout changed while the generation was starting"@,
                    )
                },
            }
        },
        _ => after == session && progress == SetupProgress::Next(phase),
    }
}

impl Setup {
    pub fn new() -> (setup: Self)
        ensures
            !setup.session,
    {
        Setup { session: false }
    }

    /// Begin work that runs aside: one that is cancelled does not even wait.
    pub fn on_worker(cancelled: bool) -> (progress: SetupProgress)
        ensures
            if cancelled {
                setup_fails(progress, "capture start was cancelled"@)
            } else {
                progress == SetupProgress::Next(SetupPhase::Lock)
            },
    {
        match check_cancellation(cancelled) {
            Err(error) => SetupProgress::Failed(error),
            Ok(()) => SetupProgress::Next(SetupPhase::Lock),
        }
    }

    fn with_buffers(&self, job: SetupJob, cancelled: bool) -> (progress: SetupProgress)
        ensures
            has_buffers(self.session, job, cancelled, progress),
    {
        if !self.session {
            return SetupProgress::Next(SetupPhase::Open);
        }
        match check_cancellation(cancelled) {
            Err(error) => SetupProgress::Failed(error),
            Ok(()) => SetupProgress::Next(SetupPhase::Spawn { expected: job.expected() }),
        }
    }

    /// Go on with what came of a phase.
    pub fn proceed(
        &mut self,
        config: &SetupConfig,
        job: SetupJob,
        phase: SetupPhase,
        reply: SetupReply,
        cancelled: bool,
    ) -> (progress: SetupProgress)
        requires
            phase.belongs_to(job),
        ensures
            setup_reacts(
                old(self).session,
                config.pool_size,
                job,
                phase,
                reply,
                cancelled,
                final(self).session,
                progress,
            ),
    {
        match (phase, reply) {
            (SetupPhase::Lock, SetupReply::Ready) => match check_cancellation(cancelled) {
                Err(error) => SetupProgress::Failed(error),
                Ok(()) => SetupProgress::Next(SetupPhase::Worker),
            },
            (_, SetupReply::Lost(text)) => SetupProgress::Failed(
                MediaPipelineError(concat("capture setup worker failed: ", text.as_str())),
            ),
            (SetupPhase::Worker, SetupReply::Ready) => self.running(config, job, cancelled),
            (SetupPhase::Describe { .. }, SetupReply::Described(described)) => match job {
                SetupJob::Create { request, expected } => match create_actor(
                    described,
                    expected,
                    request,
                    cancelled,
                ) {
                    Err(error) => SetupProgress::Failed(error),
                    Ok(layout) => SetupProgress::Next(SetupPhase::Allocate { layout }),
                },
                _ => match described {
                    Ok(offer) => SetupProgress::Described(offer),
                    Err(text) => SetupProgress::Failed(
                        CaptureOperation::Describe.failed(text.as_str()),
                    ),
                },
            },
            (SetupPhase::Allocate { .. }, SetupReply::Allocated(allocated)) => match allocated {
                Err(text) => SetupProgress::Failed(
                    CaptureOperation::Allocate.failed(text.as_str()),
                ),
                Ok(()) => self.with_buffers(job, cancelled),
            },
            (SetupPhase::Open, SetupReply::Opened(opened)) => match opened {
                Err(text) => SetupProgress::Failed(CaptureOperation::Open.failed(text.as_str())),
                Ok(()) => {
                    self.session = true;
                    self.with_buffers(job, cancelled)
                },
            },
            (SetupPhase::Spawn { .. }, SetupReply::Spawned(spawned)) => match job.route() {
                None => SetupProgress::Next(phase),
                Some(request) => match spawn_actor(spawned, request) {
                    Err(error) => SetupProgress::Failed(error),
                    Ok(layout) => SetupProgress::Spawned(layout),
                },
            },
            _ => SetupProgress::Next(phase),
        }
    }

    fn running(&self, config: &SetupConfig, job: SetupJob, cancelled: bool) -> (progress:
        SetupProgress)
        ensures
            setup_reacts(
                self.session,
                config.pool_size,
                job,
                SetupPhase::Worker,
                SetupReply::Ready,
                cancelled,
                self.session,
                progress,
            ),
    {
        if let Err(error) = check_cancellation(cancelled) {
            return SetupProgress::Failed(error);
        }
        match job {
            SetupJob::CreateWithBuffers { buffers, .. } => match create_actor_from_buffers(
                buffers,
                config.pool_size,
            ) {
                Err(error) => SetupProgress::Failed(error),
                Ok(()) => self.with_buffers(job, cancelled),
            },
            _ => SetupProgress::Next(SetupPhase::Describe { open: self.session }),
        }
    }
}

/// A setup that is cancelled while it waits does not touch the capture file,
/// nor does one whose worker has not begun.
pub proof fn cancelled_setups_touch_nothing(
    session: bool,
    pool_size: NonZeroU32,
    job: SetupJob,
    phase: SetupPhase,
    reply: SetupReply,
    after: bool,
    progress: SetupProgress,
)
    requires
        phase is Lock || phase is Worker,
        reply is Ready,
        setup_reacts(session, pool_size, job, phase, reply, true, after, progress),
    ensures
        after == session,
        progress is Failed,
{
}

/// The capture file of a display is opened once, and stays open whatever
/// becomes of a setup.
pub proof fn capture_files_are_opened_once(
    session: bool,
    pool_size: NonZeroU32,
    job: SetupJob,
    phase: SetupPhase,
    reply: SetupReply,
    cancelled: bool,
    after: bool,
    progress: SetupProgress,
)
    requires
        setup_reacts(session, pool_size, job, phase, reply, cancelled, after, progress),
    ensures
        session ==> after,
        progress == SetupProgress::Next(SetupPhase::Open) && !(phase is Open) ==> !session,
        after && !session ==> phase is Open,
{
}

/// An offer is taken only as long as it is the one that was expected, has the size of
/// the route, and nobody gave the start up.
pub proof fn offers_are_taken_while_they_hold(
    reply: Result<CaptureOffer, String>,
    expected: Option<u64>,
    request: MediaStartRequest,
    cancelled: bool,
)
    ensures
        offer_refusal(reply, expected, request, cancelled) is None <==> {
            &&& reply is Ok
            &&& expected is None || expected->0 == reply->Ok_0.offer
            &&& reply->Ok_0.layout.width@ == request.route.mode.width
            &&& reply->Ok_0.layout.height@ == request.route.mode.height
            &&& !cancelled
        },
{
}

/// The settings of a setup are those of its pipeline.
pub proof fn setups_have_the_settings_of_their_pipeline(config: DrmCapturePipelineConfig)
    ensures
        setup_of(config).pool_size == config.pool_size,
        setup_of(config).request_capacity == config.request_capacity,
        setup_of(config).pool_byte_limit == config.pool_byte_limit,
        setup_of(config).heap_path == config.heap_path,
        setup_of(config).poll_interval_ns == config.poll_interval_ns,
        setup_of(config).shutdown_timeout_ns == config.shutdown_timeout_ns,
        setup_of(config).sound() <==> 2 <= config.pool_size@ <= 32 && config.request_capacity@
            <= config.pool_size@ && config.poll_interval_ns > 0 && config.shutdown_timeout_ns > 0,
{
}

/// A capture is spawned only with an open file and with buffers, as many as the pool
/// has, for the offer that was expected; what it captures has the size of the route.
pub proof fn captures_are_spawned_with_file_and_buffers(
    session: bool,
    pool_size: NonZeroU32,
    job: SetupJob,
    phase: SetupPhase,
    reply: SetupReply,
    cancelled: bool,
    after: bool,
    progress: SetupProgress,
)
    requires
        setup_reacts(session, pool_size, job, phase, reply, cancelled, after, progress),
        phase.belongs_to(job),
    ensures
        progress is Next && progress->Next_0 is Spawn && !(phase is Spawn) ==> after && !cancelled
            && (phase is Worker || phase is Allocate || phase is Open),
        progress is Next && progress->Next_0 is Spawn && !(phase is Spawn) ==> match job {
            SetupJob::Describe => true,
            SetupJob::Create { expected, .. } => progress->Next_0->expected == expected,
            SetupJob::CreateWithBuffers { offer, .. } => progress->Next_0->expected == Some(offer),
        },
        phase is Worker && (progress is Next && (progress->Next_0 is Spawn || progress->Next_0
            is Open)) ==> (job matches SetupJob::CreateWithBuffers { buffers, .. } && buffers
            == pool_size@),
        phase is Worker && reply is Ready && !cancelled && !(job is CreateWithBuffers)
            ==> progress is Next && progress->Next_0 == (SetupPhase::Describe { open: session }),
        progress is Spawned ==> phase is Spawn && reply is Spawned && reply->Spawned_0 is Ok
            && progress->Spawned_0 == reply->Spawned_0->Ok_0,
        progress is Spawned && job is Create ==> progress->Spawned_0.width@
            == job->Create_request.route.mode.width && progress->Spawned_0.height@
            == job->Create_request.route.mode.height,
        phase is Spawn && reply is Spawned && reply->Spawned_0 is Ok && job is Create
            && reply->Spawned_0->Ok_0.width@ == job->Create_request.route.mode.width
            && reply->Spawned_0->Ok_0.height@ == job->Create_request.route.mode.height ==> progress
            is Spawned,
        phase is Open && reply is Opened && reply->Opened_0 is Ok ==> after,
        reply is Lost ==> progress is Failed,
        progress is Described ==> job is Describe && reply is Described && reply->Described_0 is Ok
            && progress->Described_0 == reply->Described_0->Ok_0,
        job is Describe && phase is Describe && reply is Described && reply->Described_0 is Ok
            ==> progress is Described,
        job is Create && phase is Describe && progress is Next && reply is Described
            ==> progress->Next_0 == (SetupPhase::Allocate {
            layout: reply->Described_0->Ok_0.layout,
        }),
{
}

/// A refused offer says the first thing that is wrong: it could not be described, it is another
/// one, it has another size, or nobody wants it any more.
pub proof fn refused_offers_say_what_is_wrong(
    reply: Result<CaptureOffer, String>,
    expected: Option<u64>,
    request: MediaStartRequest,
    cancelled: bool,
)
    ensures
        reply matches Err(text) ==> offer_refusal(reply, expected, request, cancelled) == Some(
            CaptureOperation::Describe.failure(text@),
        ),
        reply matches Ok(offer) ==> {
            let refusal = offer_refusal(reply, expected, request, cancelled);
            let other = expected is Some && expected->0 != offer.offer;
            let fits = offer.layout.width@ == request.route.mode.width && offer.layout.height@
                == request.route.mode.height;
            &&& other ==> refusal == Some(
                "capture offer changed while the generation was starting"@,
            )
            &&& !other && !fits ==> refusal == Some(
                layout_refusal(offer.layout, request.route.mode),
            )
            &&& !other && fits && cancelled ==> refusal == Some("capture start was cancelled"@)
        },
{
}

} // verus!
