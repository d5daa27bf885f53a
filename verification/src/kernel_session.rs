//! One authorized display lifetime.

use crate::nonzero::NonZeroU64;
use crate::text::concat;
use vstd::prelude::*;
use vstd::string::*;

verus! {

/// Why a kernel display session could not be had, or not be released.
#[derive(Debug, PartialEq, Eq)]
pub enum KernelSessionError {
    Cancelled,
    Timeout,
    Unavailable,
    InvalidOutput(&'static str),
    UnsupportedAudio,
    Failed { operation: &'static str, message: String },
}

impl KernelSessionError {
    /// The error as one line.
    pub open spec fn text(self) -> Seq<char> {
        match self {
            KernelSessionError::Cancelled => "kernel display authorization was cancelled"@,
            KernelSessionError::Timeout => "kernel display operation timed out"@,
            KernelSessionError::Unavailable => "kernel display issuer is unavailable"@,
            KernelSessionError::InvalidOutput(field) => "CastKMS output has an invalid zero "@
                + field@,
            KernelSessionError::UnsupportedAudio =>
                "the selected kernel display issuer does not provide audio"@,
            KernelSessionError::Failed { operation, message } => operation@ + ": "@ + message@,
        }
    }

    pub fn failed(operation: &'static str, error: &str) -> (failure: Self)
        ensures
            failure matches KernelSessionError::Failed { operation: name, message } && name@
                == operation@ && message@ == error@,
    {
        KernelSessionError::Failed { operation, message: error.to_owned() }
    }

    /// The error as one line.
    pub fn to_text(&self) -> (text: String)
        ensures
            text@ == self.text(),
    {
        match self {
            KernelSessionError::Cancelled => {
                "kernel display authorization was cancelled".to_owned()
            },
            KernelSessionError::Timeout => "kernel display operation timed out".to_owned(),
            KernelSessionError::Unavailable => "kernel display issuer is unavailable".to_owned(),
            KernelSessionError::InvalidOutput(field) => concat(
                "CastKMS output has an invalid zero ",
                field,
            ),
            KernelSessionError::UnsupportedAudio => {
                "the selected kernel display issuer does not provide audio".to_owned()
            },
            KernelSessionError::Failed { operation, message } => {
                let mut text = concat(operation, ": ");
                text.append(message.as_str());
                text
            },
        }
    }
}

/// What a monitor of a display session can take.
#[derive(Debug, Clone, Copy, PartialEq, Eq, Structural)]
pub struct MonitorCapabilities {
    pub max_edid_size: usize,
}

/// The result of a release: an unused renderer goes first, and its failure
/// does not keep the session from being released.
pub fn released(
    renderer: Result<(), String>,
    session: Result<(), KernelSessionError>,
) -> (result: Result<(), KernelSessionError>)
    ensures
        tells_release(result, renderer, session),
{
    match (renderer, session) {
        (Ok(()), result) => result,
        (Err(text), Ok(())) => Err(
            KernelSessionError::Failed { operation: "release unused renderer", message: text },
        ),
        (Err(text), Err(error)) => {
            let mut message = concat("renderer: ", text.as_str());
            message.append("; session: ");
            let session = error.to_text();
            message.append(session.as_str());
            Err(KernelSessionError::Failed { operation: "release display capabilities", message })
        },
    }
}

/// One authorized display lifetime. Its identity tells it apart at its provider
/// only, and is no authority.
#[derive(Debug, PartialEq, Eq)]
pub struct KernelSession {
    pub id: NonZeroU64,
    /// The renderer capability is still here.
    pub renderer: bool,
}

/// What a release waits for.
#[derive(Debug, PartialEq, Eq)]
pub enum ReleasePhase {
    /// The renderer that nobody has taken.
    Renderer,
    /// The session itself, with what came of the renderer.
    Session { renderer: Result<(), String> },
}

/// What came of it.
#[derive(Debug, PartialEq, Eq)]
pub enum ReleaseReply {
    Renderer(Result<(), String>),
    Session(Result<(), KernelSessionError>),
}

/// How a release goes on.
#[derive(Debug, PartialEq, Eq)]
pub enum ReleaseProgress {
    Next(ReleasePhase),
    Released(Result<(), KernelSessionError>),
}

/// What is told of a release.
pub open spec fn tells_release(
    result: Result<(), KernelSessionError>,
    renderer: Result<(), String>,
    session: Result<(), KernelSessionError>,
) -> bool {
    match (renderer, session) {
        (Ok(_), Ok(_)) => result is Ok,
        (Ok(_), Err(error)) => result == Err::<(), _>(error),
        (Err(text), Ok(_)) => result matches Err(
            KernelSessionError::Failed { operation, message },
        ) && operation@ == "release unused renderer"@ && message@ == text@,
        (Err(text), Err(error)) => result matches Err(
            KernelSessionError::Failed { operation, message },
        ) && operation@ == "release display capabilities"@ && message@ == "renderer: "@ + text@
            + "; session: "@ + error.text(),
    }
}

/// The release goes on as it is due. It keeps waiting where the reply is not
/// the one that it waits for.
pub open spec fn release_proceeds(
    phase: ReleasePhase,
    reply: ReleaseReply,
    progress: ReleaseProgress,
) -> bool {
    match (phase, reply) {
        (ReleasePhase::Renderer, ReleaseReply::Renderer(renderer)) => progress
            == ReleaseProgress::Next(ReleasePhase::Session { renderer }),
        (ReleasePhase::Session { renderer }, ReleaseReply::Session(session)) => {
            progress matches ReleaseProgress::Released(result) && tells_release(
                result,
                renderer,
                session,
            )
        },
        _ => progress == ReleaseProgress::Next(phase),
    }
}

impl KernelSession {
    pub fn new(id: NonZeroU64, renderer: bool) -> (session: Self)
        ensures
            session == (KernelSession { id, renderer }),
    {
        KernelSession { id, renderer }
    }

    pub fn id(&self) -> (id: NonZeroU64)
        ensures
            id == self.id,
    {
        self.id
    }

    /// Take the renderer capability, which is here once at most.
    pub fn take_renderer_access(&mut self) -> (result: Result<(), &'static str>)
        ensures
            result is Ok <==> old(self).renderer,
            result matches Err(text) ==> text@
                == "the display session has no renderer capability"@,
            *final(self) == (KernelSession { renderer: false, ..*old(self) }),
    {
        if self.renderer {
            self.renderer = false;
            Ok(())
        } else {
            Err("the display session has no renderer capability")
        }
    }

    /// Begin to release the session: a renderer that nobody has taken goes
    /// first.
    pub fn release(self) -> (phase: ReleasePhase)
        ensures
            phase == (if self.renderer {
                ReleasePhase::Renderer
            } else {
                ReleasePhase::Session { renderer: Ok(()) }
            }),
    {
        if self.renderer {
            ReleasePhase::Renderer
        } else {
            ReleasePhase::Session { renderer: Ok(()) }
        }
    }
}

impl ReleasePhase {
    /// Go on with what came of a phase.
    pub fn proceed(self, reply: ReleaseReply) -> (progress: ReleaseProgress)
        ensures
            release_proceeds(self, reply, progress),
    {
        match (self, reply) {
            (ReleasePhase::Renderer, ReleaseReply::Renderer(renderer)) => ReleaseProgress::Next(
                ReleasePhase::Session { renderer },
            ),
            (ReleasePhase::Session { renderer }, ReleaseReply::Session(session)) => {
                ReleaseProgress::Released(released(renderer, session))
            },
            (phase, _) => ReleaseProgress::Next(phase),
        }
    }
}

/// Whatever becomes of the renderer, the session is released after it, and a
/// failure of either is told.
pub proof fn renderers_do_not_keep_sessions(
    renderer: Result<(), String>,
    session: Result<(), KernelSessionError>,
    between: ReleaseProgress,
    after: ReleaseProgress,
)
    requires
        release_proceeds(ReleasePhase::Renderer, ReleaseReply::Renderer(renderer), between),
        between matches ReleaseProgress::Next(phase) && release_proceeds(
            phase,
            ReleaseReply::Session(session),
            after,
        ),
    ensures
        after matches ReleaseProgress::Released(result) && (result is Ok <==> renderer is Ok
            && session is Ok),
{
}

/// A failed release tells every failure: that of the session as it is, that of the
/// renderer by its text, and both by both texts.
pub proof fn failed_releases_tell_every_failure(
    result: Result<(), KernelSessionError>,
    renderer: Result<(), String>,
    session: Result<(), KernelSessionError>,
)
    requires
        tells_release(result, renderer, session),
    ensures
        renderer is Ok && session is Ok <==> result is Ok,
        renderer is Ok && session is Err ==> result == session,
        renderer is Err && session is Ok ==> result->Err_0 is Failed
            && result->Err_0->message@ == renderer->Err_0@,
        renderer is Err && session is Err ==> {
            let text = result->Err_0->message@;
            let first = renderer->Err_0@;
            let second = session->Err_0.text();
            &&& result->Err_0 is Failed
            &&& text.len() == first.len() + second.len() + 21
            &&& text.subrange(10, 10 + first.len() as int) == first
            &&& text.skip(text.len() - second.len()) == second
        },
        result is Err && result->Err_0 is Failed ==> {
            let whole = result->Err_0.text();
            let text = result->Err_0->message@;
            whole.skip(whole.len() - text.len()) == text
        },
{
    reveal_strlit("renderer: ");
    reveal_strlit("; session: ");
    if renderer is Err && session is Err {
        let text = result->Err_0->message@;
        let first = renderer->Err_0@;
        let second = session->Err_0.text();
        assert(text.subrange(10, 10 + first.len() as int) =~= first);
        assert(text.skip(text.len() - second.len()) =~= second);
    }
    if result is Err && result->Err_0 is Failed {
        let whole = result->Err_0.text();
        let text = result->Err_0->message@;
        assert(whole.skip(whole.len() - text.len()) =~= text);
    }
}

/// A reply that does not answer the phase changes nothing; the session is released
/// after its renderer.
pub proof fn releases_wait_for_their_reply(
    phase: ReleasePhase,
    reply: ReleaseReply,
    progress: ReleaseProgress,
)
    requires
        release_proceeds(phase, reply, progress),
    ensures
        progress is Released <==> phase is Session && reply is Session,
        phase is Renderer && reply is Renderer ==> progress->Next_0 is Session
            && progress->Next_0->renderer == reply->Renderer_0,
        phase is Renderer && reply is Session ==> progress->Next_0 == phase,
        phase is Session && reply is Renderer ==> progress->Next_0 == phase,
{
}

/// The text of a failed session begins with the words of its kind.
pub proof fn session_failures_say_their_kind(value: KernelSessionError)
    ensures
        value is Cancelled ==> "kernel display authorization was cancelled"@.is_prefix_of(
            value.text(),
        ),
        value is Timeout ==> "kernel display operation timed out"@.is_prefix_of(value.text()),
        value is Unavailable ==> "kernel display issuer is unavailable"@.is_prefix_of(value.text()),
        value is InvalidOutput ==> "CastKMS output has an invalid zero "@.is_prefix_of(
            value.text(),
        ),
        value is UnsupportedAudio ==> "the selected kernel display issuer does not provide audio"@.is_prefix_of(value.text()),
{
    let text = value.text();
    if value is Cancelled {
        assert("kernel display authorization was cancelled"@ =~= text.subrange(
            0,
            "kernel display authorization was cancelled"@.len() as int,
        ));
    }
    if value is Timeout {
        assert("kernel display operation timed out"@ =~= text.subrange(
            0,
            "kernel display operation timed out"@.len() as int,
        ));
    }
    if value is Unavailable {
        assert("kernel display issuer is unavailable"@ =~= text.subrange(
            0,
            "kernel display issuer is unavailable"@.len() as int,
        ));
    }
    if value is InvalidOutput {
        assert("CastKMS output has an invalid zero "@ =~= text.subrange(
            0,
            "CastKMS output has an invalid zero "@.len() as int,
        ));
    }
    if value is UnsupportedAudio {
        assert("the selected kernel display issuer does not provide audio"@ =~= text.subrange(
            0,
            "the selected kernel display issuer does not provide audio"@.len() as int,
        ));
    }
}

} // verus!
