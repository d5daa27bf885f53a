//! What an attached kernel display tells its owner.

use crate::display_state::{DisplayGrantState, DisplayTopology};
use crate::nonzero::NonZeroU64;
use crate::text::concat;
use vstd::prelude::*;
use vstd::string::*;

verus! {

/// The diagnostic identity of a kernel display session.
#[derive(Debug, Clone, Copy, PartialEq, Eq, Structural)]
pub struct KernelDisplayMetadata {
    pub session_id: NonZeroU64,
}

/// What the kernel shows of a display at one time.
#[derive(Debug, Clone, Copy, PartialEq, Eq, Structural)]
pub struct KernelDisplayObservation {
    pub topology: DisplayTopology,
    pub grant_state: DisplayGrantState,
}

/// What an attached kernel display reports.
///
/// A media failure that names a generation is about that generation only.
#[derive(Debug, PartialEq, Eq)]
pub enum KernelDisplayEvent {
    Changed(KernelDisplayObservation),
    Revoked,
    MediaFailed { media_generation: Option<NonZeroU64>, error: String },
}

/// The contents of a [`KernelDisplayEvent`].
pub enum KernelEventView {
    Changed(KernelDisplayObservation),
    Revoked,
    MediaFailed { media_generation: Option<NonZeroU64>, error: Seq<char> },
}

impl View for KernelDisplayEvent {
    type V = KernelEventView;

    open spec fn view(&self) -> KernelEventView {
        match *self {
            KernelDisplayEvent::Changed(observation) => KernelEventView::Changed(observation),
            KernelDisplayEvent::Revoked => KernelEventView::Revoked,
            KernelDisplayEvent::MediaFailed {
                media_generation,
                error,
            } => KernelEventView::MediaFailed { media_generation, error: error@ },
        }
    }
}

/// A failed kernel-display operation and what was wrong.
#[derive(Debug, PartialEq, Eq)]
pub struct KernelDisplayError {
    pub operation: &'static str,
    pub message: String,
}

/// The contents of a [`KernelDisplayError`].
pub struct KernelErrorView {
    pub operation: Seq<char>,
    pub message: Seq<char>,
}

impl View for KernelDisplayError {
    type V = KernelErrorView;

    open spec fn view(&self) -> KernelErrorView {
        KernelErrorView { operation: self.operation@, message: self.message@ }
    }
}

impl KernelErrorView {
    /// The error as one line.
    pub open spec fn text(self) -> Seq<char> {
        self.operation + ": "@ + self.message
    }
}

/// An error with the given operation and message.
pub open spec fn kernel_error(operation: Seq<char>, message: Seq<char>) -> KernelErrorView {
    KernelErrorView { operation, message }
}

impl KernelDisplayError {
    pub fn new(operation: &'static str, message: &str) -> (error: Self)
        ensures
            error@ == kernel_error(operation@, message@),
    {
        KernelDisplayError { operation, message: message.to_owned() }
    }

    /// The error as one line.
    pub fn to_text(&self) -> (text: String)
        ensures
            text@ == self@.text(),
    {
        let mut text = concat(self.operation, ": ");
        text.append(self.message.as_str());
        text
    }
}

/// The text of an error is its operation, then what was wrong with it.
pub proof fn error_texts_name_operation_and_message(error: KernelDisplayError)
    ensures
        error@.operation == error.operation@,
        error@.message == error.message@,
        error@.operation.is_prefix_of(error@.text()),
        error@.text().len() == error@.operation.len() + 2 + error@.message.len(),
        error@.text().skip(error@.text().len() - error@.message.len()) == error@.message,
        kernel_error(error@.operation, error@.message) == error@,
{
    reveal_strlit(": ");
    let text = error@.text();
    assert(text.skip(text.len() - error@.message.len()) =~= error@.message);
}

/// An event shows what it tells.
pub proof fn events_show_what_they_tell(event: KernelDisplayEvent)
    ensures
        event is Revoked <==> event@ is Revoked,
        event matches KernelDisplayEvent::Changed(
            seen,
        ) ==> event@ == KernelEventView::Changed(seen),
        event matches KernelDisplayEvent::MediaFailed { media_generation, error } ==> event@ == (
        KernelEventView::MediaFailed { media_generation, error: error@ }),
{
}

} // verus!
