//! The methods of the manager's object.

use crate::dbus::public_state::{info_of, public_displays, CastDisplayInfo};
use crate::dbus::{method_sender, operation_path, OPERATION_PATH_PREFIX};
use crate::display::{parsed_id, segment_text, AddedCastDisplaySnapshot, CastDisplayId};
use crate::manager::ManagerRequestError;
use vstd::prelude::*;
use vstd::string::*;

verus! {

/// What a method is answered if it fails.
#[derive(Debug, PartialEq, Eq)]
pub enum MethodError {
    InvalidArgs(String),
    AccessDenied(String),
    Failed(String),
}

/// The displays are listed as they are.
pub open spec fn lists(
    asked: Result<Vec<AddedCastDisplaySnapshot>, ManagerRequestError>,
    result: Result<Vec<CastDisplayInfo>, MethodError>,
) -> bool {
    match asked {
        Ok(displays) => {
            &&& result is Ok
            &&& result->Ok_0@.len() == displays@.len()
            &&& forall|i: int|
                0 <= i < displays@.len() ==> (#[trigger] result->Ok_0@[i])@ == info_of(
                    displays@[i]@,
                )
        },
        Err(_) => result is Err && (result->Err_0 matches MethodError::Failed(text) && text@
            == "Pronk manager has stopped"@),
    }
}

/// List the displays: what is public of each, unless the manager is gone.
pub fn list_displays(asked: Result<Vec<AddedCastDisplaySnapshot>, ManagerRequestError>) -> (result:
    Result<Vec<CastDisplayInfo>, MethodError>)
    ensures
        lists(asked, result),
{
    match asked {
        Ok(displays) => Ok(public_displays(&displays)),
        Err(error) => Err(MethodError::Failed(error.to_text())),
    }
}

/// Answer with the list, if it is a valid one.
pub fn displays_validated(displays: Vec<CastDisplayInfo>, validity: Result<(), String>) -> (result:
    Result<Vec<CastDisplayInfo>, MethodError>)
    ensures
        result == match validity {
            Ok(_) => Ok::<_, MethodError>(displays),
            Err(text) => Err(MethodError::Failed(text)),
        },
{
    match validity {
        Ok(()) => Ok(displays),
        Err(text) => Err(MethodError::Failed(text)),
    }
}

/// Where the call that adds a display stands.
#[derive(Debug, PartialEq, Eq)]
pub enum AddDisplay {
    /// Pin the process that called, by its name on the bus.
    PinCaller { sender: String },
    /// Have the manager start the setup.
    StartSetup,
    /// Put the setup's operation on the bus.
    Publish { path: String },
}

/// What is done about an operation that the manager has started.
#[derive(Debug, PartialEq, Eq)]
pub enum AddDisplayEnd {
    /// Answer with the operation, and tell of its changes if it is new on the
    /// bus.
    Answer { path: String, notify: bool },
    /// Cancel the setup, have it retired, and answer with the error.
    Retire(MethodError),
}

/// How the addition of a display begins.
pub open spec fn add_begins(
    defect: Option<String>,
    sender: Option<String>,
    result: Result<AddDisplay, MethodError>,
) -> bool {
    match (defect, sender) {
        (Some(text), _) => result == Err::<AddDisplay, _>(MethodError::InvalidArgs(text)),
        (None, Some(name)) => result == Ok::<_, MethodError>(
            AddDisplay::PinCaller { sender: name },
        ),
        (None, None) => result is Err && (result->Err_0 matches MethodError::AccessDenied(text)
            && text@ == "D-Bus caller has no sender"@),
    }
}

/// Begin to add a display. `defect` is what is wrong with the selection.
pub fn add_display(defect: Option<String>, sender: Option<String>) -> (result: Result<
    AddDisplay,
    MethodError,
>)
    ensures
        add_begins(defect, sender, result),
{
    if let Some(text) = defect {
        return Err(MethodError::InvalidArgs(text));
    }
    match method_sender(sender) {
        Ok(sender) => Ok(AddDisplay::PinCaller { sender }),
        Err(text) => Err(MethodError::AccessDenied(text.to_owned())),
    }
}

/// What follows the pinning of the caller.
pub open spec fn caller_pinned(
    pinned: Result<(), String>,
    result: Result<AddDisplay, MethodError>,
) -> bool {
    match pinned {
        Ok(_) => result == Ok::<_, MethodError>(AddDisplay::StartSetup),
        Err(text) => result == Err::<AddDisplay, _>(MethodError::AccessDenied(text)),
    }
}

/// Go on once the caller is pinned.
pub fn pin_caller(pinned: Result<(), String>) -> (result: Result<AddDisplay, MethodError>)
    ensures
        caller_pinned(pinned, result),
{
    match pinned {
        Ok(()) => Ok(AddDisplay::StartSetup),
        Err(text) => Err(MethodError::AccessDenied(text)),
    }
}

/// What follows the start of the setup.
pub open spec fn setup_answered(
    started: Result<CastDisplayId, String>,
    result: Result<AddDisplay, MethodError>,
) -> bool {
    match started {
        Ok(display_id) => result is Ok && (result->Ok_0 matches AddDisplay::Publish { path }
            && path@ == OPERATION_PATH_PREFIX@ + "/"@ + segment_text(display_id@)),
        Err(text) => result == Err::<AddDisplay, _>(MethodError::Failed(text)),
    }
}

/// Go on once the manager has answered: the operation gets a path of its own.
pub fn setup_started(started: Result<CastDisplayId, String>) -> (result: Result<
    AddDisplay,
    MethodError,
>)
    ensures
        setup_answered(started, result),
{
    match started {
        Ok(display_id) => match operation_path(display_id) {
            Ok(path) => Ok(AddDisplay::Publish { path }),
            Err(text) => Err(MethodError::Failed(text)),
        },
        Err(text) => Err(MethodError::Failed(text)),
    }
}

/// How the addition of a display ends.
pub open spec fn add_ends(path: String, published: Result<bool, String>) -> AddDisplayEnd {
    match published {
        Ok(was_added) => AddDisplayEnd::Answer { path, notify: was_added },
        Err(text) => AddDisplayEnd::Retire(MethodError::Failed(text)),
    }
}

/// End once the bus has answered: whether the operation is new there. One that
/// nobody can see is not carried on.
pub fn operation_published(path: String, published: Result<bool, String>) -> (end: AddDisplayEnd)
    ensures
        end == add_ends(path, published),
{
    match published {
        Ok(was_added) => AddDisplayEnd::Answer { path, notify: was_added },
        Err(text) => AddDisplayEnd::Retire(MethodError::Failed(text)),
    }
}

/// What is done about an operation that is not on the bus.
#[derive(Debug, Clone, Copy, PartialEq, Eq, Structural)]
pub enum RetireStep {
    /// Wait for its state to change.
    Wait,
    /// Have the manager forget it.
    Forget,
    /// Nobody will change its state any more.
    GiveUp,
}

/// What is left to do about an operation that nobody can see.
pub open spec fn retire_step(terminal: bool, open: bool) -> RetireStep {
    if terminal {
        RetireStep::Forget
    } else if open {
        RetireStep::Wait
    } else {
        RetireStep::GiveUp
    }
}

/// Retire an operation that is not on the bus: it is forgotten once it has
/// ended. `open` tells whether its state can still change.
pub fn retire_unpublished_operation(terminal: bool, open: bool) -> (step: RetireStep)
    ensures
        step == retire_step(terminal, open),
{
    if terminal {
        RetireStep::Forget
    } else if open {
        RetireStep::Wait
    } else {
        RetireStep::GiveUp
    }
}

/// Which display is to be removed.
pub open spec fn removal_begins(
    display_id: Seq<u8>,
    result: Result<CastDisplayId, MethodError>,
) -> bool {
    match parsed_id(display_id) {
        Some(bytes) => result is Ok && result->Ok_0@ == bytes,
        None => result is Err && (result->Err_0 matches MethodError::InvalidArgs(text) && text@
            == "cast-display ID is not a canonical random UUID"@),
    }
}

/// The display that a caller wants to remove.
pub fn remove_display(display_id: &str) -> (result: Result<CastDisplayId, MethodError>)
    ensures
        removal_begins(display_id.spec_bytes(), result),
{
    match CastDisplayId::parse(display_id) {
        Ok(id) => Ok(id),
        Err(_) => Err(
            MethodError::InvalidArgs("cast-display ID is not a canonical random UUID".to_owned()),
        ),
    }
}

/// Every display is listed, in order, as it describes itself; without a manager there is
/// no list.
pub proof fn every_display_is_listed(
    asked: Result<Vec<AddedCastDisplaySnapshot>, ManagerRequestError>,
    result: Result<Vec<CastDisplayInfo>, MethodError>,
    i: int,
)
    requires
        lists(asked, result),
    ensures
        result is Ok <==> asked is Ok,
        result is Ok ==> result->Ok_0@.len() == asked->Ok_0@.len(),
        result is Ok && 0 <= i < result->Ok_0@.len() ==> result->Ok_0@[i]@ == info_of(
            asked->Ok_0@[i]@,
        ),
        result is Err ==> result->Err_0 is Failed,
{
}

/// A display is added for a caller that is known: a selection with a defect is refused
/// before anything else, then a call without a sender, then a caller that cannot be pinned.
pub proof fn displays_are_added_for_known_callers(
    defect: Option<String>,
    sender: Option<String>,
    first: Result<AddDisplay, MethodError>,
    pinned: Result<(), String>,
    second: Result<AddDisplay, MethodError>,
)
    requires
        add_begins(defect, sender, first),
        caller_pinned(pinned, second),
    ensures
        first is Ok <==> defect is None && sender is Some,
        first is Ok ==> first->Ok_0 == (AddDisplay::PinCaller { sender: sender->0 }),
        defect is Some ==> first->Err_0 == MethodError::InvalidArgs(defect->0),
        defect is None && sender is None ==> first->Err_0 is AccessDenied,
        second is Ok <==> pinned is Ok,
        second is Ok ==> second->Ok_0 is StartSetup,
        pinned is Err ==> second->Err_0 == MethodError::AccessDenied(pinned->Err_0),
{
}

/// The caller is answered with the operation of its own display, which is watched if it is
/// new; an operation that cannot be published is retired.
pub proof fn callers_get_their_own_operation(
    started: Result<CastDisplayId, String>,
    result: Result<AddDisplay, MethodError>,
    path: String,
    published: Result<bool, String>,
)
    requires
        setup_answered(started, result),
    ensures
        result is Ok <==> started is Ok,
        result is Ok ==> result->Ok_0 is Publish && result->Ok_0->path@
            == crate::dbus::operation_path_text(started->Ok_0@),
        started is Err ==> result->Err_0 == MethodError::Failed(started->Err_0),
        published is Ok <==> add_ends(path, published) is Answer,
        published is Ok ==> add_ends(path, published) == (AddDisplayEnd::Answer {
            path,
            notify: published->Ok_0,
        }),
        published is Err ==> add_ends(path, published) == AddDisplayEnd::Retire(
            MethodError::Failed(published->Err_0),
        ),
{
}

/// An operation that nobody can see is forgotten once it has ended, and given up if its
/// end will never be told.
pub proof fn unseen_operations_are_forgotten(terminal: bool, open: bool)
    ensures
        retire_step(terminal, open) is Forget <==> terminal,
        retire_step(terminal, open) is Wait <==> !terminal && open,
        retire_step(terminal, open) is GiveUp <==> !terminal && !open,
{
}

/// A display is removed by its identity, in either way of writing it; any other text is
/// refused.
pub proof fn displays_are_removed_by_identity(
    display_id: Seq<u8>,
    result: Result<CastDisplayId, MethodError>,
)
    requires
        removal_begins(display_id, result),
    ensures
        result is Ok <==> parsed_id(display_id) is Some,
        result is Ok ==> Some(result->Ok_0@) == parsed_id(display_id),
        result is Err ==> result->Err_0 is InvalidArgs && result->Err_0->InvalidArgs_0@
            == "cast-display ID is not a canonical random UUID"@,
{
}

} // verus!
