//! Which process is responsible for a call on the bus.

use crate::text::concat;
use vstd::prelude::*;
use vstd::string::*;

verus! {

/// The process and the user that the bus vouches for.
#[derive(Debug, Clone, Copy, PartialEq, Eq, Structural)]
pub struct BusCallerCredentials {
    pub pid: u32,
    pub uid: u32,
}

#[derive(Debug, Clone, Copy, PartialEq, Eq, Structural)]
pub enum PublicBus {
    Session,
    System,
}

/// Why a caller is not known.
#[derive(Debug, PartialEq, Eq)]
pub enum BusCallerError {
    CreateBusProxy(String),
    QueryCredentials(String),
    MissingProcessId,
    InvalidProcessId,
    MissingUserId,
    PinSession(String),
}

impl BusCallerError {
    /// What went wrong, in words.
    pub open spec fn text(self) -> Seq<char> {
        match self {
            BusCallerError::CreateBusProxy(error) => "create bus-broker proxy: "@ + error@,
            BusCallerError::QueryCredentials(error) => "query D-Bus caller credentials: "@ + error@,
            BusCallerError::MissingProcessId => "bus broker omitted the caller process ID"@,
            BusCallerError::InvalidProcessId => "bus broker returned process ID zero"@,
            BusCallerError::MissingUserId => "bus broker omitted the caller Unix user ID"@,
            BusCallerError::PinSession(error) => "pin caller process identity: "@ + error@,
        }
    }

    pub fn to_text(&self) -> (text: String)
        ensures
            text@ == self.text(),
    {
        match self {
            BusCallerError::CreateBusProxy(error) => concat(
                "create bus-broker proxy: ",
                error.as_str(),
            ),
            BusCallerError::QueryCredentials(error) => concat(
                "query D-Bus caller credentials: ",
                error.as_str(),
            ),
            BusCallerError::MissingProcessId =>
                "bus broker omitted the caller process ID".to_owned(),
            BusCallerError::InvalidProcessId => "bus broker returned process ID zero".to_owned(),
            BusCallerError::MissingUserId =>
                "bus broker omitted the caller Unix user ID".to_owned(),
            BusCallerError::PinSession(error) => concat(
                "pin caller process identity: ",
                error.as_str(),
            ),
        }
    }
}

/// Who the caller is, if the bus broker told its process and its user.
pub open spec fn caller_credentials(process_id: Option<u32>, unix_user_id: Option<u32>) -> Result<
    BusCallerCredentials,
    BusCallerError,
> {
    match (process_id, unix_user_id) {
        (None, _) => Err(BusCallerError::MissingProcessId),
        (Some(_), None) => Err(BusCallerError::MissingUserId),
        (Some(pid), Some(uid)) => if pid == 0 {
            Err(BusCallerError::InvalidProcessId)
        } else {
            Ok(BusCallerCredentials { pid, uid })
        },
    }
}

/// Take the credentials of a caller out of one reply of the bus.
///
/// A caller never supplies them itself.
pub fn query_bus_caller_credentials(
    process_id: Option<u32>,
    unix_user_id: Option<u32>,
) -> (result: Result<BusCallerCredentials, BusCallerError>)
    ensures
        result == caller_credentials(process_id, unix_user_id),
{
    let pid: u32 = match process_id {
        Some(pid) => pid,
        None => {
            return Err(BusCallerError::MissingProcessId);
        },
    };
    let uid: u32 = match unix_user_id {
        Some(uid) => uid,
        None => {
            return Err(BusCallerError::MissingUserId);
        },
    };
    if pid == 0 {
        return Err(BusCallerError::InvalidProcessId);
    }
    Ok(BusCallerCredentials { pid, uid })
}

/// How a caller is held to its identity.
#[derive(Debug, Clone, Copy, PartialEq, Eq, Structural)]
pub enum PinRequest {
    /// Pin the process and the login session it belongs to.
    LoginSession { pid: u32, uid: u32, expected_uid: u32 },
    /// Pin the process alone.
    Process { pid: u32, uid: u32, expected_uid: u32 },
}

/// How a caller is pinned: on the session bus with its login session.
pub open spec fn pinned_caller(
    credentials: BusCallerCredentials,
    bus: PublicBus,
    effective_uid: u32,
) -> PinRequest {
    match bus {
        PublicBus::Session => PinRequest::LoginSession {
            pid: credentials.pid,
            uid: credentials.uid,
            expected_uid: effective_uid,
        },
        PublicBus::System => PinRequest::Process {
            pid: credentials.pid,
            uid: credentials.uid,
            expected_uid: effective_uid,
        },
    }
}

/// What to pin for a caller on one of the public buses: on the session bus it
/// must belong to a login session, and everywhere to the service's own user.
pub fn pin_bus_caller_for(
    credentials: BusCallerCredentials,
    bus: PublicBus,
    effective_uid: u32,
) -> (request: PinRequest)
    ensures
        request == pinned_caller(credentials, bus, effective_uid),
{
    match bus {
        PublicBus::Session => pin_bus_caller(credentials, effective_uid),
        PublicBus::System => PinRequest::Process {
            pid: credentials.pid,
            uid: credentials.uid,
            expected_uid: effective_uid,
        },
    }
}

/// What to pin for a caller on the session bus.
pub fn pin_bus_caller(credentials: BusCallerCredentials, effective_uid: u32) -> (request:
    PinRequest)
    ensures
        request == pinned_caller(credentials, PublicBus::Session, effective_uid),
{
    PinRequest::LoginSession {
        pid: credentials.pid,
        uid: credentials.uid,
        expected_uid: effective_uid,
    }
}

/// What to pin for a caller on the system bus that was authorized as an
/// ordinary user: the process must still be that user's.
pub fn pin_authorized_system_bus_caller(credentials: BusCallerCredentials) -> (request: PinRequest)
    ensures
        request == pinned_caller(credentials, PublicBus::System, credentials.uid),
{
    PinRequest::Process {
        pid: credentials.pid,
        uid: credentials.uid,
        expected_uid: credentials.uid,
    }
}

/// A caller is known by its process and its user, both as the broker told them; one
/// of the two missing, or a process without a number, is refused.
pub proof fn callers_are_known_by_process_and_user(
    process_id: Option<u32>,
    unix_user_id: Option<u32>,
)
    ensures
        caller_credentials(process_id, unix_user_id) is Ok <==> process_id is Some
            && unix_user_id is Some && process_id->0 > 0,
        caller_credentials(process_id, unix_user_id) is Ok ==> {
            let caller = caller_credentials(process_id, unix_user_id)->Ok_0;
            caller.pid == process_id->0 && caller.uid == unix_user_id->0
        },
        process_id is None <==> (caller_credentials(process_id, unix_user_id) matches Err(error)
            && error is MissingProcessId),
        process_id is Some && unix_user_id is None <==> (caller_credentials(
            process_id,
            unix_user_id,
        ) matches Err(error) && error is MissingUserId),
{
}

/// A caller is pinned as itself, and held to the expected user; on the session bus
/// its login session is pinned with it.
pub proof fn callers_are_pinned_as_themselves(
    credentials: BusCallerCredentials,
    bus: PublicBus,
    effective_uid: u32,
)
    ensures
        bus is Session <==> pinned_caller(credentials, bus, effective_uid) is LoginSession,
        pinned_caller(credentials, bus, effective_uid) matches PinRequest::LoginSession {
            pid,
            uid,
            expected_uid,
        } ==> pid == credentials.pid && uid == credentials.uid && expected_uid == effective_uid,
        pinned_caller(credentials, bus, effective_uid) matches PinRequest::Process {
            pid,
            uid,
            expected_uid,
        } ==> pid == credentials.pid && uid == credentials.uid && expected_uid == effective_uid,
{
}

/// The text of an error ends in its cause, where it has one.
pub proof fn caller_texts_end_in_the_cause(error: BusCallerError)
    ensures
        error matches BusCallerError::CreateBusProxy(cause) ==> error.text().skip(
            error.text().len() - cause@.len(),
        ) == cause@,
        error matches BusCallerError::QueryCredentials(cause) ==> error.text().skip(
            error.text().len() - cause@.len(),
        ) == cause@,
        error matches BusCallerError::PinSession(cause) ==> error.text().skip(
            error.text().len() - cause@.len(),
        ) == cause@,
{
    let text = error.text();
    match error {
        BusCallerError::CreateBusProxy(cause) => {
            assert(text.skip(text.len() - cause@.len()) =~= cause@);
        },
        BusCallerError::QueryCredentials(cause) => {
            assert(text.skip(text.len() - cause@.len()) =~= cause@);
        },
        BusCallerError::PinSession(cause) => {
            assert(text.skip(text.len() - cause@.len()) =~= cause@);
        },
        _ => {},
    }
}

/// The text of a refused caller begins with the words of its kind.
pub proof fn caller_refusals_say_their_kind(value: BusCallerError)
    ensures
        value is CreateBusProxy ==> "create bus-broker proxy: "@.is_prefix_of(value.text()),
        value is QueryCredentials ==> "query D-Bus caller credentials: "@.is_prefix_of(
            value.text(),
        ),
        value is MissingProcessId ==> "bus broker omitted the caller process ID"@.is_prefix_of(
            value.text(),
        ),
        value is InvalidProcessId ==> "bus broker returned process ID zero"@.is_prefix_of(
            value.text(),
        ),
        value is MissingUserId ==> "bus broker omitted the caller Unix user ID"@.is_prefix_of(
            value.text(),
        ),
        value is PinSession ==> "pin caller process identity: "@.is_prefix_of(value.text()),
{
    let text = value.text();
    if value is CreateBusProxy {
        assert("create bus-broker proxy: "@ =~= text.subrange(
            0,
            "create bus-broker proxy: "@.len() as int,
        ));
    }
    if value is QueryCredentials {
        assert("query D-Bus caller credentials: "@ =~= text.subrange(
            0,
            "query D-Bus caller credentials: "@.len() as int,
        ));
    }
    if value is MissingProcessId {
        assert("bus broker omitted the caller process ID"@ =~= text.subrange(
            0,
            "bus broker omitted the caller process ID"@.len() as int,
        ));
    }
    if value is InvalidProcessId {
        assert("bus broker returned process ID zero"@ =~= text.subrange(
            0,
            "bus broker returned process ID zero"@.len() as int,
        ));
    }
    if value is MissingUserId {
        assert("bus broker omitted the caller Unix user ID"@ =~= text.subrange(
            0,
            "bus broker omitted the caller Unix user ID"@.len() as int,
        ));
    }
    if value is PinSession {
        assert("pin caller process identity: "@ =~= text.subrange(
            0,
            "pin caller process identity: "@.len() as int,
        ));
    }
}

} // verus!
