//! How the daemon runs: for one login session, or for the whole system.

pub mod sequence;

use crate::caller::PublicBus;
use crate::display::MediaRuntime;
use crate::order::same_text;
use crate::text::{concat, decimal, push_decimal};
use vstd::prelude::*;
use vstd::string::*;

verus! {

pub const SYSTEM_SERVICE_USER: &'static str = "pronk";

pub const SYSTEM_MEDIA_RUNTIME_DIRECTORY: &'static str = "/run/pronk";

#[derive(Debug, Clone, Copy, PartialEq, Eq, Structural)]
pub enum ServiceMode {
    Session,
    System,
}

/// The mode that the arguments ask for, if any.
pub open spec fn mode_of(arguments: Seq<String>) -> Option<ServiceMode> {
    if arguments.len() == 0 {
        Some(ServiceMode::Session)
    } else if arguments.len() > 1 {
        None
    } else if arguments[0]@ == "--session"@ {
        Some(ServiceMode::Session)
    } else if arguments[0]@ == "--system"@ {
        Some(ServiceMode::System)
    } else {
        None
    }
}

/// The bus of a mode.
pub open spec fn bus_of(mode: ServiceMode) -> PublicBus {
    match mode {
        ServiceMode::Session => PublicBus::Session,
        ServiceMode::System => PublicBus::System,
    }
}

impl ServiceMode {
    pub fn parse(arguments: &[String]) -> (result: Result<Self, &'static str>)
        ensures
            match mode_of(arguments@) {
                Some(mode) => result == Ok::<ServiceMode, &'static str>(mode),
                None => result is Err && result->Err_0@ == "usage: pronkd [--session|--system]"@,
            },
    {
        proof {
            reveal_strlit("--session");
            reveal_strlit("--system");
        }
        if arguments.len() == 0 {
            return Ok(ServiceMode::Session);
        }
        if arguments.len() == 1 {
            if same_text(arguments[0].as_str(), "--session") {
                return Ok(ServiceMode::Session);
            }
            if same_text(arguments[0].as_str(), "--system") {
                return Ok(ServiceMode::System);
            }
        }
        Err("usage: pronkd [--session|--system]")
    }

    pub fn public_bus(self) -> (bus: PublicBus)
        ensures
            bus == bus_of(self),
    {
        match self {
            ServiceMode::Session => PublicBus::Session,
            ServiceMode::System => PublicBus::System,
        }
    }

    pub fn label(self) -> (label: &'static str)
        ensures
            label@ == match self {
                ServiceMode::Session => "session"@,
                ServiceMode::System => "system"@,
            },
    {
        match self {
            ServiceMode::Session => "session",
            ServiceMode::System => "system",
        }
    }
}

/// The runtime directory of a user.
pub fn user_runtime_directory(uid: u32) -> (directory: String)
    ensures
        directory@ == "/run/user/"@ + decimal(uid as nat),
{
    let mut directory = "/run/user/".to_owned();
    push_decimal(&mut directory, uid as u64);
    directory
}

/// The media runtime of the system service.
pub fn system_media_runtime(uid: u32) -> (runtime: MediaRuntime)
    ensures
        runtime.directory@ == SYSTEM_MEDIA_RUNTIME_DIRECTORY@,
        runtime.server_uid == uid,
        runtime.capture_source == crate::display_media::CaptureSource::Renderer,
{
    MediaRuntime::new(SYSTEM_MEDIA_RUNTIME_DIRECTORY.to_owned(), uid)
}

/// The account of the system service.
#[derive(Debug, Clone, Copy, PartialEq, Eq, Structural)]
pub struct ServiceAccount {
    pub uid: u32,
    pub gid: u32,
}

/// The three IDs of a process, of its user or of its group.
#[derive(Debug, Clone, Copy, PartialEq, Eq, Structural)]
pub struct ProcessIds {
    pub real: u32,
    pub effective: u32,
    pub saved: u32,
}

impl ProcessIds {
    /// All three are the same.
    pub open spec fn all_are(self, id: u32) -> bool {
        self.real == id && self.effective == id && self.saved == id
    }

    /// The three IDs, with slashes between them.
    pub open spec fn text(self) -> Seq<char> {
        decimal(self.real as nat) + "/"@ + decimal(self.effective as nat) + "/"@ + decimal(
            self.saved as nat,
        )
    }

    fn to_text(self) -> (text: String)
        ensures
            text@ == self.text(),
    {
        let mut text = String::new();
        push_decimal(&mut text, self.real as u64);
        text.append("/");
        push_decimal(&mut text, self.effective as u64);
        text.append("/");
        push_decimal(&mut text, self.saved as u64);
        proof {
            assert(text@ =~= self.text());
        }
        text
    }
}

/// Whether the account of the service can be used.
pub open spec fn account_checked(
    installed: Option<ServiceAccount>,
    result: Result<ServiceAccount, &'static str>,
) -> bool {
    match installed {
        None => result is Err && result->Err_0@
            == "the pronk system account is not installed"@,
        Some(account) => if account.uid == 0 {
            result is Err && result->Err_0@ == "the pronk system account must not be root"@
        } else {
            result == Ok::<ServiceAccount, &'static str>(account)
        },
    }
}

/// The account to run under: the installed one, which must not be root.
pub fn service_account(installed: Option<ServiceAccount>) -> (result: Result<
    ServiceAccount,
    &'static str,
>)
    ensures
        account_checked(installed, result),
{
    match installed {
        None => Err("the pronk system account is not installed"),
        Some(account) => {
            if account.uid == 0 {
                Err("the pronk system account must not be root")
            } else {
                Ok(account)
            }
        },
    }
}

/// The report of a process that runs as another user.
pub open spec fn user_defect(account: ServiceAccount, user_ids: ProcessIds) -> Seq<char> {
    "system mode requires real/effective/saved uid "@ + decimal(account.uid as nat) + " ("@
        + SYSTEM_SERVICE_USER@ + "), found "@ + user_ids.text()
}

/// The report of a process that runs as another group.
pub open spec fn group_defect(account: ServiceAccount, group_ids: ProcessIds) -> Seq<char> {
    "system mode requires real/effective/saved gid "@ + decimal(account.gid as nat) + ", found "@
        + group_ids.text()
}

/// Why a process does not run as the account, if so.
pub open spec fn identity_defect(
    account: ServiceAccount,
    user_ids: ProcessIds,
    group_ids: ProcessIds,
) -> Option<Seq<char>> {
    if !user_ids.all_are(account.uid) {
        Some(user_defect(account, user_ids))
    } else if !group_ids.all_are(account.gid) {
        Some(group_defect(account, group_ids))
    } else {
        None
    }
}

/// Check that the process runs as the user of the account.
pub fn require_user_identity(account: ServiceAccount, user_ids: ProcessIds) -> (result: Result<
    (),
    String,
>)
    ensures
        result is Ok <==> user_ids.all_are(account.uid),
        result matches Err(text) ==> text@ == user_defect(account, user_ids),
{
    if user_ids.real != account.uid || user_ids.effective != account.uid || user_ids.saved
        != account.uid {
        let mut text = "system mode requires real/effective/saved uid ".to_owned();
        push_decimal(&mut text, account.uid as u64);
        text.append(" (");
        text.append(SYSTEM_SERVICE_USER);
        text.append("), found ");
        text.append(user_ids.to_text().as_str());
        return Err(text);
    }
    Ok(())
}

/// Check that the process runs as the group of the account.
pub fn require_group_identity(account: ServiceAccount, group_ids: ProcessIds) -> (result: Result<
    (),
    String,
>)
    ensures
        result is Ok <==> group_ids.all_are(account.gid),
        result matches Err(text) ==> text@ == group_defect(account, group_ids),
{
    if group_ids.real != account.gid || group_ids.effective != account.gid || group_ids.saved
        != account.gid {
        let mut text = "system mode requires real/effective/saved gid ".to_owned();
        push_decimal(&mut text, account.gid as u64);
        text.append(", found ");
        text.append(group_ids.to_text().as_str());
        return Err(text);
    }
    Ok(())
}

/// Check that the process runs as the account, and as nothing else.
pub fn require_system_service_identity(
    account: ServiceAccount,
    user_ids: ProcessIds,
    group_ids: ProcessIds,
) -> (result: Result<(), String>)
    ensures
        match identity_defect(account, user_ids, group_ids) {
            Some(defect) => result is Err && result->Err_0@ == defect,
            None => result is Ok,
        },
{
    match require_user_identity(account, user_ids) {
        Err(text) => Err(text),
        Ok(()) => require_group_identity(account, group_ids),
    }
}

/// One word of each capability set of a process.
#[derive(Debug, Clone, Copy, PartialEq, Eq, Structural)]
pub struct CapabilityWord {
    pub effective: u32,
    pub permitted: u32,
    pub inheritable: u32,
}

/// The process has no capability at all.
pub open spec fn no_capabilities(words: Seq<CapabilityWord>) -> bool {
    forall|i: int|
        0 <= i < words.len() ==> (#[trigger] words[i]) == (CapabilityWord {
            effective: 0,
            permitted: 0,
            inheritable: 0,
        })
}

/// The process can use no capability by itself.
pub open spec fn no_usable_capabilities(words: Seq<CapabilityWord>) -> bool {
    forall|i: int|
        0 <= i < words.len() ==> (#[trigger] words[i]).effective == 0 && words[i].permitted == 0
}

/// Whether capabilities have to be dropped.
pub open spec fn capabilities_checked(
    words: Seq<CapabilityWord>,
    result: Result<bool, &'static str>,
) -> bool {
    if no_usable_capabilities(words) {
        result == Ok::<bool, &'static str>(!no_capabilities(words))
    } else {
        result is Err && result->Err_0@
            == "system mode must start without effective or permitted capabilities"@
    }
}

/// Check the capabilities that the process started with: whether there are
/// some to drop.
pub fn drop_inheritable_process_capabilities(words: &[CapabilityWord]) -> (result: Result<
    bool,
    &'static str,
>)
    ensures
        capabilities_checked(words@, result),
{
    let mut inheritable = false;
    let mut index: usize = 0;
    while index < words.len()
        invariant
            index <= words@.len(),
            no_usable_capabilities(words@.take(index as int)),
            inheritable == !no_capabilities(words@.take(index as int)),
        decreases words@.len() - index,
    {
        let word = words[index];
        if word.effective != 0 || word.permitted != 0 {
            proof {
                assert(words@[index as int] == word);
            }
            return Err("system mode must start without effective or permitted capabilities");
        }
        let ghost before = words@.take(index as int);
        if word.inheritable != 0 {
            inheritable = true;
        }
        index += 1;
        proof {
            let after = words@.take(index as int);
            assert(after =~= before.push(word));
            assert(after.last() == word);
            assert forall|i: int| 0 <= i < after.len() implies (#[trigger] after[i]).effective == 0
                && after[i].permitted == 0 by {
                if i < before.len() {
                    assert(after[i] == before[i]);
                }
            }
            if no_capabilities(after) {
                assert forall|i: int| 0 <= i < before.len() implies (#[trigger] before[i])
                    == (CapabilityWord { effective: 0, permitted: 0, inheritable: 0 }) by {
                    assert(after[i] == before[i]);
                }
            }
        }
    }
    proof {
        assert(words@.take(index as int) =~= words@);
    }
    Ok(inheritable)
}

/// Check that the process has no capability left.
pub fn require_no_capabilities(words: &[CapabilityWord]) -> (result: Result<(), &'static str>)
    ensures
        result is Ok <==> no_capabilities(words@),
        result matches Err(text) ==> text@ == "system mode could not drop all process capabilities"@,
{
    let mut index: usize = 0;
    while index < words.len()
        invariant
            index <= words@.len(),
            forall|i: int|
                0 <= i < index ==> (#[trigger] words@[i]) == (CapabilityWord {
                    effective: 0,
                    permitted: 0,
                    inheritable: 0,
                }),
        decreases words@.len() - index,
    {
        let word = words[index];
        if word.effective != 0 || word.permitted != 0 || word.inheritable != 0 {
            proof {
                assert(words@[index as int] == word);
            }
            return Err("system mode could not drop all process capabilities");
        }
        index += 1;
    }
    Ok(())
}

/// Which task of the service ended by itself.
#[derive(Debug, Clone, Copy, PartialEq, Eq, Structural)]
pub enum ServiceTask {
    InventorySignal,
    LifecycleSignal,
}

/// The task to wait for next once the manager has stopped, where `waited` was
/// waited for last. The one that ended by itself needs no waiting.
pub open spec fn next_to_join(ended: Option<ServiceTask>, waited: Option<ServiceTask>) -> Option<
    ServiceTask,
> {
    if waited is None && ended != Some(ServiceTask::InventorySignal) {
        Some(ServiceTask::InventorySignal)
    } else if waited != Some(ServiceTask::LifecycleSignal) && ended != Some(
        ServiceTask::LifecycleSignal,
    ) {
        Some(ServiceTask::LifecycleSignal)
    } else {
        None
    }
}

pub fn task_to_join(ended: Option<ServiceTask>, waited: Option<ServiceTask>) -> (task: Option<
    ServiceTask,
>)
    ensures
        task == next_to_join(ended, waited),
{
    if waited.is_none() && !matches!(ended, Some(ServiceTask::InventorySignal)) {
        Some(ServiceTask::InventorySignal)
    } else if !matches!(waited, Some(ServiceTask::LifecycleSignal)) && !matches!(
        ended,
        Some(ServiceTask::LifecycleSignal)
    ) {
        Some(ServiceTask::LifecycleSignal)
    } else {
        None
    }
}

/// How the service ends: a task that ended by itself is a failure.
pub fn service_result(ended: Option<ServiceTask>) -> (result: Result<(), String>)
    ensures
        match ended {
            None => result is Ok,
            Some(ServiceTask::InventorySignal) => result is Err && result->Err_0@
                == "inventory signal"@ + " task stopped unexpectedly"@,
            Some(ServiceTask::LifecycleSignal) => result is Err && result->Err_0@
                == "lifecycle signal"@ + " task stopped unexpectedly"@,
        },
{
    match ended {
        None => Ok(()),
        Some(ServiceTask::InventorySignal) => Err(
            concat("inventory signal", " task stopped unexpectedly"),
        ),
        Some(ServiceTask::LifecycleSignal) => Err(
            concat("lifecycle signal", " task stopped unexpectedly"),
        ),
    }
}

/// A service runs on the session bus unless it is told otherwise, and takes one word at most.
pub proof fn services_run_where_they_are_told(arguments: Seq<String>)
    ensures
        mode_of(arguments) == Some(ServiceMode::System) <==> arguments.len() == 1
            && arguments[0]@ == "--system"@,
        mode_of(arguments) == Some(ServiceMode::Session) <==> arguments.len() == 0 || (
        arguments.len() == 1 && arguments[0]@ == "--session"@),
        mode_of(arguments) is None ==> arguments.len() > 0,
        bus_of(ServiceMode::System) is System,
        bus_of(ServiceMode::Session) is Session,
{
    reveal_strlit("--system");
    reveal_strlit("--session");
    assert("--system"@.len() == 8);
    assert("--session"@.len() == 9);
}

/// The service of the system runs as its own account in every respect, and never as root; the
/// user is looked at before the group.
pub proof fn system_services_run_as_their_account(
    installed: Option<ServiceAccount>,
    found: Result<ServiceAccount, &'static str>,
    user_ids: ProcessIds,
    group_ids: ProcessIds,
)
    requires
        account_checked(installed, found),
    ensures
        found is Ok <==> installed is Some && installed->0.uid > 0,
        found is Ok ==> found->Ok_0 == installed->0,
        found is Ok ==> ({
            let account = found->Ok_0;
            let defect = identity_defect(account, user_ids, group_ids);
            &&& defect is None <==> user_ids.real == account.uid && user_ids.effective
                == account.uid && user_ids.saved == account.uid && group_ids.real == account.gid
                && group_ids.effective == account.gid && group_ids.saved == account.gid
        }),
{
}

/// The text of the identities of a process names the real, the effective and the saved one, in
/// this order.
pub proof fn identities_are_named_in_order(ids: ProcessIds)
    ensures
        ({
            let first = decimal(ids.real as nat);
            let second = decimal(ids.effective as nat);
            let third = decimal(ids.saved as nat);
            &&& ids.text().take(first.len() as int) == first
            &&& ids.text()[first.len() as int] == '/'
            &&& ids.text().subrange(
                first.len() as int + 1,
                first.len() as int + 1 + second.len() as int,
            ) == second
            &&& ids.text().skip(first.len() as int + 2 + second.len() as int) == third
        }),
{
    reveal_strlit("/");
    let first = decimal(ids.real as nat);
    let second = decimal(ids.effective as nat);
    let third = decimal(ids.saved as nat);
    let text = ids.text();
    assert(text.take(first.len() as int) =~= first);
    assert(text.subrange(
        first.len() as int + 1,
        first.len() as int + 1 + second.len() as int,
    ) =~= second);
    assert(text.skip(first.len() as int + 2 + second.len() as int) =~= third);
}

/// A service of the system starts without a capability that it could use, and drops those that
/// it could pass on.
pub proof fn services_keep_no_capability(
    words: Seq<CapabilityWord>,
    result: Result<bool, &'static str>,
    i: int,
)
    requires
        capabilities_checked(words, result),
        0 <= i < words.len(),
    ensures
        words[i].effective != 0 || words[i].permitted != 0 ==> result is Err && !no_capabilities(
            words,
        ),
        result is Ok && words[i].inheritable != 0 ==> result->Ok_0,
        result is Ok && !result->Ok_0 ==> words[i].inheritable == 0 && words[i].effective == 0
            && words[i].permitted == 0,
        no_capabilities(words) ==> result == Ok::<bool, &'static str>(false),
{
}

/// Every task is waited for but the one that ended by itself, the inventory before the
/// lifecycle; none is waited for twice.
pub proof fn tasks_are_waited_for_once(ended: Option<ServiceTask>, waited: Option<ServiceTask>)
    ensures
        next_to_join(ended, waited) is Some ==> next_to_join(ended, waited) != ended
            && next_to_join(ended, waited) != waited,
        ended is None ==> next_to_join(ended, None) == Some(ServiceTask::InventorySignal),
        ended is None ==> next_to_join(ended, Some(ServiceTask::InventorySignal)) == Some(
            ServiceTask::LifecycleSignal,
        ),
        next_to_join(Some(ServiceTask::InventorySignal), None) == Some(
            ServiceTask::LifecycleSignal,
        ),
        next_to_join(Some(ServiceTask::LifecycleSignal), None) == Some(
            ServiceTask::InventorySignal,
        ),
        next_to_join(ended, Some(ServiceTask::LifecycleSignal)) is None,
        next_to_join(Some(ServiceTask::LifecycleSignal), Some(ServiceTask::InventorySignal))
            is None,
{
}

} // verus!
