//! The daemon from its start to its end.

use crate::caller::PublicBus;
use crate::display::MediaRuntime;
use crate::service::{
    drop_inheritable_process_capabilities, group_defect, next_to_join, no_capabilities,
    no_usable_capabilities, require_group_identity, require_no_capabilities,
    require_user_identity, service_account, service_result, system_media_runtime, task_to_join,
    user_defect, user_runtime_directory, CapabilityWord, ProcessIds, ServiceAccount, ServiceMode,
    ServiceTask, SYSTEM_MEDIA_RUNTIME_DIRECTORY,
};
use crate::text::{concat, decimal};
use vstd::prelude::*;
use vstd::string::*;

verus! {

/// What the daemon waits for.
#[derive(Debug, Clone, Copy, PartialEq, Eq, Structural)]
pub enum ServicePhase {
    /// The system bus, to see whether the system has a service.
    ConnectArbiter,
    CreateArbiter,
    WatchArbiter,
    QueryArbiter,
    /// The user that the daemon runs as.
    ReadUser,
    ResolveAccount,
    ReadUserIds { account: ServiceAccount },
    ReadGroupIds { account: ServiceAccount },
    ReadCapabilities { account: ServiceAccount },
    DropCapabilities { account: ServiceAccount },
    RecheckCapabilities { account: ServiceAccount },
    LoadRegistry { uid: u32 },
    Connect { uid: u32 },
    StartManager { uid: u32 },
    Register,
    AcquireName,
    /// The end of the service.
    Serve,
    StopManager { ended: Option<ServiceTask> },
    Join { ended: Option<ServiceTask>, task: ServiceTask },
    ReleaseName { ended: Option<ServiceTask> },
}

/// Where the installed backends are registered.
#[derive(Debug, PartialEq, Eq)]
pub enum RegistryDirectory {
    User(String),
    System,
}

/// What to do next.
#[derive(Debug, PartialEq, Eq)]
pub enum ServiceAction {
    ConnectArbiter,
    CreateArbiter,
    WatchArbiter,
    QueryArbiter,
    ReadUser,
    ResolveAccount,
    ReadUserIds,
    ReadGroupIds,
    ReadCapabilities,
    DropCapabilities,
    LoadRegistry(RegistryDirectory),
    Connect(PublicBus),
    StartManager(MediaRuntime),
    Register(PublicBus),
    AcquireName,
    Serve,
    StopManager,
    Join(ServiceTask),
    /// Give the name back; a failure is only noted.
    ReleaseName,
}

/// How a service stops.
#[derive(Debug, PartialEq, Eq)]
pub enum ServeEnd {
    Signal(Result<(), String>),
    /// A task ended by itself: what it says, if it can be asked.
    Task(ServiceTask, Result<Result<(), String>, String>),
    /// The system has a service of its own now.
    SystemServiceAppeared,
}

/// What came of an action.
#[derive(Debug, PartialEq, Eq)]
pub enum ServiceReply {
    Done(Result<(), String>),
    /// Whether the system has a service.
    Owned(Result<bool, String>),
    User(u32),
    Account(Result<Option<ServiceAccount>, String>),
    Ids(Result<ProcessIds, String>),
    Capabilities(Result<Vec<CapabilityWord>, String>),
    Ended(ServeEnd),
    /// What a task says, if it can be asked.
    Joined(Result<Result<(), String>, String>),
}

/// Why the daemon failed, and what it was about.
#[derive(Debug, PartialEq, Eq)]
pub struct ServiceFailure {
    pub context: Option<&'static str>,
    pub cause: String,
}

impl ServiceFailure {
    /// The failure as one line.
    pub open spec fn text(self) -> Seq<char> {
        match self.context {
            Some(context) => context@ + ": "@ + self.cause@,
            None => self.cause@,
        }
    }

    pub fn to_text(&self) -> (text: String)
        ensures
            text@ == self.text(),
    {
        match self.context {
            Some(context) => {
                let mut text = concat(context, ": ");
                text.append(self.cause.as_str());
                text
            },
            None => self.cause.clone(),
        }
    }
}

/// The daemon on its way.
#[derive(Debug, Clone, Copy, PartialEq, Eq, Structural)]
pub struct ServiceRun {
    pub mode: ServiceMode,
    pub phase: ServicePhase,
}

/// How the daemon goes on.
#[derive(Debug, PartialEq, Eq)]
pub enum ServiceProgress {
    Next(ServiceRun),
    /// It ended as it should.
    Ended,
    Failed(ServiceFailure),
}

impl ServicePhase {
    /// What the phase is about, where it only can succeed or fail.
    pub open spec fn about(self) -> Seq<char> {
        match self {
            ServicePhase::ConnectArbiter => "connect to the system bus for service arbitration"@,
            ServicePhase::CreateArbiter => "create the system bus proxy for service arbitration"@,
            ServicePhase::WatchArbiter => "watch for the Pronk system service"@,
            ServicePhase::QueryArbiter => "query the Pronk system service"@,
            ServicePhase::ResolveAccount => "resolve the pronk system account"@,
            ServicePhase::ReadUserIds { .. } => "read system-service user IDs"@,
            ServicePhase::ReadGroupIds { .. } => "read system-service group IDs"@,
            ServicePhase::ReadCapabilities { .. } => "read system-service capabilities"@,
            ServicePhase::RecheckCapabilities { .. } => "read system-service capabilities"@,
            ServicePhase::DropCapabilities { .. } => "drop inherited system-service capabilities"@,
            ServicePhase::LoadRegistry { .. } => "load the installed backend registry"@,
            ServicePhase::StartManager { .. } => "start the Pronk manager"@,
            ServicePhase::Register => "register the public manager object"@,
            ServicePhase::AcquireName => "acquire the Pronk bus name"@,
            ServicePhase::StopManager { .. } => "stop the Pronk manager"@,
            _ => ""@,
        }
    }

    fn label(self) -> (label: &'static str)
        ensures
            label@ == self.about(),
    {
        match self {
            ServicePhase::ConnectArbiter => "connect to the system bus for service arbitration",
            ServicePhase::CreateArbiter => "create the system bus proxy for service arbitration",
            ServicePhase::WatchArbiter => "watch for the Pronk system service",
            ServicePhase::QueryArbiter => "query the Pronk system service",
            ServicePhase::ResolveAccount => "resolve the pronk system account",
            ServicePhase::ReadUserIds { .. } => "read system-service user IDs",
            ServicePhase::ReadGroupIds { .. } => "read system-service group IDs",
            ServicePhase::ReadCapabilities { .. } => "read system-service capabilities",
            ServicePhase::RecheckCapabilities { .. } => "read system-service capabilities",
            ServicePhase::DropCapabilities { .. } => "drop inherited system-service capabilities",
            ServicePhase::LoadRegistry { .. } => "load the installed backend registry",
            ServicePhase::StartManager { .. } => "start the Pronk manager",
            ServicePhase::Register => "register the public manager object",
            ServicePhase::AcquireName => "acquire the Pronk bus name",
            ServicePhase::StopManager { .. } => "stop the Pronk manager",
            _ => "",
        }
    }
}

/// What the wait for a task is about.
pub open spec fn join_about(task: ServiceTask) -> Seq<char> {
    match task {
        ServiceTask::InventorySignal => "join inventory signal task"@,
        ServiceTask::LifecycleSignal => "join lifecycle signal task"@,
    }
}

fn join_label(task: ServiceTask) -> (label: &'static str)
    ensures
        label@ == join_about(task),
{
    match task {
        ServiceTask::InventorySignal => "join inventory signal task",
        ServiceTask::LifecycleSignal => "join lifecycle signal task",
    }
}

/// The daemon fails at what the text is about.
pub open spec fn fails_about(
    progress: ServiceProgress,
    about: Seq<char>,
    cause: Seq<char>,
) -> bool {
    progress matches ServiceProgress::Failed(failure) && (failure.context matches Some(context)
        && context@ == about) && failure.cause@ == cause
}

/// The daemon fails for what it found out itself.
pub open spec fn fails_because(progress: ServiceProgress, cause: Seq<char>) -> bool {
    progress matches ServiceProgress::Failed(failure) && failure.context is None
        && failure.cause@ == cause
}

/// The daemon goes to the phase.
pub open spec fn service_goes_to(
    run: ServiceRun,
    phase: ServicePhase,
    progress: ServiceProgress,
) -> bool {
    progress == ServiceProgress::Next(ServiceRun { phase, ..run })
}

/// The phase after one that only can succeed or fail.
pub open spec fn phase_after(phase: ServicePhase) -> ServicePhase {
    match phase {
        ServicePhase::ConnectArbiter => ServicePhase::CreateArbiter,
        ServicePhase::CreateArbiter => ServicePhase::WatchArbiter,
        ServicePhase::WatchArbiter => ServicePhase::QueryArbiter,
        ServicePhase::DropCapabilities { account } => ServicePhase::RecheckCapabilities {
            account,
        },
        ServicePhase::LoadRegistry { uid } => ServicePhase::Connect { uid },
        ServicePhase::Connect { uid } => ServicePhase::StartManager { uid },
        ServicePhase::StartManager { .. } => ServicePhase::Register,
        ServicePhase::Register => ServicePhase::AcquireName,
        ServicePhase::AcquireName => ServicePhase::Serve,
        _ => phase,
    }
}

/// The phase is one of those that only can succeed or fail on the way up.
pub open spec fn plain(phase: ServicePhase) -> bool {
    match phase {
        ServicePhase::ConnectArbiter
        | ServicePhase::CreateArbiter
        | ServicePhase::WatchArbiter
        | ServicePhase::DropCapabilities { .. }
        | ServicePhase::LoadRegistry { .. }
        | ServicePhase::Connect { .. }
        | ServicePhase::StartManager { .. }
        | ServicePhase::Register
        | ServicePhase::AcquireName => true,
        _ => false,
    }
}

/// What a failed phase is about, in a mode.
pub open spec fn failed_about(run: ServiceRun) -> Seq<char> {
    match run.phase {
        ServicePhase::Connect { .. } => match run.mode {
            ServiceMode::Session => "connect to the session bus"@,
            ServiceMode::System => "connect to the system bus"@,
        },
        phase => phase.about(),
    }
}

/// The tasks are waited for one by one, then the name is given back.
pub open spec fn goes_on_joining(
    run: ServiceRun,
    ended: Option<ServiceTask>,
    waited: Option<ServiceTask>,
    progress: ServiceProgress,
) -> bool {
    match next_to_join(ended, waited) {
        Some(task) => service_goes_to(run, ServicePhase::Join { ended, task }, progress),
        None => service_goes_to(run, ServicePhase::ReleaseName { ended }, progress),
    }
}

/// The daemon goes on as it is due. It keeps waiting where the reply is not the
/// one that it waits for.
pub open spec fn service_reacts(
    run: ServiceRun,
    reply: ServiceReply,
    progress: ServiceProgress,
) -> bool {
    match (run.phase, reply) {
        (ServicePhase::QueryArbiter, ServiceReply::Owned(owned)) => match owned {
            Err(text) => fails_about(progress, run.phase.about(), text@),
            Ok(true) => progress == ServiceProgress::Ended,
            Ok(false) => service_goes_to(run, ServicePhase::ReadUser, progress),
        },
        (ServicePhase::ReadUser, ServiceReply::User(uid)) => service_goes_to(
            run,
            ServicePhase::LoadRegistry { uid },
            progress,
        ),
        (ServicePhase::ResolveAccount, ServiceReply::Account(found)) => match found {
            Err(text) => fails_about(progress, run.phase.about(), text@),
            Ok(None) => fails_because(progress, "the pronk system account is not installed"@),
            Ok(Some(account)) => if account.uid == 0 {
                fails_because(progress, "the pronk system account must not be root"@)
            } else {
                service_goes_to(run, ServicePhase::ReadUserIds { account }, progress)
            },
        },
        (ServicePhase::ReadUserIds { account }, ServiceReply::Ids(ids)) => match ids {
            Err(text) => fails_about(progress, run.phase.about(), text@),
            Ok(ids) => if ids.all_are(account.uid) {
                service_goes_to(run, ServicePhase::ReadGroupIds { account }, progress)
            } else {
                fails_because(progress, user_defect(account, ids))
            },
        },
        (ServicePhase::ReadGroupIds { account }, ServiceReply::Ids(ids)) => match ids {
            Err(text) => fails_about(progress, run.phase.about(), text@),
            Ok(ids) => if ids.all_are(account.gid) {
                service_goes_to(run, ServicePhase::ReadCapabilities { account }, progress)
            } else {
                fails_because(progress, group_defect(account, ids))
            },
        },
        (ServicePhase::ReadCapabilities { account }, ServiceReply::Capabilities(read)) => {
            match read {
                Err(text) => fails_about(progress, run.phase.about(), text@),
                Ok(words) => if !no_usable_capabilities(words@) {
                    fails_because(
                        progress,
                        "system mode must start without effective or permitted capabilities"@,
                    )
                } else if no_capabilities(words@) {
                    service_goes_to(run, ServicePhase::RecheckCapabilities { account }, progress)
                } else {
                    service_goes_to(run, ServicePhase::DropCapabilities { account }, progress)
                },
            }
        },
        (ServicePhase::RecheckCapabilities { account }, ServiceReply::Capabilities(read)) => {
            match read {
                Err(text) => fails_about(progress, run.phase.about(), text@),
                Ok(words) => if no_capabilities(words@) {
                    service_goes_to(
                        run,
                        ServicePhase::LoadRegistry { uid: account.uid },
                        progress,
                    )
                } else {
                    fails_because(progress, "system mode could not drop all process capabilities"@)
                },
            }
        },
        (ServicePhase::Serve, ServiceReply::Ended(end)) => match end {
            ServeEnd::Signal(Err(text)) => fails_about(
                progress,
                "wait for termination signal"@,
                text@,
            ),
            ServeEnd::Task(task, Err(text)) => fails_about(progress, join_about(task), text@),
            ServeEnd::Task(_, Ok(Err(text))) => fails_because(progress, text@),
            ServeEnd::Task(task, Ok(Ok(_))) => service_goes_to(
                run,
                ServicePhase::StopManager { ended: Some(task) },
                progress,
            ),
            ServeEnd::Signal(Ok(_)) | ServeEnd::SystemServiceAppeared => service_goes_to(
                run,
                ServicePhase::StopManager { ended: None },
                progress,
            ),
        },
        (ServicePhase::StopManager { ended }, ServiceReply::Done(done)) => match done {
            Err(text) => fails_about(progress, run.phase.about(), text@),
            Ok(_) => goes_on_joining(run, ended, None, progress),
        },
        (ServicePhase::Join { ended, task }, ServiceReply::Joined(joined)) => match joined {
            Err(text) => fails_about(progress, join_about(task), text@),
            Ok(Err(text)) => fails_because(progress, text@),
            Ok(Ok(_)) => goes_on_joining(run, ended, Some(task), progress),
        },
        (ServicePhase::ReleaseName { ended }, ServiceReply::Done(_)) => match ended {
            None => progress == ServiceProgress::Ended,
            Some(ServiceTask::InventorySignal) => fails_because(
                progress,
                "inventory signal"@ + " task stopped unexpectedly"@,
            ),
            Some(ServiceTask::LifecycleSignal) => fails_because(
                progress,
                "lifecycle signal"@ + " task stopped unexpectedly"@,
            ),
        },
        (phase, ServiceReply::Done(done)) => if plain(phase) {
            match done {
                Err(text) => fails_about(progress, failed_about(run), text@),
                Ok(_) => service_goes_to(run, phase_after(phase), progress),
            }
        } else {
            progress == ServiceProgress::Next(run)
        },
        _ => progress == ServiceProgress::Next(run),
    }
}

/// The action is the one of the phase.
pub open spec fn service_asks(action: ServiceAction, run: ServiceRun) -> bool {
    let bus = match run.mode {
        ServiceMode::Session => PublicBus::Session,
        ServiceMode::System => PublicBus::System,
    };
    match run.phase {
        ServicePhase::ConnectArbiter => action is ConnectArbiter,
        ServicePhase::CreateArbiter => action is CreateArbiter,
        ServicePhase::WatchArbiter => action is WatchArbiter,
        ServicePhase::QueryArbiter => action is QueryArbiter,
        ServicePhase::ReadUser => action is ReadUser,
        ServicePhase::ResolveAccount => action is ResolveAccount,
        ServicePhase::ReadUserIds { .. } => action is ReadUserIds,
        ServicePhase::ReadGroupIds { .. } => action is ReadGroupIds,
        ServicePhase::ReadCapabilities { .. } => action is ReadCapabilities,
        ServicePhase::DropCapabilities { .. } => action is DropCapabilities,
        ServicePhase::RecheckCapabilities { .. } => action is ReadCapabilities,
        ServicePhase::LoadRegistry { uid } => {
            &&& action matches ServiceAction::LoadRegistry(directory)
            &&& match run.mode {
                ServiceMode::Session => directory matches RegistryDirectory::User(path) && path@
                    == "/run/user/"@ + decimal(uid as nat),
                ServiceMode::System => directory is System,
            }
        },
        ServicePhase::Connect { .. } => action == ServiceAction::Connect(bus),
        ServicePhase::StartManager { uid } => {
            &&& action matches ServiceAction::StartManager(runtime)
            &&& runtime.server_uid == uid
            &&& runtime.capture_source == crate::display_media::CaptureSource::Renderer
            &&& runtime.directory@ == match run.mode {
                ServiceMode::Session => "/run/user/"@ + decimal(uid as nat) + "/pronk/media"@,
                ServiceMode::System => SYSTEM_MEDIA_RUNTIME_DIRECTORY@,
            }
        },
        ServicePhase::Register => action == ServiceAction::Register(bus),
        ServicePhase::AcquireName => action is AcquireName,
        ServicePhase::Serve => action is Serve,
        ServicePhase::StopManager { .. } => action is StopManager,
        ServicePhase::Join { task, .. } => action == ServiceAction::Join(task),
        ServicePhase::ReleaseName { .. } => action is ReleaseName,
    }
}

fn about(context: &'static str, cause: String) -> (progress: ServiceProgress)
    ensures
        fails_about(progress, context@, cause@),
{
    ServiceProgress::Failed(ServiceFailure { context: Some(context), cause })
}

fn because(cause: &str) -> (progress: ServiceProgress)
    ensures
        fails_because(progress, cause@),
{
    ServiceProgress::Failed(ServiceFailure { context: None, cause: cause.to_owned() })
}

/// Where a service begins.
pub open spec fn first_phase(mode: ServiceMode) -> ServicePhase {
    match mode {
        ServiceMode::Session => ServicePhase::ConnectArbiter,
        ServiceMode::System => ServicePhase::ResolveAccount,
    }
}

impl ServiceRun {
    /// A task that ended by itself is not waited for.
    pub open spec fn wf(self) -> bool {
        self.phase matches ServicePhase::Join { ended, task } ==> ended != Some(task)
    }

    /// Begin: a service for one login session first looks for one of the
    /// system, and the service of the system first looks for its account.
    pub fn run(mode: ServiceMode) -> (run: Self)
        ensures
            run == (ServiceRun { mode, phase: first_phase(mode) }),
    {
        let phase = match mode {
            ServiceMode::Session => ServicePhase::ConnectArbiter,
            ServiceMode::System => ServicePhase::ResolveAccount,
        };
        ServiceRun { mode, phase }
    }

    /// What the daemon asks for.
    pub fn action(&self) -> (action: ServiceAction)
        ensures
            service_asks(action, *self),
    {
        match self.phase {
            ServicePhase::ConnectArbiter => ServiceAction::ConnectArbiter,
            ServicePhase::CreateArbiter => ServiceAction::CreateArbiter,
            ServicePhase::WatchArbiter => ServiceAction::WatchArbiter,
            ServicePhase::QueryArbiter => ServiceAction::QueryArbiter,
            ServicePhase::ReadUser => ServiceAction::ReadUser,
            ServicePhase::ResolveAccount => ServiceAction::ResolveAccount,
            ServicePhase::ReadUserIds { .. } => ServiceAction::ReadUserIds,
            ServicePhase::ReadGroupIds { .. } => ServiceAction::ReadGroupIds,
            ServicePhase::ReadCapabilities { .. } => ServiceAction::ReadCapabilities,
            ServicePhase::DropCapabilities { .. } => ServiceAction::DropCapabilities,
            ServicePhase::RecheckCapabilities { .. } => ServiceAction::ReadCapabilities,
            ServicePhase::LoadRegistry { uid } => ServiceAction::LoadRegistry(
                match self.mode {
                    ServiceMode::Session => RegistryDirectory::User(user_runtime_directory(uid)),
                    ServiceMode::System => RegistryDirectory::System,
                },
            ),
            ServicePhase::Connect { .. } => ServiceAction::Connect(self.mode.public_bus()),
            ServicePhase::StartManager { uid } => ServiceAction::StartManager(
                match self.mode {
                    ServiceMode::Session => MediaRuntime::for_user(uid),
                    ServiceMode::System => system_media_runtime(uid),
                },
            ),
            ServicePhase::Register => ServiceAction::Register(self.mode.public_bus()),
            ServicePhase::AcquireName => ServiceAction::AcquireName,
            ServicePhase::Serve => ServiceAction::Serve,
            ServicePhase::StopManager { .. } => ServiceAction::StopManager,
            ServicePhase::Join { task, .. } => ServiceAction::Join(task),
            ServicePhase::ReleaseName { .. } => ServiceAction::ReleaseName,
        }
    }

    fn step(self, phase: ServicePhase) -> (progress: ServiceProgress)
        ensures
            service_goes_to(self, phase, progress),
    {
        ServiceProgress::Next(ServiceRun { mode: self.mode, phase })
    }

    fn join(self, ended: Option<ServiceTask>, waited: Option<ServiceTask>) -> (progress:
        ServiceProgress)
        ensures
            goes_on_joining(self, ended, waited, progress),
    {
        match task_to_join(ended, waited) {
            Some(task) => self.step(ServicePhase::Join { ended, task }),
            None => self.step(ServicePhase::ReleaseName { ended }),
        }
    }

    /// Go on after a phase that only can succeed or fail.
    fn done(self, done: Result<(), String>) -> (progress: ServiceProgress)
        requires
            plain(self.phase),
        ensures
            match done {
                Err(text) => fails_about(progress, failed_about(self), text@),
                Ok(_) => service_goes_to(self, phase_after(self.phase), progress),
            },
    {
        if let Err(text) = done {
            let context = match (self.phase, self.mode) {
                (ServicePhase::Connect { .. }, ServiceMode::Session) => {
                    "connect to the session bus"
                },
                (ServicePhase::Connect { .. }, ServiceMode::System) => "connect to the system bus",
                (phase, _) => phase.label(),
            };
            return about(context, text);
        }
        match self.phase {
            ServicePhase::ConnectArbiter => self.step(ServicePhase::CreateArbiter),
            ServicePhase::CreateArbiter => self.step(ServicePhase::WatchArbiter),
            ServicePhase::WatchArbiter => self.step(ServicePhase::QueryArbiter),
            ServicePhase::DropCapabilities { account } => self.step(
                ServicePhase::RecheckCapabilities { account },
            ),
            ServicePhase::LoadRegistry { uid } => self.step(ServicePhase::Connect { uid }),
            ServicePhase::Connect { uid } => self.step(ServicePhase::StartManager { uid }),
            ServicePhase::StartManager { .. } => self.step(ServicePhase::Register),
            ServicePhase::Register => self.step(ServicePhase::AcquireName),
            ServicePhase::AcquireName => self.step(ServicePhase::Serve),
            phase => self.step(phase),
        }
    }

    /// Go on with what came of a phase.
    pub fn proceed(self, reply: ServiceReply) -> (progress: ServiceProgress)
        ensures
            service_reacts(self, reply, progress),
    {
        match (self.phase, reply) {
            (ServicePhase::QueryArbiter, ServiceReply::Owned(owned)) => match owned {
                Err(text) => about(self.phase.label(), text),
                Ok(true) => ServiceProgress::Ended,
                Ok(false) => self.step(ServicePhase::ReadUser),
            },
            (ServicePhase::ReadUser, ServiceReply::User(uid)) => self.step(
                ServicePhase::LoadRegistry { uid },
            ),
            (ServicePhase::ResolveAccount, ServiceReply::Account(found)) => match found {
                Err(text) => about(self.phase.label(), text),
                Ok(installed) => match service_account(installed) {
                    Err(text) => because(text),
                    Ok(account) => self.step(ServicePhase::ReadUserIds { account }),
                },
            },
            (ServicePhase::ReadUserIds { account }, ServiceReply::Ids(ids)) => match ids {
                Err(text) => about(self.phase.label(), text),
                Ok(ids) => match require_user_identity(account, ids) {
                    Err(text) => because(text.as_str()),
                    Ok(()) => self.step(ServicePhase::ReadGroupIds { account }),
                },
            },
            (ServicePhase::ReadGroupIds { account }, ServiceReply::Ids(ids)) => match ids {
                Err(text) => about(self.phase.label(), text),
                Ok(ids) => match require_group_identity(account, ids) {
                    Err(text) => because(text.as_str()),
                    Ok(()) => self.step(ServicePhase::ReadCapabilities { account }),
                },
            },
            (ServicePhase::ReadCapabilities { account }, ServiceReply::Capabilities(read)) => {
                match read {
                    Err(text) => about(self.phase.label(), text),
                    Ok(words) => match drop_inheritable_process_capabilities(words.as_slice()) {
                        Err(text) => because(text),
                        Ok(true) => self.step(ServicePhase::DropCapabilities { account }),
                        Ok(false) => self.step(ServicePhase::RecheckCapabilities { account }),
                    },
                }
            },
            (ServicePhase::RecheckCapabilities { account }, ServiceReply::Capabilities(read)) => {
                match read {
                    Err(text) => about(self.phase.label(), text),
                    Ok(words) => match require_no_capabilities(words.as_slice()) {
                        Err(text) => because(text),
                        Ok(()) => self.step(ServicePhase::LoadRegistry { uid: account.uid }),
                    },
                }
            },
            (ServicePhase::Serve, ServiceReply::Ended(end)) => match end {
                ServeEnd::Signal(Err(text)) => about("wait for termination signal", text),
                ServeEnd::Task(task, Err(text)) => about(join_label(task), text),
                ServeEnd::Task(_, Ok(Err(text))) => because(text.as_str()),
                ServeEnd::Task(task, Ok(Ok(()))) => self.step(
                    ServicePhase::StopManager { ended: Some(task) },
                ),
                ServeEnd::Signal(Ok(())) | ServeEnd::SystemServiceAppeared => self.step(
                    ServicePhase::StopManager { ended: None },
                ),
            },
            (ServicePhase::StopManager { ended }, ServiceReply::Done(done)) => match done {
                Err(text) => about(self.phase.label(), text),
                Ok(()) => self.join(ended, None),
            },
            (ServicePhase::Join { ended, task }, ServiceReply::Joined(joined)) => match joined {
                Err(text) => about(join_label(task), text),
                Ok(Err(text)) => because(text.as_str()),
                Ok(Ok(())) => self.join(ended, Some(task)),
            },
            (ServicePhase::ReleaseName { ended }, ServiceReply::Done(_)) => {
                match service_result(ended) {
                    Ok(()) => ServiceProgress::Ended,
                    Err(text) => because(text.as_str()),
                }
            },
            (
                ServicePhase::ConnectArbiter
                | ServicePhase::CreateArbiter
                | ServicePhase::WatchArbiter
                | ServicePhase::DropCapabilities { .. }
                | ServicePhase::LoadRegistry { .. }
                | ServicePhase::Connect { .. }
                | ServicePhase::StartManager { .. }
                | ServicePhase::Register
                | ServicePhase::AcquireName,
                ServiceReply::Done(done),
            ) => self.done(done),
            _ => ServiceProgress::Next(self),
        }
    }
}

/// Nothing of a service for one login session starts where the system has a
/// service, and nothing of the service of the system starts before its process
/// is without any capability.
pub proof fn services_start_where_they_may(
    run: ServiceRun,
    reply: ServiceReply,
    next: ServiceRun,
)
    requires
        service_reacts(run, reply, ServiceProgress::Next(next)),
        !(run.phase is LoadRegistry),
        !(run.phase is ReadUser),
    ensures
        next.phase is ReadUser ==> reply == ServiceReply::Owned(Ok(false)),
        next.phase is LoadRegistry ==> (reply matches ServiceReply::Capabilities(Ok(words))
            && no_capabilities(words@)),
{
}

/// A service that was up ends only after its manager was stopped, every task
/// was waited for and its name was given back. A failure of one of these ends
/// it at once.
pub proof fn services_stop_in_order(
    run: ServiceRun,
    reply: ServiceReply,
    progress: ServiceProgress,
)
    requires
        run.wf(),
        service_reacts(run, reply, progress),
    ensures
        progress is Ended ==> run.phase is QueryArbiter || run.phase is ReleaseName,
        progress matches ServiceProgress::Next(next) ==> {
            &&& next.wf()
            &&& next.phase is ReleaseName && !(run.phase is ReleaseName) ==> {
                &&& run.phase is Join
                &&& run.phase->Join_task == (if next.phase->ReleaseName_ended == Some(
                    ServiceTask::LifecycleSignal,
                ) {
                    ServiceTask::InventorySignal
                } else {
                    ServiceTask::LifecycleSignal
                })
            }
            &&& next.phase is Join && !(run.phase is Join) ==> run.phase is StopManager
            &&& next.phase is StopManager && !(run.phase is StopManager) ==> run.phase is Serve
        },
{
}

/// A service of a session first looks whether the system has one; a service of the system first
/// finds its account.
pub proof fn services_begin_by_their_mode()
    ensures
        first_phase(ServiceMode::Session) is ConnectArbiter,
        first_phase(ServiceMode::System) is ResolveAccount,
{
}

/// A service goes on in its own mode, and what went well leads to the next phase: the user or
/// the account that was found stays the one that it runs as.
pub proof fn services_go_on_in_order(
    run: ServiceRun,
    reply: ServiceReply,
    progress: ServiceProgress,
)
    requires
        service_reacts(run, reply, progress),
    ensures
        progress matches ServiceProgress::Next(next) ==> next.mode == run.mode,
        reply == ServiceReply::Done(Ok(())) ==> match run.phase {
            ServicePhase::ConnectArbiter => progress->Next_0.phase is CreateArbiter,
            ServicePhase::CreateArbiter => progress->Next_0.phase is WatchArbiter,
            ServicePhase::WatchArbiter => progress->Next_0.phase is QueryArbiter,
            ServicePhase::DropCapabilities { account } => progress->Next_0.phase == (
            ServicePhase::RecheckCapabilities { account }),
            ServicePhase::LoadRegistry { uid } => progress->Next_0.phase == (ServicePhase::Connect {
                uid,
            }),
            ServicePhase::Connect { uid } => progress->Next_0.phase == (
            ServicePhase::StartManager { uid }),
            ServicePhase::StartManager { .. } => progress->Next_0.phase is Register,
            ServicePhase::Register => progress->Next_0.phase is AcquireName,
            ServicePhase::AcquireName => progress->Next_0.phase is Serve,
            ServicePhase::StopManager { ended } => progress->Next_0.phase is Join
                && progress->Next_0.phase->Join_ended == ended,
            ServicePhase::ReleaseName { ended } => progress is Ended <==> ended is None,
            _ => progress == ServiceProgress::Next(run),
        },
        run.phase is QueryArbiter && reply is Owned ==> (progress is Ended <==> reply->Owned_0 is Ok
            && reply->Owned_0->Ok_0) && (progress is Failed <==> reply->Owned_0 is Err),
        run.phase is ReadUser && reply is User ==> progress->Next_0.phase == (
        ServicePhase::LoadRegistry { uid: reply->User_0 }),
        run.phase is ResolveAccount && reply is Account ==> (progress is Next
            <==> reply->Account_0 is Ok && reply->Account_0->Ok_0 is Some
            && reply->Account_0->Ok_0->0.uid != 0),
        run.phase is ResolveAccount && reply is Account && progress is Next
            ==> progress->Next_0.phase == (ServicePhase::ReadUserIds {
            account: reply->Account_0->Ok_0->0,
        }),
        run.phase matches ServicePhase::ReadUserIds { account } ==> (reply is Ids ==> (progress
            is Next <==> reply->Ids_0 is Ok && reply->Ids_0->Ok_0.real == account.uid
            && reply->Ids_0->Ok_0.effective == account.uid && reply->Ids_0->Ok_0.saved
            == account.uid) && (progress is Next ==> progress->Next_0.phase == (
        ServicePhase::ReadGroupIds { account }))),
        run.phase matches ServicePhase::ReadGroupIds { account } ==> (reply is Ids ==> (progress
            is Next <==> reply->Ids_0 is Ok && reply->Ids_0->Ok_0.real == account.gid
            && reply->Ids_0->Ok_0.effective == account.gid && reply->Ids_0->Ok_0.saved
            == account.gid) && (progress is Next ==> progress->Next_0.phase == (
        ServicePhase::ReadCapabilities { account }))),
        run.phase matches ServicePhase::RecheckCapabilities { account } ==> (reply is Capabilities
            && progress is Next ==> progress->Next_0.phase == (ServicePhase::LoadRegistry {
            uid: account.uid,
        })),
        reply matches ServiceReply::Done(Err(text)) ==> (run.phase is ReleaseName
            || !(progress is Ended)),
{
}

/// A failed step ends the service with its reason; only a name that cannot be given back does
/// not.
pub proof fn failed_steps_end_the_service(run: ServiceRun, text: String, progress: ServiceProgress)
    requires
        service_reacts(run, ServiceReply::Done(Err(text)), progress),
        run.phase is ConnectArbiter || run.phase is CreateArbiter || run.phase is WatchArbiter
            || run.phase is DropCapabilities || run.phase is LoadRegistry || run.phase is Connect
            || run.phase is StartManager || run.phase is Register || run.phase is AcquireName
            || run.phase is StopManager,
    ensures
        progress is Failed,
        progress->Failed_0.cause@ == text@,
        progress->Failed_0.context is Some,
{
}

/// A served service ends for a signal, for a service of the system, or for a task that ended by
/// itself; the task is remembered, and makes the end a failure.
pub proof fn served_services_end_for_a_reason(
    run: ServiceRun,
    end: ServeEnd,
    progress: ServiceProgress,
)
    requires
        run.phase is Serve,
        service_reacts(run, ServiceReply::Ended(end), progress),
    ensures
        progress is Next || progress is Failed,
        progress is Next ==> progress->Next_0.phase is StopManager,
        progress is Next ==> match end {
            ServeEnd::Task(task, _) => progress->Next_0.phase->StopManager_ended == Some(task),
            _ => progress->Next_0.phase->StopManager_ended is None,
        },
        progress is Failed <==> match end {
            ServeEnd::Signal(signal) => signal is Err,
            ServeEnd::Task(_, said) => said is Err || said->Ok_0 is Err,
            ServeEnd::SystemServiceAppeared => false,
        },
{
}

/// Each phase asks for its own action, on the bus and as the user of the service.
pub proof fn phases_ask_as_their_user(action: ServiceAction, run: ServiceRun)
    requires
        service_asks(action, run),
    ensures
        action is Connect <==> run.phase is Connect,
        action is Connect ==> (action->Connect_0 is System <==> run.mode is System),
        action is Register <==> run.phase is Register,
        action is Register ==> (action->Register_0 is System <==> run.mode is System),
        action is StartManager <==> run.phase is StartManager,
        action is StartManager ==> action->StartManager_0.server_uid == run.phase->StartManager_uid
            && action->StartManager_0.capture_source is Renderer,
        action is LoadRegistry <==> run.phase is LoadRegistry,
        action is LoadRegistry ==> (action->LoadRegistry_0 is System <==> run.mode is System),
        action is AcquireName <==> run.phase is AcquireName,
        action is Serve <==> run.phase is Serve,
        action is StopManager <==> run.phase is StopManager,
        action is ReleaseName <==> run.phase is ReleaseName,
        action is Join <==> run.phase is Join,
        action is Join ==> action->Join_0 == run.phase->Join_task,
        action is DropCapabilities <==> run.phase is DropCapabilities,
        action is ResolveAccount <==> run.phase is ResolveAccount,
        action is QueryArbiter <==> run.phase is QueryArbiter,
{
}

/// The text of a failure is what was being done, if that is known, and then the cause.
pub proof fn failure_texts_end_in_the_cause(failure: ServiceFailure)
    ensures
        failure.context is None ==> failure.text() == failure.cause@,
        failure.context matches Some(context) ==> context@.is_prefix_of(failure.text())
            && failure.text().len() == context@.len() + 2 + failure.cause@.len(),
        failure.text().skip(failure.text().len() - failure.cause@.len()) == failure.cause@,
{
    reveal_strlit(": ");
    let text = failure.text();
    assert(text.skip(text.len() - failure.cause@.len()) =~= failure.cause@);
}

/// The name of a phase says what is done in it.
pub proof fn phases_are_named_by_their_work(value: ServicePhase)
    ensures
        value is ConnectArbiter ==> "connect to the system bus for service arbitration"@.is_prefix_of(value.about()),
        value is CreateArbiter ==> "create the system bus proxy for service arbitration"@.is_prefix_of(value.about()),
        value is WatchArbiter ==> "watch for the Pronk system service"@.is_prefix_of(value.about()),
        value is QueryArbiter ==> "query the Pronk system service"@.is_prefix_of(value.about()),
        value is ResolveAccount ==> "resolve the pronk system account"@.is_prefix_of(value.about()),
        value is ReadUserIds ==> "read system-service user IDs"@.is_prefix_of(value.about()),
        value is ReadGroupIds ==> "read system-service group IDs"@.is_prefix_of(value.about()),
        value is ReadCapabilities ==> "read system-service capabilities"@.is_prefix_of(
            value.about(),
        ),
        value is RecheckCapabilities ==> "read system-service capabilities"@.is_prefix_of(
            value.about(),
        ),
        value is DropCapabilities ==> "drop inherited system-service capabilities"@.is_prefix_of(
            value.about(),
        ),
        value is LoadRegistry ==> "load the installed backend registry"@.is_prefix_of(
            value.about(),
        ),
        value is StartManager ==> "start the Pronk manager"@.is_prefix_of(value.about()),
        value is Register ==> "register the public manager object"@.is_prefix_of(value.about()),
        value is AcquireName ==> "acquire the Pronk bus name"@.is_prefix_of(value.about()),
        value is StopManager ==> "stop the Pronk manager"@.is_prefix_of(value.about()),
{
    let text = value.about();
    if value is ConnectArbiter {
        assert("connect to the system bus for service arbitration"@ =~= text.subrange(
            0,
            "connect to the system bus for service arbitration"@.len() as int,
        ));
    }
    if value is CreateArbiter {
        assert("create the system bus proxy for service arbitration"@ =~= text.subrange(
            0,
            "create the system bus proxy for service arbitration"@.len() as int,
        ));
    }
    if value is WatchArbiter {
        assert("watch for the Pronk system service"@ =~= text.subrange(
            0,
            "watch for the Pronk system service"@.len() as int,
        ));
    }
    if value is QueryArbiter {
        assert("query the Pronk system service"@ =~= text.subrange(
            0,
            "query the Pronk system service"@.len() as int,
        ));
    }
    if value is ResolveAccount {
        assert("resolve the pronk system account"@ =~= text.subrange(
            0,
            "resolve the pronk system account"@.len() as int,
        ));
    }
    if value is ReadUserIds {
        assert("read system-service user IDs"@ =~= text.subrange(
            0,
            "read system-service user IDs"@.len() as int,
        ));
    }
    if value is ReadGroupIds {
        assert("read system-service group IDs"@ =~= text.subrange(
            0,
            "read system-service group IDs"@.len() as int,
        ));
    }
    if value is ReadCapabilities {
        assert("read system-service capabilities"@ =~= text.subrange(
            0,
            "read system-service capabilities"@.len() as int,
        ));
    }
    if value is RecheckCapabilities {
        assert("read system-service capabilities"@ =~= text.subrange(
            0,
            "read system-service capabilities"@.len() as int,
        ));
    }
    if value is DropCapabilities {
        assert("drop inherited system-service capabilities"@ =~= text.subrange(
            0,
            "drop inherited system-service capabilities"@.len() as int,
        ));
    }
    if value is LoadRegistry {
        assert("load the installed backend registry"@ =~= text.subrange(
            0,
            "load the installed backend registry"@.len() as int,
        ));
    }
    if value is StartManager {
        assert("start the Pronk manager"@ =~= text.subrange(
            0,
            "start the Pronk manager"@.len() as int,
        ));
    }
    if value is Register {
        assert("register the public manager object"@ =~= text.subrange(
            0,
            "register the public manager object"@.len() as int,
        ));
    }
    if value is AcquireName {
        assert("acquire the Pronk bus name"@ =~= text.subrange(
            0,
            "acquire the Pronk bus name"@.len() as int,
        ));
    }
    if value is StopManager {
        assert("stop the Pronk manager"@ =~= text.subrange(
            0,
            "stop the Pronk manager"@.len() as int,
        ));
    }
}

} // verus!
