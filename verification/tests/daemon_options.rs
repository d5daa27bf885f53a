use pronk::caller::PublicBus;
use pronk::daemon_options::{parse, Command, USAGE};
use pronk::service::{
    drop_inheritable_process_capabilities, require_no_capabilities,
    require_system_service_identity, service_account, service_result, system_media_runtime,
    task_to_join, user_runtime_directory, CapabilityWord, ProcessIds, ServiceAccount, ServiceMode,
    ServiceTask,
};
use pronk::service::sequence::{
    RegistryDirectory, ServeEnd, ServiceAction, ServicePhase, ServiceProgress, ServiceReply,
    ServiceRun,
};

fn parse_words(words: &[&str]) -> Result<Command, &'static str> {
    parse(&words.iter().map(|word| String::from(*word)).collect::<Vec<_>>())
}

fn mode_of(words: &[&str]) -> Result<ServiceMode, &'static str> {
    ServiceMode::parse(&words.iter().map(|word| String::from(*word)).collect::<Vec<_>>())
}

#[test]
fn no_arguments_start_the_service() {
    assert_eq!(parse_words(&[]), Ok(Command::Run));
}

#[test]
fn information_commands_do_not_request_a_service_start() {
    assert_eq!(parse_words(&["--help"]), Ok(Command::Help));
    assert_eq!(parse_words(&["--version"]), Ok(Command::Version));
}

#[test]
fn unknown_missing_and_repeated_settings_are_rejected() {
    for words in [
        vec!["--capture-source", "renderer"],
        vec!["--capture-source", "final-image"],
        vec!["--unknown"],
    ] {
        assert_eq!(parse_words(&words), Err(USAGE));
    }
}

#[test]
fn the_mode_is_given_at_most_once() {
    assert_eq!(mode_of(&[]), Ok(ServiceMode::Session));
    assert_eq!(mode_of(&["--session"]), Ok(ServiceMode::Session));
    assert_eq!(mode_of(&["--system"]), Ok(ServiceMode::System));
    assert_eq!(
        mode_of(&["--system", "--system"]),
        Err("usage: pronkd [--session|--system]")
    );
    assert!(mode_of(&["--both"]).is_err());
    assert_eq!(ServiceMode::System.public_bus(), PublicBus::System);
    assert_eq!(ServiceMode::Session.label(), "session");
}

#[test]
fn the_system_service_runs_as_its_account_only() {
    let account = ServiceAccount { uid: 990, gid: 980 };
    let ids = |real: u32, effective: u32, saved: u32| ProcessIds {
        real,
        effective,
        saved,
    };
    assert_eq!(
        service_account(None),
        Err("the pronk system account is not installed")
    );
    assert_eq!(
        service_account(Some(ServiceAccount { uid: 0, gid: 0 })),
        Err("the pronk system account must not be root")
    );
    assert_eq!(service_account(Some(account)), Ok(account));
    assert!(require_system_service_identity(
        account,
        ids(990, 990, 990),
        ids(980, 980, 980)
    )
    .is_ok());
    assert_eq!(
        require_system_service_identity(account, ids(0, 990, 990), ids(980, 980, 980)),
        Err("system mode requires real/effective/saved uid 990 (pronk), found 0/990/990".into())
    );
    assert_eq!(
        require_system_service_identity(account, ids(990, 990, 990), ids(980, 0, 980)),
        Err("system mode requires real/effective/saved gid 980, found 980/0/980".into())
    );
    assert_eq!(user_runtime_directory(1000), "/run/user/1000");
    assert_eq!(system_media_runtime(990).directory, "/run/pronk");
}

#[test]
fn the_system_service_holds_no_capabilities() {
    let word = |effective: u32, permitted: u32, inheritable: u32| CapabilityWord {
        effective,
        permitted,
        inheritable,
    };
    let none = [word(0, 0, 0); 2];
    assert_eq!(drop_inheritable_process_capabilities(&none), Ok(false));
    assert_eq!(
        drop_inheritable_process_capabilities(&[word(0, 0, 0), word(0, 0, 4)]),
        Ok(true)
    );
    assert!(drop_inheritable_process_capabilities(&[word(0, 1, 0), word(0, 0, 0)]).is_err());
    assert!(drop_inheritable_process_capabilities(&[word(0, 0, 1), word(1, 0, 0)]).is_err());
    assert!(require_no_capabilities(&none).is_ok());
    assert_eq!(
        require_no_capabilities(&[word(0, 0, 0), word(0, 0, 4)]),
        Err("system mode could not drop all process capabilities")
    );
}

#[test]
fn a_task_that_ends_by_itself_is_a_failure() {
    let inventory = Some(ServiceTask::InventorySignal);
    let lifecycle = Some(ServiceTask::LifecycleSignal);
    assert_eq!(task_to_join(None, None), inventory);
    assert_eq!(task_to_join(None, inventory), lifecycle);
    assert_eq!(task_to_join(None, lifecycle), None);
    assert_eq!(task_to_join(inventory, None), lifecycle);
    assert_eq!(task_to_join(lifecycle, None), inventory);
    assert_eq!(task_to_join(lifecycle, inventory), None);
    assert!(service_result(None).is_ok());
    assert_eq!(
        service_result(Some(ServiceTask::LifecycleSignal)),
        Err("lifecycle signal task stopped unexpectedly".into())
    );
}

fn next(run: ServiceRun, reply: ServiceReply) -> ServiceRun {
    match run.proceed(reply) {
        ServiceProgress::Next(next) => next,
        _ => panic!("the service ended early"),
    }
}

fn failure(run: ServiceRun, reply: ServiceReply) -> String {
    match run.proceed(reply) {
        ServiceProgress::Failed(failure) => failure.to_text(),
        _ => panic!("the failure was ignored"),
    }
}

fn done() -> ServiceReply {
    ServiceReply::Done(Ok(()))
}

fn at(mode: ServiceMode, phase: ServicePhase) -> ServiceRun {
    ServiceRun { mode, phase }
}

#[test]
fn a_session_service_steps_back_for_the_system() {
    let run = ServiceRun::run(ServiceMode::Session);
    assert_eq!(run.action(), ServiceAction::ConnectArbiter);
    let run = next(next(next(run, done()), done()), done());
    assert_eq!(run.action(), ServiceAction::QueryArbiter);
    assert_eq!(
        run.proceed(ServiceReply::Owned(Ok(true))),
        ServiceProgress::Ended
    );
    assert_eq!(
        failure(run, ServiceReply::Owned(Err("lost".into()))),
        "query the Pronk system service: lost"
    );
    let run = next(run, ServiceReply::Owned(Ok(false)));
    let run = next(run, ServiceReply::User(1000));
    assert_eq!(
        run.action(),
        ServiceAction::LoadRegistry(RegistryDirectory::User("/run/user/1000".into()))
    );
    let run = next(run, done());
    assert_eq!(run.action(), ServiceAction::Connect(PublicBus::Session));
    assert_eq!(
        failure(run, ServiceReply::Done(Err("lost".into()))),
        "connect to the session bus: lost"
    );
    let run = next(run, done());
    let ServiceAction::StartManager(runtime) = run.action() else {
        panic!("no manager is started");
    };
    assert_eq!(runtime.directory, "/run/user/1000/pronk/media");
    let run = next(run, done());
    assert_eq!(run.action(), ServiceAction::Register(PublicBus::Session));
    let run = next(next(run, done()), done());
    assert_eq!(run.action(), ServiceAction::Serve);
}

#[test]
fn a_system_service_gives_its_capabilities_up() {
    let account = ServiceAccount { uid: 990, gid: 980 };
    let same = |id: u32| ProcessIds {
        real: id,
        effective: id,
        saved: id,
    };
    let words = |inheritable: u32| {
        ServiceReply::Capabilities(Ok(vec![CapabilityWord {
            effective: 0,
            permitted: 0,
            inheritable,
        }]))
    };
    let run = ServiceRun::run(ServiceMode::System);
    assert_eq!(
        failure(run, ServiceReply::Account(Ok(None))),
        "the pronk system account is not installed"
    );
    let run = next(run, ServiceReply::Account(Ok(Some(account))));
    assert_eq!(
        failure(run, ServiceReply::Ids(Ok(same(0)))),
        "system mode requires real/effective/saved uid 990 (pronk), found 0/0/0"
    );
    let run = next(run, ServiceReply::Ids(Ok(same(990))));
    let run = next(run, ServiceReply::Ids(Ok(same(980))));
    assert_eq!(
        next(run, words(0)).phase,
        ServicePhase::RecheckCapabilities { account }
    );
    let run = next(run, words(4));
    assert_eq!(run.action(), ServiceAction::DropCapabilities);
    let run = next(run, done());
    assert_eq!(run.action(), ServiceAction::ReadCapabilities);
    assert_eq!(
        failure(run, words(4)),
        "system mode could not drop all process capabilities"
    );
    let run = next(run, words(0));
    assert_eq!(
        run.action(),
        ServiceAction::LoadRegistry(RegistryDirectory::System)
    );
    let run = next(run, done());
    assert_eq!(run.action(), ServiceAction::Connect(PublicBus::System));
    let ServiceAction::StartManager(runtime) = next(run, done()).action() else {
        panic!("no manager is started");
    };
    assert_eq!(runtime.directory, "/run/pronk");
    assert_eq!(runtime.server_uid, 990);
}

#[test]
fn a_service_stops_in_order() {
    let serving = at(ServiceMode::Session, ServicePhase::Serve);
    let run = next(serving, ServiceReply::Ended(ServeEnd::Signal(Ok(()))));
    assert_eq!(run.action(), ServiceAction::StopManager);
    let run = next(run, done());
    assert_eq!(
        run.action(),
        ServiceAction::Join(ServiceTask::InventorySignal)
    );
    let run = next(run, ServiceReply::Joined(Ok(Ok(()))));
    assert_eq!(
        run.action(),
        ServiceAction::Join(ServiceTask::LifecycleSignal)
    );
    assert_eq!(
        failure(run, ServiceReply::Joined(Err("panicked".into()))),
        "join lifecycle signal task: panicked"
    );
    let run = next(run, ServiceReply::Joined(Ok(Ok(()))));
    assert_eq!(run.action(), ServiceAction::ReleaseName);
    assert_eq!(
        run.proceed(ServiceReply::Done(Err("kept".into()))),
        ServiceProgress::Ended
    );

    let run = next(
        serving,
        ServiceReply::Ended(ServeEnd::Task(ServiceTask::InventorySignal, Ok(Ok(())))),
    );
    let run = next(run, done());
    assert_eq!(
        run.action(),
        ServiceAction::Join(ServiceTask::LifecycleSignal)
    );
    let run = next(run, ServiceReply::Joined(Ok(Ok(()))));
    assert_eq!(
        failure(run, done()),
        "inventory signal task stopped unexpectedly"
    );
    assert_eq!(
        failure(
            serving,
            ServiceReply::Ended(ServeEnd::Task(
                ServiceTask::LifecycleSignal,
                Ok(Err("emit: lost".into()))
            ))
        ),
        "emit: lost"
    );
    assert_eq!(
        failure(
            serving,
            ServiceReply::Ended(ServeEnd::Signal(Err("lost".into())))
        ),
        "wait for termination signal: lost"
    );
    assert_eq!(
        next(
            serving,
            ServiceReply::Ended(ServeEnd::SystemServiceAppeared)
        )
        .phase,
        ServicePhase::StopManager { ended: None }
    );
}
