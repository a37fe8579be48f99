use backend_supervisor::platform::Platform;
use backend_supervisor::protocol::{
    Action, Event, LaunchError, Operation, Outcome, Slot, SupervisedProcess,
};
use backend_supervisor::supervisor::Supervisor;

type Root = &'static str;
type Handle = u8;

fn process(pid: u32, handle: Handle) -> SupervisedProcess<Handle> {
    SupervisedProcess { pid, handle }
}

fn running(platform: Platform, pid: u32, handle: Handle) -> Supervisor<Handle> {
    let mut supervisor: Supervisor<Handle> = Supervisor::new(platform);
    assert_eq!(supervisor.launch::<Root>(), Action::LocateRoot);
    assert!(matches!(
        supervisor.step(Event::RootLocated(Some("/res"))),
        Action::Spawn { .. }
    ));
    assert_eq!(
        supervisor.step::<Root>(Event::Spawned(Some(process(pid, handle)))),
        Action::Finish(Outcome::Started { pid })
    );
    supervisor
}

#[test]
fn new_supervisor_is_idle_and_absent() {
    let supervisor: Supervisor<Handle> = Supervisor::new(Platform::Windows);
    assert_eq!(supervisor.slot(), Slot::Absent);
    assert!(supervisor.is_idle());
    assert_eq!(supervisor.platform(), Platform::Windows);
}

#[test]
fn launch_asks_for_the_root_then_for_the_spawn() {
    let mut supervisor: Supervisor<Handle> = Supervisor::new(Platform::Linux);
    assert_eq!(supervisor.launch::<Root>(), Action::LocateRoot);
    assert!(!supervisor.is_idle());
    assert_eq!(supervisor.slot(), Slot::Absent);
    assert_eq!(
        supervisor.step(Event::RootLocated(Some("/opt/app/resources"))),
        Action::Spawn { root: "/opt/app/resources", relative_path: "astrbot-backend" }
    );
    assert!(!supervisor.is_idle());
    assert_eq!(
        supervisor.step::<Root>(Event::Spawned(Some(process(4211, 7)))),
        Action::Finish(Outcome::Started { pid: 4211 })
    );
    assert!(supervisor.is_idle());
    assert_eq!(supervisor.slot(), Slot::Running { pid: 4211 });
}

#[test]
fn spawn_names_the_executable_of_the_platform() {
    for (platform, expected) in [
        (Platform::MacOs, "astrbot-backend.app/Contents/MacOS/main"),
        (Platform::Windows, "astrbot-backend.exe"),
        (Platform::Linux, "astrbot-backend"),
    ] {
        let mut supervisor: Supervisor<Handle> = Supervisor::new(platform);
        assert_eq!(supervisor.restart::<Root>(), Action::LocateRoot);
        assert_eq!(
            supervisor.step(Event::RootLocated(Some("root"))),
            Action::Spawn { root: "root", relative_path: expected }
        );
    }
}

#[test]
fn launch_without_root_reports_resource_root_unavailable() {
    let mut supervisor: Supervisor<Handle> = Supervisor::new(Platform::Linux);
    assert_eq!(supervisor.launch::<Root>(), Action::LocateRoot);
    assert_eq!(
        supervisor.step::<Root>(Event::RootLocated(None)),
        Action::Finish(Outcome::Failed(LaunchError::ResourceRootUnavailable))
    );
    assert!(supervisor.is_idle());
    assert_eq!(supervisor.slot(), Slot::Absent);
}

#[test]
fn launch_with_failed_spawn_reports_spawn_failed() {
    let mut supervisor: Supervisor<Handle> = Supervisor::new(Platform::Linux);
    assert_eq!(supervisor.launch::<Root>(), Action::LocateRoot);
    assert!(matches!(
        supervisor.step(Event::RootLocated(Some("/res"))),
        Action::Spawn { .. }
    ));
    assert_eq!(
        supervisor.step::<Root>(Event::Spawned(None)),
        Action::Finish(Outcome::Failed(LaunchError::SpawnFailed))
    );
    assert!(supervisor.is_idle());
    assert_eq!(supervisor.slot(), Slot::Absent);
}

#[test]
fn launch_while_running_is_turned_away() {
    let mut supervisor = running(Platform::Linux, 10, 1);
    assert_eq!(
        supervisor.launch::<Root>(),
        Action::Reject(Event::Requested(Operation::Launch))
    );
    assert!(supervisor.is_idle());
    assert_eq!(supervisor.slot(), Slot::Running { pid: 10 });
}

#[test]
fn restart_hands_the_old_process_out_before_anything_else() {
    let mut supervisor = running(Platform::Linux, 10, 1);
    assert_eq!(supervisor.restart::<Root>(), Action::Terminate(process(10, 1)));
    assert_eq!(supervisor.slot(), Slot::Absent);
    assert!(!supervisor.is_idle());
    assert_eq!(supervisor.step::<Root>(Event::Terminated), Action::LocateRoot);
    assert_eq!(
        supervisor.step(Event::RootLocated(Some("/res"))),
        Action::Spawn { root: "/res", relative_path: "astrbot-backend" }
    );
    assert_eq!(
        supervisor.step::<Root>(Event::Spawned(Some(process(11, 2)))),
        Action::Finish(Outcome::Started { pid: 11 })
    );
    assert_eq!(supervisor.slot(), Slot::Running { pid: 11 });
}

#[test]
fn shutdown_hands_the_process_out_and_clears_the_slot() {
    let mut supervisor = running(Platform::MacOs, 99, 5);
    assert_eq!(supervisor.shutdown::<Root>(), Action::Terminate(process(99, 5)));
    assert_eq!(supervisor.slot(), Slot::Absent);
    assert!(!supervisor.is_idle());
    assert_eq!(
        supervisor.step::<Root>(Event::Terminated),
        Action::Finish(Outcome::Stopped)
    );
    assert!(supervisor.is_idle());
    assert_eq!(supervisor.slot(), Slot::Absent);
}

#[test]
fn shutdown_when_absent_is_a_no_op() {
    let mut supervisor: Supervisor<Handle> = Supervisor::new(Platform::Linux);
    assert_eq!(supervisor.shutdown::<Root>(), Action::Finish(Outcome::Stopped));
    assert!(supervisor.is_idle());
    assert_eq!(supervisor.slot(), Slot::Absent);
    assert_eq!(supervisor.shutdown::<Root>(), Action::Finish(Outcome::Stopped));
    assert_eq!(supervisor.slot(), Slot::Absent);
}

#[test]
fn request_methods_are_steps_with_a_request() {
    let mut by_method: Supervisor<Handle> = Supervisor::new(Platform::Linux);
    let mut by_step: Supervisor<Handle> = Supervisor::new(Platform::Linux);
    assert_eq!(
        by_method.launch::<Root>(),
        by_step.step::<Root>(Event::Requested(Operation::Launch))
    );
    assert_eq!(by_method.is_idle(), by_step.is_idle());

    let mut by_method = running(Platform::Linux, 3, 0);
    let mut by_step = running(Platform::Linux, 3, 0);
    assert_eq!(
        by_method.restart::<Root>(),
        by_step.step::<Root>(Event::Requested(Operation::Restart))
    );

    let mut by_method = running(Platform::Linux, 3, 0);
    let mut by_step = running(Platform::Linux, 3, 0);
    assert_eq!(
        by_method.shutdown::<Root>(),
        by_step.step::<Root>(Event::Requested(Operation::Shutdown))
    );
}

#[test]
fn reports_out_of_turn_are_handed_back_when_idle() {
    let mut supervisor = running(Platform::Linux, 10, 1);
    assert_eq!(
        supervisor.step::<Root>(Event::Terminated),
        Action::Reject(Event::Terminated)
    );
    assert_eq!(
        supervisor.step(Event::RootLocated(Some("/res"))),
        Action::Reject(Event::RootLocated(Some("/res")))
    );
    assert_eq!(
        supervisor.step::<Root>(Event::Spawned(Some(process(77, 9)))),
        Action::Reject(Event::Spawned(Some(process(77, 9))))
    );
    assert_eq!(
        supervisor.step::<Root>(Event::Spawned(None)),
        Action::Reject(Event::Spawned(None))
    );
    assert!(supervisor.is_idle());
    assert_eq!(supervisor.slot(), Slot::Running { pid: 10 });
}

#[test]
fn requests_are_handed_back_while_an_operation_is_under_way() {
    let mut supervisor = running(Platform::Linux, 10, 1);
    assert_eq!(supervisor.restart::<Root>(), Action::Terminate(process(10, 1)));
    for operation in [Operation::Launch, Operation::Restart, Operation::Shutdown] {
        assert_eq!(
            supervisor.step::<Root>(Event::Requested(operation)),
            Action::Reject(Event::Requested(operation))
        );
    }
    assert_eq!(supervisor.step::<Root>(Event::Terminated), Action::LocateRoot);
    for operation in [Operation::Launch, Operation::Restart, Operation::Shutdown] {
        assert_eq!(
            supervisor.step::<Root>(Event::Requested(operation)),
            Action::Reject(Event::Requested(operation))
        );
    }
    assert!(matches!(
        supervisor.step(Event::RootLocated(Some("/res"))),
        Action::Spawn { .. }
    ));
    for operation in [Operation::Launch, Operation::Restart, Operation::Shutdown] {
        assert_eq!(
            supervisor.step::<Root>(Event::Requested(operation)),
            Action::Reject(Event::Requested(operation))
        );
    }
    assert_eq!(
        supervisor.step::<Root>(Event::Spawned(Some(process(11, 2)))),
        Action::Finish(Outcome::Started { pid: 11 })
    );
    assert_eq!(supervisor.slot(), Slot::Running { pid: 11 });
}

#[test]
fn wrong_report_while_waiting_changes_nothing() {
    let mut supervisor: Supervisor<Handle> = Supervisor::new(Platform::Linux);
    assert_eq!(supervisor.launch::<Root>(), Action::LocateRoot);
    assert_eq!(
        supervisor.step::<Root>(Event::Spawned(Some(process(5, 5)))),
        Action::Reject(Event::Spawned(Some(process(5, 5))))
    );
    assert_eq!(
        supervisor.step::<Root>(Event::Terminated),
        Action::Reject(Event::Terminated)
    );
    assert_eq!(supervisor.slot(), Slot::Absent);
    assert!(matches!(
        supervisor.step(Event::RootLocated(Some("/res"))),
        Action::Spawn { .. }
    ));
    assert_eq!(
        supervisor.step(Event::RootLocated(Some("/other"))),
        Action::Reject(Event::RootLocated(Some("/other")))
    );
    assert_eq!(
        supervisor.step::<Root>(Event::Spawned(Some(process(6, 6)))),
        Action::Finish(Outcome::Started { pid: 6 })
    );
    assert_eq!(supervisor.slot(), Slot::Running { pid: 6 });
}

#[test]
fn termination_is_awaited_without_limit() {
    let mut supervisor = running(Platform::Linux, 10, 1);
    assert_eq!(supervisor.shutdown::<Root>(), Action::Terminate(process(10, 1)));
    for _ in 0..100 {
        assert_eq!(
            supervisor.shutdown::<Root>(),
            Action::Reject(Event::Requested(Operation::Shutdown))
        );
        assert!(!supervisor.is_idle());
    }
    assert_eq!(
        supervisor.step::<Root>(Event::Terminated),
        Action::Finish(Outcome::Stopped)
    );
}
