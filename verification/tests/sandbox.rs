use minion::linux::error::{Error, ErrorKind, IpcError};
use minion::linux::limits::{Driver, InternalResourceUsageData, ResourceLimits};
use minion::linux::sandbox::watchdog::{judge, watchdog, Event, Verdict};
use minion::linux::sandbox::{convert_shared_item, LinuxSandbox, SandboxState, TeardownStep};
use minion::linux::uid_alloc::UidAllocator;
use minion::linux::wait::{Poll, Readiness, WaitFuture};
use minion::linux::seccomp::CompiledPolicies;
use minion::linux::{LinuxBackend, LinuxChildProcess, Settings};
use minion::linux::jail_common::JobStartupInfo;
use minion::{ExitCode, ResourceUsageData, SandboxOptions, SharedItem, SharedItemKind};

const SECOND: u64 = 1_000_000_000;

fn shared(dest: &str, flags: &[&str]) -> SharedItem {
    SharedItem {
        id: None,
        src: "/bin".to_string(),
        dest: dest.to_string(),
        kind: SharedItemKind::Readonly,
        flags: flags.iter().map(|f| f.to_string()).collect(),
    }
}

fn options(items: Vec<SharedItem>) -> SandboxOptions {
    SandboxOptions {
        max_alive_process_count: 2,
        memory_limit: 4 << 20,
        cpu_time_limit: SECOND,
        real_time_limit: 2 * SECOND,
        isolation_root: "/tmp/root".to_string(),
        shared_items: items,
    }
}

fn sandbox(uids: &mut UidAllocator) -> LinuxSandbox {
    let setup = LinuxSandbox::create(&options(vec![]), &Settings::new(), true, uids).unwrap();
    LinuxSandbox::start(&setup, options(vec![]), 555)
}

#[test]
fn flags_of_shared_items() {
    let ok = convert_shared_item(shared("/a", &[])).unwrap();
    assert!(!ok.flags.recursive);
    assert_eq!(ok.src, "/bin");
    assert_eq!(ok.dest, "/a");
    assert_eq!(ok.kind, SharedItemKind::Readonly);
    assert!(convert_shared_item(shared("/a", &["recursive"])).unwrap().flags.recursive);
    assert!(convert_shared_item(shared("/a", &["recursive", "recursive"])).unwrap().flags.recursive);
    match convert_shared_item(shared("/a", &["recursive", "noexec", "bogus"])) {
        Err(Error::InvalidSharedItemFlag { flag }) => assert_eq!(flag, "noexec"),
        other => panic!("unexpected {:?}", other),
    }
    assert!(matches!(
        convert_shared_item(shared("/a", &[""])),
        Err(Error::InvalidSharedItemFlag { .. })
    ));
}

#[test]
fn make_relative_strips_the_root() {
    let o = options(vec![]);
    assert_eq!(o.make_relative("/me"), "me");
    assert_eq!(o.make_relative("me"), "me");
    assert_eq!(o.make_relative("//a/b"), "a/b");
    let mut o = options(vec![shared("/me", &[]), shared("lib", &["recursive"])]);
    o.postprocess();
    assert_eq!(o.shared_items[0].dest, "me");
    assert_eq!(o.shared_items[1].dest, "lib");
    assert_eq!(o.shared_items[1].flags, vec!["recursive"]);
    assert_eq!(o.shared_items[0].src, "/bin");
    assert_eq!(o.isolation_root, "/tmp/root");
    assert_eq!(o.cpu_time_limit, SECOND);
}

#[test]
fn create_with_a_user_of_its_own() {
    let mut uids = UidAllocator::new(5000, 5002);
    let settings = Settings::new();
    let items = vec![shared("me", &["recursive"])];
    let setup = LinuxSandbox::create(&options(items), &settings, true, &mut uids).unwrap();
    let jail = &setup.jail_options;
    assert_eq!(jail.sandbox_uid, Some(5000));
    assert_eq!(jail.max_alive_process_count, 2);
    assert_eq!(jail.memory_limit, 4 << 20);
    assert_eq!(jail.cpu_time_limit, SECOND);
    assert_eq!(jail.real_time_limit, 2 * SECOND);
    assert_eq!(jail.isolation_root, "/tmp/root");
    assert_eq!(jail.jail_id.len(), 8);
    assert!(jail.enable_watchdog);
    assert!(!jail.allow_mount_ns_failure);
    assert_eq!(jail.shared_items.len(), 1);
    assert!(jail.shared_items[0].flags.recursive);
    assert_eq!(
        setup.limits,
        ResourceLimits { pids_max: 2, memory_max: 4 << 20, cpu_usage: SECOND }
    );
    assert!(uids.is_used(5000));
    let second = LinuxSandbox::create(&options(vec![]), &settings, false, &mut uids).unwrap();
    assert_eq!(second.jail_options.sandbox_uid, Some(5001));
    assert!(!second.jail_options.enable_watchdog);
    assert!(matches!(
        LinuxSandbox::create(&options(vec![]), &settings, true, &mut uids),
        Err(Error::UidExhausted)
    ));
}

#[test]
fn create_without_root_takes_no_user() {
    let mut uids = UidAllocator::new(5000, 5000);
    let mut settings = Settings::new();
    settings.rootless = true;
    settings.allow_unsupported_mount_namespace = true;
    let setup = LinuxSandbox::create(&options(vec![]), &settings, true, &mut uids).unwrap();
    assert_eq!(setup.jail_options.sandbox_uid, None);
    assert!(setup.jail_options.allow_mount_ns_failure);
}

#[test]
fn a_bad_flag_allocates_nothing() {
    let mut uids = UidAllocator::new(5000, 5010);
    let items = vec![shared("a", &["recursive"]), shared("b", &["fast"])];
    match LinuxSandbox::create(&options(items), &Settings::new(), true, &mut uids) {
        Err(Error::InvalidSharedItemFlag { flag }) => assert_eq!(flag, "fast"),
        other => panic!("unexpected {:?}", other.map(|_| ())),
    }
    assert!(!uids.is_used(5000));
}

#[test]
fn backend_prepares_sandboxes() {
    let mut backend = LinuxBackend::new(Settings::new(), compiled(), |_: &Driver| Ok(())).unwrap();
    let (setup, accepted) = backend.new_sandbox(options(vec![shared("/me", &[])])).unwrap();
    assert_eq!(accepted.shared_items[0].dest, "me");
    assert_eq!(setup.jail_options.shared_items[0].dest, "me");
    assert_eq!(setup.jail_options.sandbox_uid, Some(1_000_000));
    assert!(setup.jail_options.enable_watchdog);
    let (next, _) = backend.new_sandbox(options(vec![])).unwrap();
    assert_eq!(next.jail_options.sandbox_uid, Some(1_000_001));
    assert!(next.jail_options.jail_id != setup.jail_options.jail_id
        || next.jail_options.sandbox_uid != setup.jail_options.sandbox_uid);
    assert!(matches!(
        backend.new_sandbox(options(vec![shared("/x", &["what"])])),
        Err(Error::InvalidSharedItemFlag { .. })
    ));
}

#[test]
fn state_flags_only_rise() {
    let mut state = SandboxState::new();
    assert_eq!(state, SandboxState { was_cpu_tle: false, was_wall_tle: false });
    state.process_flag(Event::Heartbeat);
    assert_eq!(state, SandboxState { was_cpu_tle: false, was_wall_tle: false });
    state.process_flag(Event::RealTle);
    assert_eq!(state, SandboxState { was_cpu_tle: false, was_wall_tle: true });
    state.process_flag(Event::CpuTle);
    state.process_flag(Event::Heartbeat);
    assert_eq!(state, SandboxState { was_cpu_tle: true, was_wall_tle: true });
}

#[test]
fn watchdog_judges_cpu_time_first() {
    assert_eq!(judge(Some(SECOND), 2 * SECOND, SECOND, 2 * SECOND), Verdict::Continue);
    assert_eq!(judge(Some(SECOND + 1), 0, SECOND, 2 * SECOND), Verdict::Kill(Event::CpuTle));
    assert_eq!(judge(Some(0), 2 * SECOND + 1, SECOND, 2 * SECOND), Verdict::Kill(Event::RealTle));
    assert_eq!(
        judge(Some(SECOND + 1), 3 * SECOND, SECOND, 2 * SECOND),
        Verdict::Kill(Event::CpuTle)
    );
    assert_eq!(judge(None, 0, SECOND, 2 * SECOND), Verdict::Kill(Event::CpuTle));
    assert_eq!(judge(None, 0, u64::MAX, u64::MAX), Verdict::Kill(Event::CpuTle));
    assert_eq!(judge(Some(u64::MAX), u64::MAX, u64::MAX, u64::MAX), Verdict::Continue);
}

#[test]
fn watchdog_leaves_when_the_sandbox_is_gone() {
    assert_eq!(watchdog(false, Some(5 * SECOND), 0, SECOND, SECOND), Verdict::Exit);
    assert_eq!(watchdog(true, Some(5 * SECOND), 0, SECOND, SECOND), Verdict::Kill(Event::CpuTle));
    assert_eq!(watchdog(true, Some(0), 0, SECOND, SECOND), Verdict::Continue);
}

#[test]
fn scenario_cpu_tle() {
    let mut uids = UidAllocator::new(1, 9);
    let mut sb = sandbox(&mut uids);
    let mut events = vec![];
    let mut elapsed = 0;
    let usage = |elapsed: u64| elapsed - elapsed / 10;
    loop {
        elapsed += SECOND;
        events.push(Event::Heartbeat);
        match watchdog(true, Some(usage(elapsed)), elapsed, SECOND, 2 * SECOND) {
            Verdict::Continue => {}
            Verdict::Kill(ev) => {
                events.push(ev);
                assert_eq!(sb.kill(), Some(555));
                break;
            }
            Verdict::Exit => panic!("the sandbox is still there"),
        }
    }
    assert_eq!(elapsed, 2 * SECOND);
    assert!(sb.check_cpu_tle(&events).unwrap());
    assert!(!sb.check_real_tle(&vec![]).unwrap());
    assert_eq!(sb.get_exit_code(None), ExitCode::killed());
    assert!(!sb.is_alive());
}

#[test]
fn scenario_idle_tle() {
    let mut uids = UidAllocator::new(1, 9);
    let mut sb = sandbox(&mut uids);
    let mut events = vec![];
    let mut elapsed = 0;
    loop {
        elapsed += SECOND;
        events.push(Event::Heartbeat);
        match watchdog(true, Some(1000), elapsed, SECOND, 2 * SECOND) {
            Verdict::Continue => {}
            Verdict::Kill(ev) => {
                events.push(ev);
                sb.kill();
                break;
            }
            Verdict::Exit => panic!("the sandbox is still there"),
        }
    }
    assert_eq!(elapsed, 3 * SECOND);
    assert!(sb.check_real_tle(&events).unwrap());
    assert!(!sb.check_cpu_tle(&vec![]).unwrap());
    assert!(sb.check_real_tle(&vec![]).unwrap());
}

fn show(steps: Vec<TeardownStep>) -> Vec<String> {
    steps
        .into_iter()
        .map(|step| match step {
            TeardownStep::ReleaseUid { uid } => format!("release {}", uid),
            TeardownStep::Kill { pid } => format!("kill {}", pid),
            TeardownStep::DeleteGroup { group_id } => format!("delete {}", group_id),
        })
        .collect()
}

#[test]
fn drop_after_kill() {
    let mut uids = UidAllocator::new(40, 50);
    let mut sb = sandbox(&mut uids);
    let id = sb.id();
    assert!(sb.is_alive());
    assert_eq!(sb.kill(), Some(555));
    assert_eq!(sb.kill(), None);
    assert!(!sb.is_alive());
    assert_eq!(sb.id(), id);
    assert_eq!(show(sb.drop(false)), vec!["release 40".to_string(), format!("delete {}", id)]);
    uids.deallocate(40);
    assert!(!uids.is_used(40));
}

#[test]
fn drop_of_a_living_sandbox() {
    let mut uids = UidAllocator::new(40, 50);
    let sb = sandbox(&mut uids);
    assert_eq!(show(sb.drop(true)), vec!["release 40", "kill 555"]);
    let sb = sandbox(&mut uids);
    let id = sb.id();
    assert_eq!(
        show(sb.drop(false)),
        vec!["release 41".to_string(), "kill 555".to_string(), format!("delete {}", id)]
    );
}

#[test]
fn drop_without_a_user() {
    let mut uids = UidAllocator::new(1, 1);
    let mut settings = Settings::new();
    settings.rootless = true;
    let setup = LinuxSandbox::create(&options(vec![]), &settings, true, &mut uids).unwrap();
    let sb = LinuxSandbox::start(&setup, options(vec![]), 9);
    assert_eq!(show(sb.drop(true)), vec!["kill 9"]);
}

#[test]
fn usage_as_the_caller_sees_it() {
    let usage = InternalResourceUsageData { time: 5, memory: None };
    assert_eq!(
        LinuxSandbox::resource_usage(usage).unwrap(),
        ResourceUsageData { time: Some(5), memory: None }
    );
    let usage = InternalResourceUsageData { time: 5, memory: Some(6) };
    assert_eq!(
        LinuxSandbox::resource_usage(usage).unwrap(),
        ResourceUsageData { time: Some(5), memory: Some(6) }
    );
    assert_eq!(ResourceUsageData::default(), ResourceUsageData { time: None, memory: None });
}

#[test]
fn errors_are_classified() {
    let sandbox_errors = vec![
        Error::SandboxMisbehavior { cause: None },
        Error::SandboxMisbehavior { cause: Some(IpcError::Ancillary) },
        Error::SandboxIpc { cause: IpcError::Syscall(32) },
    ];
    for e in sandbox_errors {
        assert_eq!(e.kind(), ErrorKind::Sandbox);
        assert!(e.is_sandbox() && !e.is_system());
    }
    let system_errors = vec![
        Error::NotSupported,
        Error::Syscall { code: 1 },
        Error::Io { cause: "x".to_string() },
        Error::Unknown,
        Error::InvalidSharedItemFlag { flag: "f".to_string() },
        Error::UidExhausted,
        Error::SandboxGone,
    ];
    for e in system_errors {
        assert_eq!(e.kind(), ErrorKind::System);
        assert!(e.is_system() && !e.is_sandbox());
    }
    assert!(matches!(Error::from_errno(Some(13)), Error::Syscall { code: 13 }));
    assert!(matches!(Error::from_errno(None), Error::Unknown));
}

#[test]
fn child_process_hands_out_its_ends_once() {
    let mut cp = LinuxChildProcess::new(JobStartupInfo { pid: 12 }, 30, Some(4), None, Some(6));
    assert_eq!(cp.stdin(), Some(4));
    assert_eq!(cp.stdin(), None);
    assert_eq!(cp.stdout(), None);
    assert_eq!(cp.stderr(), Some(6));
    assert_eq!(cp.stderr(), None);
    let wait = cp.wait_for_exit().unwrap();
    assert_eq!(wait, WaitFuture { pid: 12, fd: 30 });
}

#[test]
fn wait_asks_once_the_job_has_ended() {
    let wait = WaitFuture::new(30, 12).unwrap();
    assert!(matches!(wait.poll(Readiness::Pending), Poll::Pending));
    assert!(matches!(wait.poll(Readiness::Ready), Poll::AskExitCode { pid: 12 }));
    match wait.poll(Readiness::Failed("bad descriptor".to_string())) {
        Poll::Failed(Error::Io { cause }) => assert_eq!(cause, "bad descriptor"),
        other => panic!("unexpected {:?}", other),
    }
}

fn compiled() -> CompiledPolicies {
    CompiledPolicies { deny_dangerous: vec![1; 16], unrestricted: vec![2; 8], pure: vec![3; 24] }
}
