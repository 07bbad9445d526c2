use minion::linux::sandbox::{ExtendedJobQuery, LinuxSandbox};
use minion::linux::uid_alloc::UidAllocator;
use minion::linux::zygote::main_loop::{exit_code_of, exit_code_reply, WaitStatus, Zygote};
use minion::linux::{handle_input_io, handle_output_io, spawn, IoPlan, Settings};
use minion::{
    Command, ExitCode, InputSpecification, OutputSpecification, SandboxOptions, EXIT_KILLED,
};

fn options() -> SandboxOptions {
    SandboxOptions {
        max_alive_process_count: 1,
        memory_limit: 4 * (1 << 20),
        cpu_time_limit: 1_000_000_000,
        real_time_limit: 2_000_000_000,
        isolation_root: "/tmp/root".to_string(),
        shared_items: vec![],
    }
}

fn sandbox() -> LinuxSandbox {
    let mut uids = UidAllocator::new(100, 110);
    let setup = LinuxSandbox::create(&options(), &Settings::new(), true, &mut uids).unwrap();
    LinuxSandbox::start(&setup, options(), 4242)
}

/// Runs a job through the bookkeeping of the zygote and the sandbox.
fn run_to_exit(status: WaitStatus) -> ExitCode {
    let sb = sandbox();
    let mut zygote = Zygote::new();
    zygote.add_task(7, None);
    let reaped = zygote.reap_child(status);
    assert!(reaped.more);
    let task = zygote.take_task(7).unwrap();
    let reply = exit_code_reply(&task, WaitStatus::StillAlive);
    sb.get_exit_code(reply)
}

#[test]
fn exit_code_zero_is_success() {
    assert!(ExitCode(0).is_success());
    assert!(!ExitCode(1).is_success());
    assert!(ExitCode::ok().is_success());
    assert!(!ExitCode::killed().is_success());
}

#[test]
fn exit_code_constants() {
    assert_eq!(ExitCode::ok(), ExitCode(0));
    assert_eq!(ExitCode::killed(), ExitCode(0x7ead_dead_beef_f00d));
    assert_eq!(ExitCode::killed().0, EXIT_KILLED);
    assert_eq!(ExitCode::signalled(), ExitCode(1000));
}

#[test]
fn linux_signal_adds_one_thousand() {
    assert_eq!(ExitCode::linux_signal(9), ExitCode(1009));
    assert_eq!(ExitCode::linux_signal(11), ExitCode(1011));
    assert_eq!(ExitCode::linux_signal(0), ExitCode::signalled());
}

#[test]
fn exit_fidelity_for_every_status() {
    for k in 0..=255 {
        assert_eq!(run_to_exit(WaitStatus::Exited { pid: 7, code: k }), ExitCode(k as i64));
    }
}

#[test]
fn exit_fidelity_for_signals() {
    for s in 1..=64 {
        assert_eq!(
            run_to_exit(WaitStatus::Signaled { pid: 7, signal: s }),
            ExitCode::linux_signal(s as i64)
        );
    }
}

#[test]
fn status_to_exit_code() {
    assert_eq!(exit_code_of(WaitStatus::Exited { pid: 3, code: 42 }), Some((3, 42)));
    assert_eq!(exit_code_of(WaitStatus::Signaled { pid: 3, signal: 15 }), Some((3, 1015)));
    assert_eq!(exit_code_of(WaitStatus::StillAlive), None);
}

#[test]
fn scenario_exit_zero() {
    let mut cmd = Command::new();
    cmd.path("/bin/true");
    cmd.stdin(InputSpecification::empty());
    cmd.stdout(OutputSpecification::buffer(4096));
    cmd.stderr(OutputSpecification::buffer(4096));
    let plan = spawn(cmd.build().unwrap());
    assert_eq!(plan.query.image_path, "/bin/true");
    assert_eq!(plan.stdin, IoPlan::DevNull { writable: false });
    assert_eq!(plan.stdout, IoPlan::Buffer { flags: 3, size: Some(4096) });
    assert_eq!(plan.stderr, IoPlan::Buffer { flags: 3, size: Some(4096) });
    let code = run_to_exit(WaitStatus::Exited { pid: 7, code: 0 });
    assert_eq!(code, ExitCode(0));
    assert!(code.is_success());
}

#[test]
fn scenario_return_one() {
    let code = run_to_exit(WaitStatus::Exited { pid: 7, code: 1 });
    assert_eq!(code, ExitCode(1));
    assert!(!code.is_success());
}

#[test]
fn scenario_oom() {
    let killed = run_to_exit(WaitStatus::Signaled { pid: 7, signal: 9 });
    let segv = run_to_exit(WaitStatus::Signaled { pid: 7, signal: 11 });
    assert_eq!(killed, ExitCode(1009));
    assert_eq!(segv, ExitCode(1011));
    let mut sb = sandbox();
    assert!(!sb.check_cpu_tle(&vec![]).unwrap());
    assert!(!sb.check_real_tle(&vec![]).unwrap());
}

#[test]
fn exit_code_of_gone_sandbox_is_killed() {
    let mut sb = sandbox();
    assert_eq!(sb.get_exit_code(Some(5)), ExitCode(5));
    assert_eq!(sb.get_exit_code(None), ExitCode::killed());
    assert_eq!(sb.kill(), Some(4242));
    assert_eq!(sb.get_exit_code(Some(5)), ExitCode::killed());
    assert!(sb.exit_code_query(7).is_none());
}

#[test]
fn spawn_job_sends_present_descriptors() {
    let mut cmd = Command::new();
    cmd.path("/bin/true");
    let plan = spawn(cmd.build().unwrap());
    let mut sb = sandbox();
    assert!(ExtendedJobQuery::new(spawn({
        let mut c = Command::new();
        c.path("/bin/true");
        c.build().unwrap()
    }), &vec![4], vec![]).is_none());
    let query = ExtendedJobQuery {
        job_query: plan.query,
        stdin: Some(4),
        stdout: None,
        stderr: Some(6),
        extra: vec![20, 21],
    };
    let (_, fds) = sb.spawn_job(query).unwrap();
    assert_eq!(fds, vec![4, 6, 20, 21]);
    sb.kill();
    let plan = spawn({
        let mut c = Command::new();
        c.path("/bin/true");
        c.build().unwrap()
    });
    let query = ExtendedJobQuery {
        job_query: plan.query,
        stdin: None,
        stdout: None,
        stderr: None,
        extra: vec![],
    };
    assert!(matches!(sb.spawn_job(query), Err(minion::linux::Error::SandboxGone)));
}

#[test]
fn stdio_plans_follow_the_table() {
    assert_eq!(handle_input_io(InputSpecification::null()), IoPlan::Null);
    assert_eq!(handle_input_io(InputSpecification::empty()), IoPlan::DevNull { writable: false });
    assert_eq!(handle_input_io(InputSpecification::pipe()), IoPlan::Pipe);
    assert_eq!(
        handle_input_io(InputSpecification::handle(minion::Handle::new(5))),
        IoPlan::Handle { fd: 5 }
    );
    assert_eq!(handle_output_io(OutputSpecification::null()), IoPlan::Null);
    assert_eq!(handle_output_io(OutputSpecification::ignore()), IoPlan::DevNull { writable: true });
    assert_eq!(handle_output_io(OutputSpecification::pipe()), IoPlan::Pipe);
    assert_eq!(
        handle_output_io(OutputSpecification::buffer(10)),
        IoPlan::Buffer { flags: 3, size: Some(10) }
    );
    assert_eq!(
        handle_output_io(OutputSpecification::unbounded_buffer()),
        IoPlan::Buffer { flags: 1, size: None }
    );
    assert_eq!(
        handle_output_io(OutputSpecification::handle(minion::Handle::new(9))),
        IoPlan::Handle { fd: 9 }
    );
    assert_eq!(minion::Handle::new(77).raw(), 77);
}

#[test]
fn descriptors_are_assigned_to_the_streams_that_get_one() {
    let plan = |stdout: OutputSpecification| {
        let mut c = Command::new();
        c.path("/bin/true");
        c.stdin(InputSpecification::null());
        c.stdout(stdout);
        c.stderr(OutputSpecification::pipe());
        spawn(c.build().unwrap())
    };
    let q = ExtendedJobQuery::new(plan(OutputSpecification::ignore()), &vec![7, 8], vec![30]).unwrap();
    assert_eq!((q.stdin, q.stdout, q.stderr), (None, Some(7), Some(8)));
    assert_eq!(q.extra, vec![30]);
    assert_eq!(q.job_query.image_path, "/bin/true");
    let q = ExtendedJobQuery::new(plan(OutputSpecification::null()), &vec![7], vec![]).unwrap();
    assert_eq!((q.stdin, q.stdout, q.stderr), (None, None, Some(7)));
    assert!(ExtendedJobQuery::new(plan(OutputSpecification::null()), &vec![7, 8], vec![]).is_none());
    assert!(ExtendedJobQuery::new(plan(OutputSpecification::pipe()), &vec![7], vec![]).is_none());
    assert!(ExtendedJobQuery::new(plan(OutputSpecification::pipe()), &vec![], vec![]).is_none());
}
