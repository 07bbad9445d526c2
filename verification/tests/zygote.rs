use minion::linux::jail_common::{
    gen_jail_id, term_signals, JailOptions, JobQuery, LinuxSharedItem, ResourceUsageInformation,
    SharedItemFlags,
};
use minion::linux::zygote::job_options;
use minion::linux::zygote::main_loop::{exit_notifier, ExitNotifier};
use minion::linux::zygote::main_loop::{
    exit_code_reply, handle_one_request, resource_usage, Received, ReturnCode, Task, WaitStatus,
    Zygote,
};
use minion::linux::zygote::setup::{expose_item, expose_items, procfs_path, setup, SetupStep};
use minion::linux::zygote::{
    exec_failure, map_identities, plan_exec, unshare_plan, zygote_id_mapping, ExecFailure, ExecStep,
    JobOptions, Stdio, Unshare,
};
use minion::linux::{spawn, IoPlan};
use minion::{
    ChildProcessOptions, Handle, InputSpecification, OutputSpecification, SharedItemKind,
    StdioSpecification,
};

fn job(extra: Vec<(i32, i32)>) -> JobOptions {
    JobOptions {
        exe: "/me".to_string(),
        argv: vec!["test_inherit".to_string()],
        env: vec!["A=1".to_string()],
        stdio: Stdio::from_fd_array([10, 11, 12]),
        extra,
        pwd: "/".to_string(),
    }
}

#[test]
fn stdio_from_array() {
    assert_eq!(Stdio::from_fd_array([4, 5, 6]), Stdio { stdin: 4, stdout: 5, stderr: 6 });
}

fn show(steps: &Vec<ExecStep>) -> Vec<String> {
    steps
        .iter()
        .map(|step| match step {
            ExecStep::CloseOnExec { fd } => format!("cloexec {}", fd),
            ExecStep::JoinGroup => "join".to_string(),
            ExecStep::ChangeDir { path } => format!("chdir {}", path),
            ExecStep::SetGid { gid } => format!("setgid {}", gid),
            ExecStep::SetUid { uid } => format!("setuid {}", uid),
            ExecStep::Dup2 { from, to } => format!("dup2 {} {}", from, to),
            ExecStep::EnableSeccomp => "seccomp".to_string(),
            ExecStep::Exec { path, argv, envp } => {
                format!("exec {} {:?} {:?}", path, argv, envp)
            }
        })
        .collect()
}

#[test]
fn exec_plan_hides_other_descriptors() {
    let open = vec![0, 1, 2, 3, 10, 11, 12, 13, 20];
    let plan = plan_exec(&job(vec![(779, 13)]), &open, true);
    assert_eq!(
        show(&plan),
        vec![
            "cloexec 0",
            "cloexec 1",
            "cloexec 2",
            "cloexec 3",
            "cloexec 20",
            "join",
            "chdir /",
            "setgid 179",
            "setuid 179",
            "dup2 10 0",
            "dup2 11 1",
            "dup2 12 2",
            "dup2 13 779",
            "seccomp",
            "exec /me [\"/me\", \"test_inherit\"] [\"A=1\"]",
        ]
    );
}

#[test]
fn exec_plan_without_identity() {
    let plan = plan_exec(&job(vec![]), &vec![5, 10, 11, 12], false);
    assert_eq!(
        show(&plan),
        vec![
            "cloexec 5",
            "join",
            "chdir /",
            "dup2 10 0",
            "dup2 11 1",
            "dup2 12 2",
            "seccomp",
            "exec /me [\"/me\", \"test_inherit\"] [\"A=1\"]",
        ]
    );
}

/// Carries a plan out on a table of descriptors and tells what a program
/// started by exec finds open.
fn inherited(open: &Vec<i32>, steps: &Vec<ExecStep>) -> Vec<i32> {
    let mut table: std::collections::BTreeMap<i32, bool> =
        open.iter().map(|fd| (*fd, false)).collect();
    for step in steps {
        match step {
            ExecStep::CloseOnExec { fd } => {
                if let Some(flag) = table.get_mut(fd) {
                    *flag = true;
                }
            }
            ExecStep::Dup2 { from, to } => {
                if table.contains_key(from) && from != to {
                    table.insert(*to, false);
                }
            }
            _ => {}
        }
    }
    table.into_iter().filter(|(_, cloexec)| !cloexec).map(|(fd, _)| fd).collect()
}

#[test]
fn scenario_inheritance() {
    let options = ChildProcessOptions {
        path: "/me".to_string(),
        arguments: vec!["test_inherit".to_string()],
        environment: vec![],
        stdio: StdioSpecification {
            stdin: InputSpecification::empty(),
            stdout: OutputSpecification::pipe(),
            stderr: OutputSpecification::pipe(),
        },
        extra_inherit: vec![Handle::new(779)],
        pwd: "/".to_string(),
    };
    let plan = spawn(options);
    assert_eq!(plan.query.extra_fds, vec![779]);
    assert_eq!(plan.stdout, IoPlan::Pipe);
    assert_eq!(plan.stderr, IoPlan::Pipe);
    // In the zygote the descriptors arrive as 10, 11, 12 and 13.
    let open: Vec<i32> = vec![0, 1, 2, 3, 4, 5, 10, 11, 12, 13, 14];
    let exec = plan_exec(&job(vec![(779, 13)]), &open, false);
    let found = inherited(&open, &exec);
    assert_eq!(found, vec![0, 1, 2, 10, 11, 12, 13, 779]);
    for fd in found {
        assert!([0, 1, 2, 779].contains(&fd) || [10, 11, 12, 13].contains(&fd));
    }
}

#[test]
fn missing_executable_exits_with_108() {
    assert_eq!(exec_failure(2), ExecFailure::NotFound { status: 108 });
    assert_eq!(exec_failure(13), ExecFailure::Other { errno: 13 });
    assert_eq!(exec_failure(0), ExecFailure::Other { errno: 0 });
}

#[test]
fn zygote_keeps_track_of_tasks() {
    let mut z = Zygote::new();
    assert_eq!(z.task_count(), 0);
    z.add_task(5, Some(40));
    z.add_task(6, None);
    z.add_task(7, Some(41));
    assert_eq!(z.task_count(), 3);
    let reaped = z.reap_child(WaitStatus::StillAlive);
    assert!(!reaped.more);
    assert!(reaped.notify.is_empty());
    let reaped = z.reap_child(WaitStatus::Exited { pid: 7, code: 3 });
    assert!(reaped.more);
    assert_eq!(reaped.notify, vec![41]);
    let reaped = z.reap_child(WaitStatus::Signaled { pid: 6, signal: 9 });
    assert!(reaped.more);
    assert!(reaped.notify.is_empty());
    assert_eq!(z.take_task(99), None);
    assert_eq!(z.take_task(7), Some(Task { pid: 7, notify: Some(41), exit_code: Some(3) }));
    assert_eq!(z.take_task(7), None);
    assert_eq!(z.take_task(6), Some(Task { pid: 6, notify: None, exit_code: Some(1009) }));
    assert_eq!(z.take_task(5), Some(Task { pid: 5, notify: Some(40), exit_code: None }));
    assert_eq!(z.task_count(), 0);
}

#[test]
fn a_recorded_exit_code_is_kept() {
    let mut z = Zygote::new();
    z.add_task(5, Some(40));
    z.reap_child(WaitStatus::Exited { pid: 5, code: 1 });
    let again = z.reap_child(WaitStatus::Exited { pid: 5, code: 2 });
    assert!(again.notify.is_empty());
    assert_eq!(z.take_task(5).unwrap().exit_code, Some(1));
}

#[test]
fn take_task_moves_the_last_into_the_gap() {
    let mut z = Zygote::new();
    for pid in [1, 2, 3, 4] {
        z.add_task(pid, None);
    }
    z.add_task(2, Some(9));
    assert_eq!(z.take_task(2), Some(Task { pid: 2, notify: None, exit_code: None }));
    assert_eq!(z.take_task(2), Some(Task { pid: 2, notify: Some(9), exit_code: None }));
    assert_eq!(z.task_count(), 3);
}

#[test]
fn reply_prefers_the_recorded_code() {
    let done = Task { pid: 1, notify: None, exit_code: Some(4) };
    let running = Task { pid: 1, notify: None, exit_code: None };
    assert_eq!(exit_code_reply(&done, WaitStatus::Exited { pid: 1, code: 9 }), Some(4));
    assert_eq!(exit_code_reply(&running, WaitStatus::Exited { pid: 1, code: 9 }), Some(9));
    assert_eq!(exit_code_reply(&running, WaitStatus::Signaled { pid: 1, signal: 11 }), Some(1011));
    assert_eq!(exit_code_reply(&running, WaitStatus::StillAlive), None);
}

#[test]
fn zygote_return_codes() {
    assert_eq!(ReturnCode::ok().get(), 0);
    assert_eq!(ReturnCode::bad_query().get(), 0xBAD);
    assert_eq!(handle_one_request(Received::Unreadable), Some(ReturnCode(2989)));
    assert_eq!(handle_one_request(Received::Request), None);
}

#[test]
fn cpu_time_of_children() {
    assert_eq!(
        resource_usage(2048, 1, 500_000, 0, 250_000),
        ResourceUsageInformation { memory: 2048, cpu: 1_750_000_000 }
    );
    assert_eq!(resource_usage(0, 0, 0, 0, 0).cpu, 0);
    assert_eq!(resource_usage(0, 0, 1, 0, 0).cpu, 1000);
    assert_eq!(resource_usage(0, u64::MAX, 0, 0, 0).cpu, u64::MAX);
    assert_eq!(resource_usage(0, 18_446_744_073, 709_551, 0, 0).cpu, 18_446_744_073_709_551_000);
    assert_eq!(resource_usage(0, 18_446_744_073, 709_552, 0, 0).cpu, u64::MAX);
}

fn item(dest: &str, kind: SharedItemKind, recursive: bool) -> LinuxSharedItem {
    LinuxSharedItem {
        src: "/usr/bin".to_string(),
        dest: dest.to_string(),
        kind,
        flags: SharedItemFlags { recursive },
    }
}

fn show_setup(steps: &Vec<SetupStep>) -> Vec<String> {
    steps
        .iter()
        .map(|step| match step {
            SetupStep::SetMode { path, mode } => format!("chmod {:o} {}", mode, path),
            SetupStep::SetOwner { path, uid, gid } => format!("chown {}:{} {}", uid, gid, path),
            SetupStep::CreateDirAll { path } => format!("mkdir -p {}", path),
            SetupStep::ReplaceWithFile { path } => format!("file {}", path),
            SetupStep::Mount { source, target, flags } => {
                format!("mount {} {} {}", source, target, flags)
            }
            SetupStep::Remount { target, flags } => format!("remount {} {}", target, flags),
            SetupStep::CreateDir { path } => format!("mkdir {}", path),
            SetupStep::MountProc { target } => format!("mount proc {}", target),
            SetupStep::Chroot { path } => format!("chroot {}", path),
            SetupStep::Chdir { path } => format!("chdir {}", path),
        })
        .collect()
}

#[test]
fn steps_for_a_shared_item() {
    let mut steps = vec![];
    expose_item(&mut steps, "/tmp/jail", &item("/me", SharedItemKind::Readonly, false), true);
    assert_eq!(
        show_setup(&steps),
        vec![
            "mkdir -p /tmp/jail/me",
            "file /tmp/jail/me",
            "mount /usr/bin /tmp/jail/me 4096",
            "remount /tmp/jail/me 4129",
        ]
    );
    let mut steps = vec![];
    expose_item(&mut steps, "/tmp/jail/", &item("bin/x", SharedItemKind::Full, true), false);
    assert_eq!(
        show_setup(&steps),
        vec!["mkdir -p /tmp/jail/bin/x", "mount /usr/bin /tmp/jail/bin/x 20480"]
    );
    expose_item(&mut steps, "/j", &item("/", SharedItemKind::Readonly, true), false);
    assert_eq!(
        show_setup(&steps)[2..],
        [
            "mkdir -p /j/".to_string(),
            format!("mount /usr/bin /j/ {}", 4096 | 16384),
            format!("remount /j/ {}", 4096 | 32 | 1),
        ]
    );
}

#[test]
fn steps_keep_the_order_of_the_items() {
    let items = vec![
        item("a", SharedItemKind::Full, false),
        item("/b", SharedItemKind::Readonly, false),
    ];
    let mut steps = vec![];
    expose_items(&mut steps, &items, &vec![false, true], "/r");
    assert_eq!(
        show_setup(&steps),
        vec![
            "mkdir -p /r/a",
            "mount /usr/bin /r/a 4096",
            "mkdir -p /r/b",
            "file /r/b",
            "mount /usr/bin /r/b 4096",
            "remount /r/b 4129",
        ]
    );
    assert_eq!(procfs_path("/r"), "/r/proc");
    assert_eq!(procfs_path("/r/"), "/r/proc");
}

#[test]
fn whole_setup_of_the_file_system() {
    let jail = JailOptions {
        max_alive_process_count: 1,
        memory_limit: 1,
        cpu_time_limit: 1,
        real_time_limit: 1,
        isolation_root: "/tmp/root".to_string(),
        shared_items: vec![item("/me", SharedItemKind::Readonly, false)],
        jail_id: "abcdefgh".to_string(),
        allow_mount_ns_failure: false,
        sandbox_uid: None,
        enable_watchdog: true,
    };
    assert_eq!(
        show_setup(&setup(&jail, &vec![true])),
        vec![
            "chmod 777 /tmp/root",
            "chown 179:179 /tmp/root",
            "mkdir -p /tmp/root/me",
            "file /tmp/root/me",
            "mount /usr/bin /tmp/root/me 4096",
            "remount /tmp/root/me 4129",
            "mkdir /tmp/root/proc",
            "mount proc /tmp/root/proc",
            "chroot /tmp/root",
            "chdir /",
        ]
    );
}

#[test]
fn namespaces_to_leave() {
    assert_eq!(
        unshare_plan(false),
        vec![
            Unshare { flags: 0x1000_0000 | 0x2000_0000 | 0x4000_0000, required: true },
            Unshare { flags: 0x0002_0000, required: true },
        ]
    );
    assert!(!unshare_plan(true)[1].required);
    assert!(unshare_plan(true)[0].required);
}

#[test]
fn id_mappings() {
    assert_eq!(zygote_id_mapping(1000, None), "0 1000 1");
    assert_eq!(zygote_id_mapping(0, Some(1_000_005)), "0 0 1\n179 1000005 1");
    let writes: Vec<(String, String)> =
        map_identities(4321, 1000, Some(77)).into_iter().map(|w| (w.path, w.data)).collect();
    let mapping = "0 1000 1\n179 77 1".to_string();
    assert_eq!(
        writes,
        vec![
            ("/proc/4321/setgroups".to_string(), "deny".to_string()),
            ("/proc/4321/uid_map".to_string(), mapping.clone()),
            ("/proc/4321/gid_map".to_string(), mapping),
        ]
    );
}

#[test]
fn sandbox_identifiers() {
    let alphabet = "qwertyuiopasdfghjklzxcvbnm1234567890";
    let mut seen = std::collections::HashSet::new();
    for _ in 0..50 {
        let id = gen_jail_id();
        assert_eq!(id.chars().count(), 8);
        assert!(id.chars().all(|c| alphabet.contains(c)));
        seen.insert(id);
    }
    assert!(seen.len() > 1);
}

#[test]
fn terminating_signals() {
    assert_eq!(term_signals(), vec![9, 15, 6]);
}

#[test]
fn job_options_from_a_request() {
    let query = JobQuery {
        image_path: "/me".to_string(),
        argv: vec!["a".to_string()],
        environment: vec!["E=1".to_string()],
        pwd: "/w".to_string(),
        extra_fds: vec![779, 780],
    };
    let options = job_options(&query, &vec![10, 11, 12, 13, 14]).unwrap();
    assert_eq!(options.exe, "/me");
    assert_eq!(options.argv, vec!["a"]);
    assert_eq!(options.env, vec!["E=1"]);
    assert_eq!(options.pwd, "/w");
    assert_eq!(options.stdio, Stdio { stdin: 10, stdout: 11, stderr: 12 });
    assert_eq!(options.extra, vec![(779, 13), (780, 14)]);
    assert!(job_options(&query, &vec![10, 11, 12, 13]).is_none());
    assert!(job_options(&query, &vec![10, 11, 12, 13, 14, 15]).is_none());
    assert!(job_options(&query, &vec![]).is_none());
}

#[test]
fn exit_notifier_prefers_the_process_descriptor() {
    assert_eq!(exit_notifier(true), ExitNotifier::Pidfd);
    assert_eq!(exit_notifier(false), ExitNotifier::Pipe);
}
