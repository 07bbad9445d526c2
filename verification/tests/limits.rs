use minion::linux::error::{CgroupError, DriverError, Error, PrlimitError};
use minion::linux::jail_common::ResourceUsageInformation;
use minion::linux::limits::cgroup_common::{CgroupEnter, GroupOp};
use minion::linux::limits::cgroup_v1::{read_counter, CgroupV1};
use minion::linux::limits::cgroup_v2::CgroupV2;
use minion::linux::limits::prlimit::{Prlimit, PrlimitEnter, RlimitPlan};
use minion::linux::limits::{
    driver_candidates, process_driver_kind, smoke_check, CgroupVersion, Driver, GroupPlan, Inner,
    InternalResourceUsageData, JoinPlan, OpaqueEnterHandle, RawSettings, ResourceDriverKind,
    ResourceLimits, UsageReading,
};
use minion::linux::seccomp::CompiledPolicies;
use minion::linux::{LinuxBackend, Settings};

fn limits() -> ResourceLimits {
    ResourceLimits { pids_max: 16, memory_max: 256_000_000, cpu_usage: 1_000_000_000 }
}

fn describe(raw: &RawSettings) -> String {
    match raw {
        RawSettings::Cgroup { prefix, mount, version } => {
            format!("cgroup {} {} {:?}", prefix, mount, version)
        }
        RawSettings::Prlimit { allow_many_pids } => format!("prlimit {}", allow_many_pids),
    }
}

fn ops(list: &Vec<GroupOp>) -> Vec<String> {
    list.iter()
        .map(|op| match op {
            GroupOp::CreateDir { path } => format!("mkdir {}", path),
            GroupOp::Write { path, data } => format!("write {} {}", path, data),
            GroupOp::TryWrite { path, data } => format!("try-write {} {}", path, data),
            GroupOp::OpenHandle { path } => format!("open {}", path),
        })
        .collect()
}

#[test]
fn driver_kinds_expand_in_order() {
    let settings = Settings::new();
    let expand = |kind: ResourceDriverKind| {
        let mut out = Vec::new();
        process_driver_kind(&settings, &mut out, &kind);
        out.iter().map(describe).collect::<Vec<_>>()
    };
    let v1 = "cgroup /minion /sys/fs/cgroup V1".to_string();
    let v2 = "cgroup /minion /sys/fs/cgroup V2".to_string();
    let pr = "prlimit true".to_string();
    assert_eq!(expand(ResourceDriverKind::CgroupV1), vec![v1.clone()]);
    assert_eq!(expand(ResourceDriverKind::CgroupV2), vec![v2.clone()]);
    assert_eq!(expand(ResourceDriverKind::CgroupAuto), vec![v1.clone(), v2.clone()]);
    assert_eq!(expand(ResourceDriverKind::Prlimit), vec![pr.clone()]);
    assert_eq!(
        expand(ResourceDriverKind::Auto { allow_dangerous: true }),
        vec![v1.clone(), v2.clone(), pr.clone()]
    );
    assert_eq!(
        expand(ResourceDriverKind::Auto { allow_dangerous: false }),
        vec![v1.clone(), v2.clone()]
    );
}

#[test]
fn process_driver_kind_appends() {
    let settings = Settings::new();
    let mut out = vec![RawSettings::Prlimit { allow_many_pids: false }];
    process_driver_kind(&settings, &mut out, &ResourceDriverKind::CgroupV2);
    assert_eq!(
        out.iter().map(describe).collect::<Vec<_>>(),
        vec!["prlimit false", "cgroup /minion /sys/fs/cgroup V2"]
    );
}

#[test]
fn rootless_prlimit_allows_one_process_only() {
    let mut settings = Settings::new();
    settings.rootless = true;
    settings.resource_drivers =
        vec![ResourceDriverKind::Prlimit, ResourceDriverKind::CgroupV2];
    let all = driver_candidates(&settings);
    assert_eq!(
        all.iter().map(describe).collect::<Vec<_>>(),
        vec!["prlimit false", "cgroup /minion /sys/fs/cgroup V2"]
    );
}

#[test]
fn new_raw_keeps_the_names_of_the_prefix() {
    let raw = RawSettings::Cgroup {
        prefix: "/a/./b//c/".to_string(),
        mount: "/sys/fs/cgroup".to_string(),
        version: CgroupVersion::V1,
    };
    match Driver::new_raw(&raw).inner {
        Inner::CgroupV1(d) => {
            assert_eq!(d.cgroupfs_path, "/sys/fs/cgroup");
            assert_eq!(d.cgroup_prefix, vec!["a", "b", "c"]);
        }
        _ => panic!("wrong driver"),
    }
    let raw = RawSettings::Cgroup {
        prefix: "minion".to_string(),
        mount: "/cg".to_string(),
        version: CgroupVersion::V2,
    };
    assert!(matches!(Driver::new_raw(&raw).inner, Inner::CgroupV2(_)));
    let raw = RawSettings::Prlimit { allow_many_pids: true };
    assert!(matches!(Driver::new_raw(&raw).inner, Inner::Prlimit(_)));
}

#[test]
fn watchdog_is_for_cgroups() {
    let v1 = RawSettings::Cgroup {
        prefix: "/minion".to_string(),
        mount: "/cg".to_string(),
        version: CgroupVersion::V1,
    };
    assert!(Driver::new_raw(&v1).get_watchdog());
    assert!(!Driver::new_raw(&RawSettings::Prlimit { allow_many_pids: true }).get_watchdog());
}

#[test]
fn first_working_driver_wins() {
    let mut settings = Settings::new();
    settings.resource_drivers = vec![ResourceDriverKind::Auto { allow_dangerous: true }];
    let driver = Driver::new(&settings, |d: &Driver| match d.inner {
        Inner::CgroupV1(_) => Err(Error::NotSupported),
        _ => Ok(()),
    })
    .unwrap();
    assert!(matches!(driver.inner, Inner::CgroupV2(_)));
    let driver = Driver::new(&settings, |_: &Driver| Ok(())).unwrap();
    assert!(matches!(driver.inner, Inner::CgroupV1(_)));
}

#[test]
fn all_failures_are_collected() {
    let mut settings = Settings::new();
    settings.resource_drivers = vec![ResourceDriverKind::Auto { allow_dangerous: true }];
    let err = Driver::new(&settings, |d: &Driver| match d.inner {
        Inner::Prlimit(_) => Err(Error::UidExhausted),
        _ => Err(Error::Syscall { code: 13 }),
    })
    .unwrap_err();
    match err {
        Error::SelectDriverImpl { cause } => {
            assert_eq!(cause.attempts.len(), 3);
            assert_eq!(describe(&cause.attempts[0].0 .0), "cgroup /minion /sys/fs/cgroup V1");
            assert_eq!(describe(&cause.attempts[1].0 .0), "cgroup /minion /sys/fs/cgroup V2");
            assert_eq!(describe(&cause.attempts[2].0 .0), "prlimit true");
            assert!(matches!(cause.attempts[0].1, Error::Syscall { code: 13 }));
            assert!(matches!(cause.attempts[2].1, Error::UidExhausted));
        }
        other => panic!("unexpected {:?}", other),
    }
}

#[test]
fn no_candidates_no_driver() {
    let mut settings = Settings::new();
    settings.resource_drivers = vec![];
    let err = Driver::new(&settings, |_: &Driver| Ok(())).unwrap_err();
    assert!(matches!(err, Error::SelectDriverImpl { cause } if cause.attempts.is_empty()));
}

#[test]
fn backend_starts_without_users() {
    let backend = LinuxBackend::new(Settings::new(), compiled(), |_: &Driver| Ok(())).unwrap();
    assert!(matches!(backend.driver.inner, Inner::CgroupV1(_)));
    assert!(!backend.uid_alloc.is_used(1_000_000));
    assert_eq!(backend.seccomp().0, vec![1; 16]);
    let failed = LinuxBackend::new(Settings::new(), compiled(), |_: &Driver| Err(Error::NotSupported));
    assert!(matches!(failed, Err(Error::SelectDriverImpl { .. })));
}

#[test]
fn smoke_check_group() {
    let check = smoke_check();
    assert!(check.group_id.starts_with("minion-cgroup-access-check-"));
    assert_eq!(check.group_id.len(), "minion-cgroup-access-check-".len() + 5);
    assert!(check.group_id.chars().rev().take(5).all(|c| c.is_ascii_alphanumeric()));
    assert_eq!(
        check.limits,
        ResourceLimits { memory_max: 1 << 30, pids_max: 1024, cpu_usage: 1_000_000_000 }
    );
}

#[test]
fn v1_paths() {
    let d = CgroupV1 {
        cgroupfs_path: "/sys/fs/cgroup".to_string(),
        cgroup_prefix: vec!["minion".to_string(), "x".to_string()],
    };
    assert_eq!(
        d.get_path_for_cgroup_legacy_subsystem("pids", "abc12345"),
        "/sys/fs/cgroup/pids/minion/x/sandbox.abc12345"
    );
    assert_eq!(
        d.cpu_usage_file("id"),
        "/sys/fs/cgroup/cpuacct/minion/x/sandbox.id/cpuacct.usage"
    );
    assert_eq!(
        d.memory_usage_file("id"),
        "/sys/fs/cgroup/memory/minion/x/sandbox.id/memory.max_usage_in_bytes"
    );
    let bare = CgroupV1 { cgroupfs_path: "/cg/".to_string(), cgroup_prefix: vec![] };
    assert_eq!(bare.get_path_for_cgroup_legacy_subsystem("memory", "q"), "/cg/memory/sandbox.q");
}

#[test]
fn v1_create_plan() {
    let d = CgroupV1 {
        cgroupfs_path: "/cg".to_string(),
        cgroup_prefix: vec!["minion".to_string()],
    };
    assert_eq!(
        ops(&d.create_group("j1", &limits())),
        vec![
            "mkdir /cg/cpuacct/minion/sandbox.j1",
            "mkdir /cg/pids/minion/sandbox.j1",
            "write /cg/pids/minion/sandbox.j1/pids.max 16",
            "mkdir /cg/memory/minion/sandbox.j1",
            "write /cg/memory/minion/sandbox.j1/memory.swappiness 0",
            "write /cg/memory/minion/sandbox.j1/memory.limit_in_bytes 256000000",
            "open /cg/cpuacct/minion/sandbox.j1/tasks",
            "open /cg/memory/minion/sandbox.j1/tasks",
            "open /cg/pids/minion/sandbox.j1/tasks",
        ]
    );
    assert_eq!(
        d.delete_group("j1"),
        vec![
            "/cg/pids/minion/sandbox.j1",
            "/cg/memory/minion/sandbox.j1",
            "/cg/cpuacct/minion/sandbox.j1",
        ]
    );
}

#[test]
fn v1_usage() {
    assert_eq!(read_counter("12345\n"), Some(12345));
    assert_eq!(read_counter("  7 "), Some(7));
    assert_eq!(read_counter("seven"), None);
    assert_eq!(read_counter(""), None);
    assert_eq!(
        CgroupV1::resource_usage("1500000000\n", "4096\n"),
        Some(InternalResourceUsageData { time: 1_500_000_000, memory: Some(4096) })
    );
    assert_eq!(CgroupV1::resource_usage("x", "4096\n"), None);
    assert_eq!(CgroupV1::resource_usage("1", ""), None);
}

#[test]
fn v2_paths_and_plan() {
    let d = CgroupV2 {
        cgroupfs_path: "/sys/fs/cgroup".to_string(),
        cgroup_prefix: vec!["minion".to_string()],
    };
    assert_eq!(d.get_cgroup_prefix(), "/sys/fs/cgroup/minion");
    assert_eq!(d.get_path_for_cgroup_unified("abc"), "/sys/fs/cgroup/minion/sandbox.abc");
    assert_eq!(d.delete_group("abc"), "/sys/fs/cgroup/minion/sandbox.abc");
    assert_eq!(d.cpu_stat_file("abc"), "/sys/fs/cgroup/minion/sandbox.abc/cpu.stat");
    assert_eq!(
        ops(&d.create_group("abc", &limits())),
        vec![
            "mkdir /sys/fs/cgroup/minion/sandbox.abc",
            "try-write /sys/fs/cgroup/minion/cgroup.subtree_control +pids +cpu +memory",
            "write /sys/fs/cgroup/minion/sandbox.abc/pids.max 16",
            "write /sys/fs/cgroup/minion/sandbox.abc/memory.max 256000000",
            "open /sys/fs/cgroup/minion/sandbox.abc/cgroup.procs",
        ]
    );
}

#[test]
fn v2_cpu_usage() {
    let stat = "usage_usec 1234\nuser_usec 1000\nsystem_usec 234\n";
    assert_eq!(CgroupV2::get_cpu_usage(stat), 1_234_000);
    assert_eq!(CgroupV2::get_cpu_usage("user_usec 5\n"), u64::MAX);
    assert_eq!(CgroupV2::get_cpu_usage(""), u64::MAX);
    assert_eq!(CgroupV2::get_cpu_usage("usage_usec x\n"), u64::MAX);
    assert_eq!(CgroupV2::get_cpu_usage("usage_usec 1\nusage_usec 2"), 2000);
    assert_eq!(CgroupV2::get_cpu_usage("usage_usec 7\nusage_usec bad\n"), 7000);
    assert_eq!(CgroupV2::get_cpu_usage("usage_usec usage_usec 3\n"), 3000);
    assert_eq!(CgroupV2::get_cpu_usage("usage_usec 18446744073709551615\n"), u64::MAX);
    assert_eq!(CgroupV2::get_cpu_usage("usage_usec 18446744073709551\n"), 18446744073709551000);
    assert_eq!(
        CgroupV2::resource_usage(stat),
        InternalResourceUsageData { time: 1_234_000, memory: None }
    );
}

#[test]
fn prlimit_rounds_cpu_time_up() {
    let plan = |cpu_usage: u64| {
        PrlimitEnter { limits: ResourceLimits { pids_max: 3, memory_max: 99, cpu_usage } }.join()
    };
    assert_eq!(plan(1_000_000_000), RlimitPlan { data: 99, nproc: 3, cpu: 1 });
    assert_eq!(plan(1_000_000_001).cpu, 2);
    assert_eq!(plan(999_999_999).cpu, 1);
    assert_eq!(plan(1).cpu, 1);
    assert_eq!(plan(0).cpu, 0);
    assert_eq!(plan(u64::MAX).cpu, 18_446_744_074);
}

#[test]
fn prlimit_refuses_many_processes_without_root() {
    let mut rootless = Prlimit::new(false);
    let id = "abc".to_string();
    let many = ResourceLimits { pids_max: 2, memory_max: 1, cpu_usage: 1 };
    let one = ResourceLimits { pids_max: 1, memory_max: 1, cpu_usage: 1 };
    assert!(matches!(
        rootless.create_group(&id, &many),
        Err(PrlimitError::PidsLimitEnforcementImpossible)
    ));
    assert!(!rootless.has_group(&id));
    assert_eq!(rootless.create_group(&id, &one).unwrap(), PrlimitEnter { limits: one });
    assert!(rootless.has_group(&id));
    let mut rooted = Prlimit::new(true);
    assert_eq!(rooted.create_group(&id, &many).unwrap(), PrlimitEnter { limits: many });
}

#[test]
fn prlimit_groups_come_and_go() {
    let mut d = Prlimit::new(true);
    let a = "a".to_string();
    let b = "b".to_string();
    assert!(!d.register_group_details(&a));
    d.create_group(&a, &limits()).unwrap();
    d.create_group(&b, &limits()).unwrap();
    d.create_group(&a, &limits()).unwrap();
    assert!(d.has_group(&a) && d.has_group(&b));
    assert!(!d.has_zygote(&a));
    assert!(d.register_group_details(&a));
    assert!(d.has_zygote(&a) && !d.has_zygote(&b));
    assert!(d.delete_group(&a));
    assert!(!d.has_group(&a) && !d.has_zygote(&a) && d.has_group(&b));
    assert!(!d.delete_group(&a));
}

#[test]
fn prlimit_usage_comes_from_the_zygote() {
    let info = ResourceUsageInformation { memory: 2048, cpu: 77 };
    assert_eq!(
        Prlimit::resource_usage(Some(info)).unwrap(),
        InternalResourceUsageData { time: 77, memory: Some(2048) }
    );
    assert!(matches!(Prlimit::resource_usage(None), Err(PrlimitError::SandboxGone)));
}

#[test]
fn cgroup_enter_handles() {
    assert_eq!(CgroupEnter::V1(vec![3, 4, 5]).fds(), vec![3, 4, 5]);
    assert_eq!(CgroupEnter::V2(9).fds(), vec![9]);
    assert_eq!(CgroupEnter::join_payload(4242), "4242");
    assert_eq!(CgroupEnter::join_payload(0), "0");
    assert_eq!(CgroupEnter::join_payload(u32::MAX), "4294967295");
}

#[test]
fn join_stops_at_the_first_failure() {
    assert_eq!(CgroupEnter::join(&vec![None, None, None]), Ok(()));
    assert_eq!(CgroupEnter::join(&vec![None, Some(13), Some(5)]), Err(13));
    assert_eq!(CgroupEnter::join(&vec![Some(22)]), Err(22));
    assert_eq!(CgroupEnter::join(&vec![]), Ok(()));
}

#[test]
fn check_access_tolerates_invalid_argument() {
    assert_eq!(CgroupEnter::check_access(&vec![Some(22), Some(22)]), Ok(()));
    assert_eq!(CgroupEnter::check_access(&vec![Some(13), Some(22)]), Err(13));
    assert_eq!(CgroupEnter::check_access(&vec![Some(13), None, Some(9)]), Err(9));
    assert_eq!(CgroupEnter::check_access(&vec![]), Ok(()));
}

#[test]
fn prlimit_checks_limits_without_making_a_group() {
    let many = ResourceLimits { pids_max: 2, memory_max: 1, cpu_usage: 1 };
    let one = ResourceLimits { pids_max: 1, memory_max: 1, cpu_usage: 1 };
    assert!(matches!(
        Prlimit::new(false).check_limits(&many),
        Err(PrlimitError::PidsLimitEnforcementImpossible)
    ));
    assert!(Prlimit::new(false).check_limits(&one).is_ok());
    assert!(Prlimit::new(true).check_limits(&many).is_ok());
}

fn v1_driver() -> Driver {
    Driver::new_raw(&RawSettings::Cgroup {
        prefix: "/minion".to_string(),
        mount: "/cg".to_string(),
        version: CgroupVersion::V1,
    })
}

fn v2_driver() -> Driver {
    Driver::new_raw(&RawSettings::Cgroup {
        prefix: "/minion".to_string(),
        mount: "/cg".to_string(),
        version: CgroupVersion::V2,
    })
}

fn prlimit_driver(root: bool) -> Driver {
    Driver::new_raw(&RawSettings::Prlimit { allow_many_pids: root })
}

#[test]
fn one_interface_over_three_drivers() {
    match v1_driver().create_group("j", &limits()).unwrap() {
        GroupPlan::Cgroup { version, ops: plan } => {
            assert_eq!(version, CgroupVersion::V1);
            assert_eq!(ops(&plan).len(), 9);
            assert_eq!(ops(&plan)[0], "mkdir /cg/cpuacct/minion/sandbox.j");
        }
        other => panic!("unexpected {:?}", other),
    }
    match v2_driver().create_group("j", &limits()).unwrap() {
        GroupPlan::Cgroup { version, ops: plan } => {
            assert_eq!(version, CgroupVersion::V2);
            assert_eq!(ops(&plan).len(), 5);
            assert_eq!(ops(&plan)[4], "open /cg/minion/sandbox.j/cgroup.procs");
        }
        other => panic!("unexpected {:?}", other),
    }
    let mut d = prlimit_driver(true);
    match d.create_group("j", &limits()).unwrap() {
        GroupPlan::Prlimit(enter) => assert_eq!(enter, PrlimitEnter { limits: limits() }),
        other => panic!("unexpected {:?}", other),
    }
    assert!(d.register_group_details("j"));
    assert!(!d.register_group_details("k"));
    assert!(matches!(
        prlimit_driver(false).create_group("j", &limits()),
        Err(DriverError::Prlimit(PrlimitError::PidsLimitEnforcementImpossible))
    ));
    assert!(v1_driver().register_group_details("anything"));
}

#[test]
fn smoke_plans() {
    let check = smoke_check();
    assert!(matches!(v1_driver().smoke_plan(&check), Ok(GroupPlan::Cgroup { .. })));
    assert!(matches!(v2_driver().smoke_plan(&check), Ok(GroupPlan::Cgroup { .. })));
    assert!(matches!(prlimit_driver(true).smoke_plan(&check), Ok(GroupPlan::Prlimit(_))));
    assert!(matches!(
        prlimit_driver(false).smoke_plan(&check),
        Err(DriverError::Prlimit(PrlimitError::PidsLimitEnforcementImpossible))
    ));
}

#[test]
fn enter_handles_from_plans() {
    let plan = v1_driver().create_group("j", &limits()).unwrap();
    let handle = OpaqueEnterHandle::new(plan, vec![7, 8, 9]).unwrap();
    assert_eq!(handle.check_access(), vec![7, 8, 9]);
    match handle.join(4242) {
        JoinPlan::WritePid { fds, payload } => {
            assert_eq!(fds, vec![7, 8, 9]);
            assert_eq!(payload, "4242");
        }
        other => panic!("unexpected {:?}", other),
    }
    let plan = v1_driver().create_group("j", &limits()).unwrap();
    assert!(OpaqueEnterHandle::new(plan, vec![7, 8]).is_none());
    let plan = v2_driver().create_group("j", &limits()).unwrap();
    assert_eq!(OpaqueEnterHandle::new(plan, vec![5]).unwrap().check_access(), vec![5]);
    let plan = v2_driver().create_group("j", &limits()).unwrap();
    assert!(OpaqueEnterHandle::new(plan, vec![]).is_none());
    let plan = prlimit_driver(true).create_group("j", &limits()).unwrap();
    let handle = OpaqueEnterHandle::new(plan, vec![]).unwrap();
    assert!(handle.check_access().is_empty());
    match handle.join(1) {
        JoinPlan::SetLimits(plan) => {
            assert_eq!(plan, RlimitPlan { data: 256_000_000, nproc: 16, cpu: 1 })
        }
        other => panic!("unexpected {:?}", other),
    }
    let plan = prlimit_driver(true).create_group("j", &limits()).unwrap();
    assert!(OpaqueEnterHandle::new(plan, vec![3]).is_none());
}

#[test]
fn usage_through_the_driver() {
    let request = v1_driver().usage_request("j");
    assert_eq!(
        request.files,
        vec![
            "/cg/cpuacct/minion/sandbox.j/cpuacct.usage",
            "/cg/memory/minion/sandbox.j/memory.max_usage_in_bytes",
        ]
    );
    assert!(!request.ask_zygote);
    let request = v2_driver().usage_request("j");
    assert_eq!(request.files, vec!["/cg/minion/sandbox.j/cpu.stat"]);
    assert!(!request.ask_zygote);
    let request = prlimit_driver(true).usage_request("j");
    assert!(request.files.is_empty() && request.ask_zygote);

    let reading = |files: &[&str], zygote| UsageReading {
        files: files.iter().map(|f| f.to_string()).collect(),
        zygote,
    };
    assert_eq!(
        v1_driver().resource_usage(&reading(&["5\n", "7\n"], None)).unwrap(),
        InternalResourceUsageData { time: 5, memory: Some(7) }
    );
    assert!(matches!(
        v1_driver().resource_usage(&reading(&["5\n"], None)),
        Err(DriverError::Cgroup(CgroupError::Read { .. }))
    ));
    assert!(matches!(
        v1_driver().resource_usage(&reading(&["5\n", "x"], None)),
        Err(DriverError::Cgroup(CgroupError::Read { .. }))
    ));
    assert_eq!(
        v2_driver().resource_usage(&reading(&["usage_usec 3\n"], None)).unwrap(),
        InternalResourceUsageData { time: 3000, memory: None }
    );
    assert!(matches!(
        v2_driver().resource_usage(&reading(&[], None)),
        Err(DriverError::Cgroup(CgroupError::Read { .. }))
    ));
    let info = ResourceUsageInformation { memory: 9, cpu: 4 };
    assert_eq!(
        prlimit_driver(true).resource_usage(&reading(&[], Some(info))).unwrap(),
        InternalResourceUsageData { time: 4, memory: Some(9) }
    );
    assert!(matches!(
        prlimit_driver(true).resource_usage(&reading(&[], None)),
        Err(DriverError::Prlimit(PrlimitError::SandboxGone))
    ));
}

#[test]
fn groups_are_deleted_through_the_driver() {
    assert_eq!(
        v1_driver().delete_group("j"),
        vec![
            "/cg/pids/minion/sandbox.j",
            "/cg/memory/minion/sandbox.j",
            "/cg/cpuacct/minion/sandbox.j",
        ]
    );
    assert_eq!(v2_driver().delete_group("j"), vec!["/cg/minion/sandbox.j"]);
    let mut d = prlimit_driver(true);
    d.create_group("j", &limits()).unwrap();
    assert!(d.delete_group("j").is_empty());
    assert!(!d.register_group_details("j"));
}

#[test]
fn settings_to_start_from() {
    let s = Settings::new();
    assert_eq!(s.cgroup.name_prefix, "/minion");
    assert_eq!(s.cgroup.mount, "/sys/fs/cgroup");
    assert_eq!(s.resource_drivers, vec![ResourceDriverKind::Auto { allow_dangerous: false }]);
    assert!(!s.rootless && !s.allow_unsupported_mount_namespace);
    assert!(s.uid.low <= s.uid.high);
    let s = Settings::with_cgroupfs(Some("/cg".to_string()));
    assert_eq!(s.cgroup.mount, "/cg");
    assert_eq!(s.cgroup.name_prefix, "/minion");
    assert_eq!(Settings::with_cgroupfs(None).cgroup.mount, "/sys/fs/cgroup");
}

fn compiled() -> CompiledPolicies {
    CompiledPolicies { deny_dangerous: vec![1; 16], unrestricted: vec![2; 8], pure: vec![3; 24] }
}

#[test]
fn scenario_process_count_limit() {
    let one = ResourceLimits { pids_max: 1, memory_max: 4 << 20, cpu_usage: 1_000_000_000 };
    let v1 = CgroupV1 { cgroupfs_path: "/cg".to_string(), cgroup_prefix: vec![] };
    assert!(ops(&v1.create_group("j", &one)).contains(&"write /cg/pids/sandbox.j/pids.max 1".to_string()));
    let v2 = CgroupV2 { cgroupfs_path: "/cg".to_string(), cgroup_prefix: vec![] };
    assert!(ops(&v2.create_group("j", &one)).contains(&"write /cg/sandbox.j/pids.max 1".to_string()));
    assert_eq!(PrlimitEnter { limits: one }.join().nproc, 1);
    assert!(Prlimit::new(false).check_limits(&one).is_ok());
}

#[test]
fn scenario_memory_limit() {
    let small = ResourceLimits { pids_max: 1, memory_max: 4 << 20, cpu_usage: 1_000_000_000 };
    let v1 = CgroupV1 { cgroupfs_path: "/cg".to_string(), cgroup_prefix: vec![] };
    let plan = ops(&v1.create_group("j", &small));
    assert!(plan.contains(&"write /cg/memory/sandbox.j/memory.limit_in_bytes 4194304".to_string()));
    assert!(plan.contains(&"write /cg/memory/sandbox.j/memory.swappiness 0".to_string()));
    let v2 = CgroupV2 { cgroupfs_path: "/cg".to_string(), cgroup_prefix: vec![] };
    assert!(ops(&v2.create_group("j", &small))
        .contains(&"write /cg/sandbox.j/memory.max 4194304".to_string()));
    assert_eq!(PrlimitEnter { limits: small }.join().data, 4194304);
}
