use minion::cli::{
    child_options, environment_entry, exit_status, parse_env_item, parse_path_exposition_item,
    sandbox_options, EnvItem,
};
use minion::linux::{handle_input_io, handle_output_io, IoPlan};
use minion::{ExitCode, SharedItemKind};

#[test]
fn env_item_is_cut_at_the_first_equals() {
    let item = parse_env_item("KEY=VAL").unwrap();
    assert_eq!((item.name.as_str(), item.value.as_str()), ("KEY", "VAL"));
    let item = parse_env_item("A=b=c").unwrap();
    assert_eq!((item.name.as_str(), item.value.as_str()), ("A", "b=c"));
    let item = parse_env_item("=x").unwrap();
    assert_eq!((item.name.as_str(), item.value.as_str()), ("", "x"));
    let item = parse_env_item("K=").unwrap();
    assert_eq!((item.name.as_str(), item.value.as_str()), ("K", ""));
    assert_eq!(parse_env_item("KEY").unwrap_err(), "Env item doesn't look like KEY=VAL");
    assert_eq!(parse_env_item("").unwrap_err(), "Env item doesn't look like KEY=VAL");
}

#[test]
fn env_item_round_trip() {
    for (name, value) in [("PATH", "/bin:/usr/bin"), ("X", ""), ("A", "b=c")] {
        let item = EnvItem { name: name.to_string(), value: value.to_string() };
        let entry = environment_entry(&item);
        assert_eq!(entry, format!("{}={}", name, value));
        let back = parse_env_item(&entry).unwrap();
        assert_eq!((back.name.as_str(), back.value.as_str()), (name, value));
    }
}

#[test]
fn exposition_with_three_parts() {
    let item = parse_path_exposition_item("/usr/lib:r-x:/lib").unwrap();
    assert_eq!(item.id, None);
    assert_eq!(item.src, "/usr/lib");
    assert_eq!(item.dest, "/lib");
    assert_eq!(item.kind, SharedItemKind::Readonly);
    assert!(item.flags.is_empty());
    let item = parse_path_exposition_item("/tmp/work:rwx:/work").unwrap();
    assert_eq!(item.kind, SharedItemKind::Full);
}

#[test]
fn exposition_with_flags() {
    let item = parse_path_exposition_item("/a:rwx:/b:recursive").unwrap();
    assert_eq!(item.dest, "/b");
    assert_eq!(item.flags, vec!["recursive"]);
    let item = parse_path_exposition_item("/a:rwx:/b:recursive,x").unwrap();
    assert_eq!(item.flags, vec!["recursive", "x"]);
    let item = parse_path_exposition_item("/a:rwx:/b:").unwrap();
    assert_eq!(item.flags, vec![""]);
    let item = parse_path_exposition_item("/a:rwx:/b:c:d").unwrap();
    assert_eq!(item.dest, "/b");
    assert_eq!(item.flags, vec!["c:d"]);
}

#[test]
fn exposition_errors() {
    assert_eq!(
        parse_path_exposition_item("/a").unwrap_err(),
        "--expose item must look like `src:mode:dest` (3 parts) or `src:mode:dest:flags` (4 parts), but 1 parts was provided"
    );
    assert_eq!(
        parse_path_exposition_item("/a:rwx").unwrap_err(),
        "--expose item must look like `src:mode:dest` (3 parts) or `src:mode:dest:flags` (4 parts), but 2 parts was provided"
    );
    assert_eq!(
        parse_path_exposition_item("/a:rw:/b").unwrap_err(),
        "access mask must contain 3 chars (R, W, X flags), but 2 provided"
    );
    assert_eq!(
        parse_path_exposition_item("/a::/b").unwrap_err(),
        "access mask must contain 3 chars (R, W, X flags), but 0 provided"
    );
    assert_eq!(
        parse_path_exposition_item("/a:r--:/b").unwrap_err(),
        "unknown access mask r--. rwx or r-x expected"
    );
    assert_eq!(
        parse_path_exposition_item("/a:RWX:/b").unwrap_err(),
        "unknown access mask RWX. rwx or r-x expected"
    );
}

#[test]
fn options_from_the_command_line() {
    let o = sandbox_options(16, 256_000_000, 1000, "/tmp/r".to_string(), vec![]);
    assert_eq!(o.max_alive_process_count, 16);
    assert_eq!(o.memory_limit, 256_000_000);
    assert_eq!(o.cpu_time_limit, 1_000_000_000);
    assert_eq!(o.real_time_limit, 3_000_000_000);
    assert_eq!(o.isolation_root, "/tmp/r");
    assert!(o.shared_items.is_empty());
    let o = sandbox_options(usize::MAX, 1, u32::MAX, String::new(), vec![]);
    assert_eq!(o.max_alive_process_count, u32::MAX);
    assert_eq!(o.cpu_time_limit, 4_294_967_295_000_000);
    assert_eq!(o.real_time_limit, 12_884_901_885_000_000);
}

#[test]
fn exit_status_mirrors_the_child() {
    assert_eq!(exit_status(ExitCode(0)), 0);
    assert_eq!(exit_status(ExitCode(1)), 1);
    assert_eq!(exit_status(ExitCode(1009)), 1);
    assert_eq!(exit_status(ExitCode::killed()), 1);
    assert_eq!(exit_status(ExitCode(-1)), 1);
}

#[test]
fn child_from_the_command_line() {
    let env = vec![
        EnvItem { name: "A".to_string(), value: "1".to_string() },
        EnvItem { name: "B".to_string(), value: "x=y".to_string() },
    ];
    let options = child_options(
        "/bin/ls".to_string(),
        vec!["-l".to_string()],
        &env,
        (10, 11, 12),
        "/".to_string(),
    );
    assert_eq!(options.path, "/bin/ls");
    assert_eq!(options.arguments, vec!["-l"]);
    assert_eq!(options.environment, vec!["A=1", "B=x=y"]);
    assert_eq!(options.pwd, "/");
    assert!(options.extra_inherit.is_empty());
    assert_eq!(handle_input_io(options.stdio.stdin), IoPlan::Handle { fd: 10 });
    assert_eq!(handle_output_io(options.stdio.stdout), IoPlan::Handle { fd: 11 });
    assert_eq!(handle_output_io(options.stdio.stderr), IoPlan::Handle { fd: 12 });
}
