use minion::linux::seccomp::{Action, CompiledPolicies, Seccomp, SeccompPolicy, Syscall};

const ALL: [Syscall; 13] = [
    Syscall::Ptrace,
    Syscall::ProcessVmReadv,
    Syscall::ProcessVmWritev,
    Syscall::Kill,
    Syscall::Exit,
    Syscall::Fork,
    Syscall::Clone,
    Syscall::Read,
    Syscall::Write,
    Syscall::Wait4,
    Syscall::Waitid,
    Syscall::Execve,
    Syscall::Other,
];

fn compiled() -> CompiledPolicies {
    CompiledPolicies { deny_dangerous: vec![1; 16], unrestricted: vec![2; 8], pure: vec![3; 24] }
}

#[test]
fn unrestricted_allows_everything() {
    for call in ALL {
        assert_eq!(SeccompPolicy::Unrestricted.action(call), Some(Action::Allow));
    }
}

#[test]
fn deny_dangerous_forbids_four_calls() {
    let forbidden =
        [Syscall::Ptrace, Syscall::ProcessVmReadv, Syscall::ProcessVmWritev, Syscall::Kill];
    for call in ALL {
        let expected = if forbidden.contains(&call) { Action::Errno(1) } else { Action::Allow };
        assert_eq!(SeccompPolicy::DenyDangerous.action(call), Some(expected));
    }
}

#[test]
fn pure_allows_eight_calls() {
    let allowed = [
        Syscall::Exit,
        Syscall::Fork,
        Syscall::Clone,
        Syscall::Read,
        Syscall::Write,
        Syscall::Wait4,
        Syscall::Waitid,
        Syscall::Execve,
    ];
    for call in ALL {
        let expected = if allowed.contains(&call) { Action::Allow } else { Action::Errno(1) };
        assert_eq!(SeccompPolicy::Pure.action(call), Some(expected));
    }
}

#[test]
fn a_manual_policy_is_not_known() {
    let policy = SeccompPolicy::Manual { policy: vec![0; 8] };
    assert_eq!(policy.action(Syscall::Read), None);
    assert!(policy.rules().is_none());
}

#[test]
fn rules_agree_with_the_policy() {
    for policy in [SeccompPolicy::Unrestricted, SeccompPolicy::DenyDangerous, SeccompPolicy::Pure] {
        let rules = policy.rules().unwrap();
        for call in ALL {
            if call == Syscall::Other {
                assert_eq!(policy.action(call), Some(rules.default));
                continue;
            }
            let by_rules = rules
                .overrides
                .iter()
                .find(|(c, _)| *c == call)
                .map(|(_, a)| *a)
                .unwrap_or(rules.default);
            assert_eq!(policy.action(call), Some(by_rules));
        }
    }
    assert_eq!(SeccompPolicy::DenyDangerous.rules().unwrap().overrides.len(), 4);
    assert_eq!(SeccompPolicy::Pure.rules().unwrap().overrides.len(), 8);
    assert_eq!(SeccompPolicy::Pure.rules().unwrap().default, Action::Errno(1));
    assert!(SeccompPolicy::Unrestricted.rules().unwrap().overrides.is_empty());
}

#[test]
fn filters_are_picked_by_policy() {
    let c = compiled();
    assert_eq!(Seccomp::new(&SeccompPolicy::DenyDangerous, &c).0, vec![1; 16]);
    assert_eq!(Seccomp::new(&SeccompPolicy::Unrestricted, &c).0, vec![2; 8]);
    assert_eq!(Seccomp::new(&SeccompPolicy::Pure, &c).0, vec![3; 24]);
    assert_eq!(Seccomp::new(&SeccompPolicy::Manual { policy: vec![9; 40] }, &c).0, vec![9; 40]);
}

#[test]
fn instruction_count_of_a_filter() {
    assert_eq!(Seccomp(vec![0; 24]).instruction_count(), Some(3));
    assert_eq!(Seccomp(vec![0; 7]).instruction_count(), Some(0));
    assert_eq!(Seccomp(vec![]).instruction_count(), Some(0));
    assert_eq!(Seccomp(vec![0; 8 * 65535]).instruction_count(), Some(65535));
    assert_eq!(Seccomp(vec![0; 8 * 65536]).instruction_count(), None);
}
