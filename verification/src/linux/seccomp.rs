//! The system call filters of a job.
//!
//! A filter is a compiled program that the kernel runs on every system
//! call of the job. Three policies come compiled with the backend; a
//! caller may also bring a program of its own.
use vstd::prelude::*;

verus! {

/// The error number for an operation that is not permitted.
pub const EPERM: i32 = 1;

/// The size of one instruction of a filter, in bytes.
pub const INSTRUCTION_SIZE: usize = 8;

/// What a filter does with a system call.
#[derive(Debug, Clone, Copy, PartialEq, Eq, Structural)]
pub enum Action {
    /// The call goes through.
    Allow,
    /// The call fails with this error number.
    Errno(i32),
}

/// The system calls that the policies single out.
#[derive(Debug, Clone, Copy, PartialEq, Eq, Structural)]
pub enum Syscall {
    Ptrace,
    ProcessVmReadv,
    ProcessVmWritev,
    Kill,
    Exit,
    Fork,
    Clone,
    Read,
    Write,
    Wait4,
    Waitid,
    Execve,
    /// Any other call.
    Other,
}

/// Which system calls a job may make.
#[derive(Debug, Clone)]
pub enum SeccompPolicy {
    /// A compiled filter that the caller brings.
    Manual { policy: Vec<u8> },
    /// Everything but what lets a process meddle with another one.
    DenyDangerous,
    /// Everything.
    Unrestricted,
    /// Only what a program needs to compute, fork and run.
    Pure,
}

/// Whether a call lets a process meddle with another one.
pub open spec fn is_dangerous(call: Syscall) -> bool {
    call is Ptrace || call is ProcessVmReadv || call is ProcessVmWritev || call is Kill
}

/// Whether a call is one that a pure program needs.
pub open spec fn is_safe(call: Syscall) -> bool {
    call is Exit || call is Fork || call is Clone || call is Read || call is Write
        || call is Wait4 || call is Waitid || call is Execve
}

/// What a built-in policy does with a call. A filter brought by the
/// caller is not known.
pub open spec fn policy_action(policy: SeccompPolicy, call: Syscall) -> Option<Action> {
    match policy {
        SeccompPolicy::Manual { .. } => None,
        SeccompPolicy::Unrestricted => Some(Action::Allow),
        SeccompPolicy::DenyDangerous => Some(
            if is_dangerous(call) {
                Action::Errno(EPERM)
            } else {
                Action::Allow
            },
        ),
        SeccompPolicy::Pure => Some(
            if is_safe(call) {
                Action::Allow
            } else {
                Action::Errno(EPERM)
            },
        ),
    }
}

/// The rules that a built-in policy is compiled from: what happens to a
/// call by default, and the calls for which something else happens.
#[derive(Debug)]
pub struct Rules {
    pub default: Action,
    pub overrides: Vec<(Syscall, Action)>,
}

/// What `rules` do with a call: what the first override for the call
/// says, or else the default.
pub open spec fn rules_action(
    default: Action,
    overrides: Seq<(Syscall, Action)>,
    call: Syscall,
) -> Action
    decreases overrides.len(),
{
    if overrides.len() == 0 {
        default
    } else if overrides[0].0 == call {
        overrides[0].1
    } else {
        rules_action(default, overrides.skip(1), call)
    }
}

impl SeccompPolicy {
    /// What the policy does with `call`, for a built-in policy.
    pub fn action(&self, call: Syscall) -> (r: Option<Action>)
        ensures
            r == policy_action(*self, call),
    {
        match self {
            SeccompPolicy::Manual { .. } => None,
            SeccompPolicy::Unrestricted => Some(Action::Allow),
            SeccompPolicy::DenyDangerous => match call {
                Syscall::Ptrace | Syscall::ProcessVmReadv | Syscall::ProcessVmWritev
                | Syscall::Kill => Some(Action::Errno(EPERM)),
                _ => Some(Action::Allow),
            },
            SeccompPolicy::Pure => match call {
                Syscall::Exit | Syscall::Fork | Syscall::Clone | Syscall::Read | Syscall::Write
                | Syscall::Wait4 | Syscall::Waitid | Syscall::Execve => Some(Action::Allow),
                _ => Some(Action::Errno(EPERM)),
            },
        }
    }

    /// The rules from which the filter of a built-in policy is compiled.
    /// They do with every call what the policy does with it.
    pub fn rules(&self) -> (r: Option<Rules>)
        ensures
            match r {
                Some(rules) => forall|call: Syscall|
                    policy_action(*self, call) == Some(
                        #[trigger] rules_action(rules.default, rules.overrides@, call),
                    ),
                None => *self is Manual,
            },
    {
        match self {
            SeccompPolicy::Manual { .. } => None,
            SeccompPolicy::Unrestricted => {
                let overrides: Vec<(Syscall, Action)> = Vec::new();
                Some(Rules { default: Action::Allow, overrides })
            },
            SeccompPolicy::DenyDangerous => {
                let mut overrides: Vec<(Syscall, Action)> = Vec::new();
                overrides.push((Syscall::Ptrace, Action::Errno(EPERM)));
                overrides.push((Syscall::ProcessVmReadv, Action::Errno(EPERM)));
                overrides.push((Syscall::ProcessVmWritev, Action::Errno(EPERM)));
                overrides.push((Syscall::Kill, Action::Errno(EPERM)));
                proof {
                    reveal_with_fuel(rules_action, 6);
                }
                Some(Rules { default: Action::Allow, overrides })
            },
            SeccompPolicy::Pure => {
                let mut overrides: Vec<(Syscall, Action)> = Vec::new();
                overrides.push((Syscall::Exit, Action::Allow));
                overrides.push((Syscall::Fork, Action::Allow));
                overrides.push((Syscall::Clone, Action::Allow));
                overrides.push((Syscall::Read, Action::Allow));
                overrides.push((Syscall::Write, Action::Allow));
                overrides.push((Syscall::Wait4, Action::Allow));
                overrides.push((Syscall::Waitid, Action::Allow));
                overrides.push((Syscall::Execve, Action::Allow));
                proof {
                    reveal_with_fuel(rules_action, 10);
                }
                Some(Rules { default: Action::Errno(EPERM), overrides })
            },
        }
    }
}

/// The filters of the built-in policies, compiled.
#[derive(Debug, Clone)]
pub struct CompiledPolicies {
    pub deny_dangerous: Vec<u8>,
    pub unrestricted: Vec<u8>,
    pub pure: Vec<u8>,
}

/// A compiled filter, ready to be loaded.
#[derive(Debug, Clone)]
pub struct Seccomp(pub Vec<u8>);

impl Seccomp {
    /// The filter of `policy`: the one that the caller brought, or the
    /// compiled filter of the built-in policy.
    pub fn new(policy: &SeccompPolicy, compiled: &CompiledPolicies) -> (r: Self)
        ensures
            r.0@ == match policy {
                SeccompPolicy::Manual { policy } => policy@,
                SeccompPolicy::DenyDangerous => compiled.deny_dangerous@,
                SeccompPolicy::Unrestricted => compiled.unrestricted@,
                SeccompPolicy::Pure => compiled.pure@,
            },
    {
        match policy {
            SeccompPolicy::Manual { policy } => Seccomp(policy.clone()),
            SeccompPolicy::DenyDangerous => Seccomp(compiled.deny_dangerous.clone()),
            SeccompPolicy::Unrestricted => Seccomp(compiled.unrestricted.clone()),
            SeccompPolicy::Pure => Seccomp(compiled.pure.clone()),
        }
    }

    /// The number of instructions of the filter, as the kernel is told.
    /// Nothing for a filter with more instructions than the kernel can
    /// be told of.
    pub fn instruction_count(&self) -> (r: Option<u16>)
        ensures
            r == if self.0@.len() / 8 <= u16::MAX {
                Some((self.0@.len() / 8) as u16)
            } else {
                None
            },
    {
        let count = self.0.len() / INSTRUCTION_SIZE;
        if count <= 0xffff {
            Some(count as u16)
        } else {
            None
        }
    }
}

} // verus!
