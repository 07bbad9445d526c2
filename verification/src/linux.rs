//! The Linux backend: namespaces, resource groups and the zygote.
use crate::linux::jail_common::{JobQuery, JobStartupInfo};
use crate::linux::limits::{
    all_fail_before, candidates_of, fails_with, is_driver_for, Driver, ResourceDriverKind,
};
use crate::linux::sandbox::{first_unknown_flag_of_items, is_setup_for, SandboxSetup};
use crate::linux::seccomp::{CompiledPolicies, Seccomp, SeccompPolicy};
use crate::linux::uid_alloc::{lowest_free, UidAllocator};
use crate::linux::wait::WaitFuture;
use crate::text::string_views;
use crate::{
    relative_item, ChildProcessOptions, Handle, InputSpecification, InputSpecificationData,
    OutputSpecification, OutputSpecificationData, SandboxOptions, SandboxOptionsView,
    SharedItemView,
};
use vstd::prelude::*;

pub mod check;
pub mod error;
pub mod ipc;
pub mod jail_common;
pub mod limits;
pub mod sandbox;
pub mod seccomp;
pub mod uid_alloc;
pub mod wait;
pub mod zygote;

pub use error::Error;
pub use sandbox::LinuxSandbox;

verus! {

/// Where the groups of the sandboxes are made.
#[derive(Debug, Clone)]
pub struct CgroupSettings {
    /// All groups are made below this group. `/minion` by default.
    pub name_prefix: String,
    /// Where the cgroup file system is mounted, of either version.
    /// `/sys/fs/cgroup` by default.
    pub mount: String,
}

/// The host users that sandboxes may run as: from `low` up to, but not
/// including, `high`.
#[derive(Debug, Clone, Copy, PartialEq, Eq, Structural)]
pub struct UidRange {
    pub low: u32,
    pub high: u32,
}

/// Allows some customization of the backend.
#[derive(Debug, Clone)]
pub struct Settings {
    pub cgroup: CgroupSettings,
    /// The resource drivers to try, in order.
    pub resource_drivers: Vec<ResourceDriverKind>,
    /// Work without root: the sandbox runs as the caller, and no user is
    /// set aside for it.
    pub rootless: bool,
    pub uid: UidRange,
    /// Go on where a mount namespace cannot be had.
    pub allow_unsupported_mount_namespace: bool,
    /// The system calls that jobs may make.
    pub seccomp: SeccompPolicy,
}

impl Settings {
    /// The settings to start from: groups below `/minion` in
    /// `/sys/fs/cgroup`, any cgroup driver, with root, a mount namespace
    /// required, and jobs kept from meddling with other processes.
    pub fn new() -> (r: Settings)
        ensures
            r.cgroup.name_prefix@ == "/minion"@,
            r.cgroup.mount@ == "/sys/fs/cgroup"@,
            r.resource_drivers@ == seq![ResourceDriverKind::Auto { allow_dangerous: false }],
            !r.rootless,
            r.uid == (UidRange { low: 1_000_000, high: 2_000_000 }),
            !r.allow_unsupported_mount_namespace,
            r.seccomp is DenyDangerous,
    {
        let mut resource_drivers: Vec<ResourceDriverKind> = Vec::new();
        resource_drivers.push(ResourceDriverKind::Auto { allow_dangerous: false });
        Settings {
            cgroup: CgroupSettings {
                name_prefix: "/minion".to_owned(),
                mount: "/sys/fs/cgroup".to_owned(),
            },
            resource_drivers,
            rootless: false,
            uid: UidRange { low: 1_000_000, high: 2_000_000 },
            allow_unsupported_mount_namespace: false,
            seccomp: SeccompPolicy::DenyDangerous,
        }
    }

    /// The settings to start from, with the cgroup file system mounted
    /// at `cgroupfs` where one is given, as the environment may ask.
    pub fn with_cgroupfs(cgroupfs: Option<String>) -> (r: Settings)
        ensures
            r.cgroup.name_prefix@ == "/minion"@,
            r.cgroup.mount@ == match cgroupfs {
                Some(mount) => mount@,
                None => "/sys/fs/cgroup"@,
            },
            r.resource_drivers@ == seq![ResourceDriverKind::Auto { allow_dangerous: false }],
            !r.rootless,
            r.uid == (UidRange { low: 1_000_000, high: 2_000_000 }),
            !r.allow_unsupported_mount_namespace,
            r.seccomp is DenyDangerous,
    {
        let mut settings = Settings::new();
        match cgroupfs {
            Some(mount) => {
                settings.cgroup.mount = mount;
            },
            None => {},
        }
        settings
    }
}

impl Default for Settings {
    fn default() -> (r: Settings)
        ensures
            r.cgroup.name_prefix@ == "/minion"@,
            r.cgroup.mount@ == "/sys/fs/cgroup"@,
            r.resource_drivers@ == seq![ResourceDriverKind::Auto { allow_dangerous: false }],
            !r.rootless,
            r.uid == (UidRange { low: 1_000_000, high: 2_000_000 }),
            !r.allow_unsupported_mount_namespace,
            r.seccomp is DenyDangerous,
    {
        Settings::new()
    }
}

/// Flag of a memory file: closed on exec.
pub const MFD_CLOEXEC: u32 = 1;

/// Flag of a memory file: it can be sealed.
pub const MFD_ALLOW_SEALING: u32 = 2;

/// How one standard stream of a child is provided: what the caller
/// keeps, and what the child gets.
#[derive(Debug, Clone, Copy, PartialEq, Eq, Structural)]
pub enum IoPlan {
    /// The caller keeps nothing, and the child finds its slot empty.
    Null,
    /// The caller keeps nothing. The child gets `/dev/null`, opened for
    /// reading only or for writing only.
    DevNull { writable: bool },
    /// A new pipe: the caller keeps one end, the child gets the other.
    Pipe,
    /// The caller keeps nothing and gives its descriptor up to the
    /// child.
    Handle { fd: i32 },
    /// A new memory file made with `flags`, cut to `size` bytes if there
    /// is a bound: the caller keeps it to read from, the child gets a
    /// duplicate.
    Buffer { flags: u32, size: Option<usize> },
}

/// Whether the caller keeps an end of the stream.
pub open spec fn caller_keeps(plan: IoPlan) -> bool {
    plan is Pipe || plan is Buffer
}

/// Whether the child gets a descriptor for the stream.
pub open spec fn child_gets(plan: IoPlan) -> bool {
    !(plan is Null)
}

/// The flags of the memory file of a buffer: closed on exec, and open to
/// sealing where the buffer has a bound.
pub open spec fn memfd_flags(size: Option<usize>) -> u32 {
    if size is Some {
        MFD_CLOEXEC | MFD_ALLOW_SEALING
    } else {
        MFD_CLOEXEC
    }
}

/// The flags of a memory file as numbers: 1 without a bound, 3 with one.
pub proof fn lemma_memfd_flag_values()
    ensures
        memfd_flags(None) == 1,
        forall|size: usize| #[trigger] memfd_flags(Some(size)) == 3,
{
    assert(1u32 | 2u32 == 3u32) by (bit_vector);
}

/// The plan for the standard input that `spec` asks for.
pub open spec fn input_plan(spec: InputSpecificationData) -> IoPlan {
    match spec {
        InputSpecificationData::Null => IoPlan::Null,
        InputSpecificationData::Empty => IoPlan::DevNull { writable: false },
        InputSpecificationData::Pipe => IoPlan::Pipe,
        InputSpecificationData::Handle(h) => IoPlan::Handle { fd: h.value() as i32 },
    }
}

/// The plan for the standard output or error that `spec` asks for.
pub open spec fn output_plan(spec: OutputSpecificationData) -> IoPlan {
    match spec {
        OutputSpecificationData::Null => IoPlan::Null,
        OutputSpecificationData::Ignore => IoPlan::DevNull { writable: true },
        OutputSpecificationData::Pipe => IoPlan::Pipe,
        OutputSpecificationData::Buffer(size) => IoPlan::Buffer { flags: memfd_flags(size), size },
        OutputSpecificationData::Handle(h) => IoPlan::Handle { fd: h.value() as i32 },
    }
}

/// Each way to provide a stream leaves the caller and the child with
/// what it is meant to: nothing for either where nothing is asked for; a
/// descriptor for the child alone where the stream is empty, thrown away
/// or a descriptor given up; and an end for both where a pipe or a
/// buffer is made.
pub proof fn lemma_stdio_plans(input: InputSpecificationData, output: OutputSpecificationData)
    ensures
        caller_keeps(input_plan(input)) == (input is Pipe),
        child_gets(input_plan(input)) == !(input is Null),
        caller_keeps(output_plan(output)) == (output is Pipe || output is Buffer),
        child_gets(output_plan(output)) == !(output is Null),
{
}

/// Whether a handle names a descriptor of this system.
pub open spec fn is_descriptor(h: Handle) -> bool {
    h.value() <= i32::MAX
}

/// Whether the handle of an input specification, if it has one, names a
/// descriptor.
pub open spec fn input_is_valid(spec: InputSpecificationData) -> bool {
    spec matches InputSpecificationData::Handle(h) ==> is_descriptor(h)
}

/// Whether the handle of an output specification, if it has one, names
/// a descriptor.
pub open spec fn output_is_valid(spec: OutputSpecificationData) -> bool {
    spec matches OutputSpecificationData::Handle(h) ==> is_descriptor(h)
}

/// Plans how the standard input of a child is provided.
pub fn handle_input_io(spec: InputSpecification) -> (plan: IoPlan)
    requires
        input_is_valid(spec.data()),
    ensures
        plan == input_plan(spec.data()),
{
    match spec.0 {
        InputSpecificationData::Pipe => IoPlan::Pipe,
        InputSpecificationData::Handle(h) => IoPlan::Handle { fd: h.raw() as i32 },
        InputSpecificationData::Empty => IoPlan::DevNull { writable: false },
        InputSpecificationData::Null => IoPlan::Null,
    }
}

/// Plans how the standard output or error of a child is provided.
pub fn handle_output_io(spec: OutputSpecification) -> (plan: IoPlan)
    requires
        output_is_valid(spec.data()),
    ensures
        plan == output_plan(spec.data()),
{
    match spec.0 {
        OutputSpecificationData::Null => IoPlan::Null,
        OutputSpecificationData::Handle(h) => IoPlan::Handle { fd: h.raw() as i32 },
        OutputSpecificationData::Pipe => IoPlan::Pipe,
        OutputSpecificationData::Ignore => IoPlan::DevNull { writable: true },
        OutputSpecificationData::Buffer(size) => {
            let flags = match size {
                Some(_) => MFD_CLOEXEC | MFD_ALLOW_SEALING,
                None => MFD_CLOEXEC,
            };
            IoPlan::Buffer { flags, size }
        },
    }
}

/// What starts a child: the request for the zygote, which names the
/// slots of the extra descriptors, and how each standard stream is
/// provided.
#[derive(Debug)]
pub struct SpawnPlan {
    pub query: JobQuery,
    pub stdin: IoPlan,
    pub stdout: IoPlan,
    pub stderr: IoPlan,
}

/// The slots of the extra descriptors of a child: each descriptor takes
/// in the child the number it has in the caller.
pub open spec fn extra_slots(extra: Seq<Handle>) -> Seq<i32> {
    extra.map_values(|h: Handle| h.value() as i32)
}

/// Whether the options of a child name descriptors of this system only.
pub open spec fn options_are_valid(options: ChildProcessOptions) -> bool {
    &&& input_is_valid(options.stdio.stdin.data())
    &&& output_is_valid(options.stdio.stdout.data())
    &&& output_is_valid(options.stdio.stderr.data())
    &&& forall|i: int| 0 <= i < options.extra_inherit@.len() ==> is_descriptor(
        #[trigger] options.extra_inherit@[i],
    )
}

/// Plans the start of a child with `options`.
pub fn spawn(options: ChildProcessOptions) -> (plan: SpawnPlan)
    requires
        options_are_valid(options),
    ensures
        plan.query.image_path@ == options.path@,
        string_views(plan.query.argv@) == string_views(options.arguments@),
        string_views(plan.query.environment@) == string_views(options.environment@),
        plan.query.pwd@ == options.pwd@,
        plan.query.extra_fds@ == extra_slots(options.extra_inherit@),
        plan.stdin == input_plan(options.stdio.stdin.data()),
        plan.stdout == output_plan(options.stdio.stdout.data()),
        plan.stderr == output_plan(options.stdio.stderr.data()),
{
    let mut extra_fds: Vec<i32> = Vec::new();
    let mut i: usize = 0;
    while i < options.extra_inherit.len()
        invariant
            i <= options.extra_inherit.len(),
            options_are_valid(options),
            extra_fds@ == extra_slots(options.extra_inherit@).take(i as int),
        decreases options.extra_inherit.len() - i,
    {
        extra_fds.push(options.extra_inherit[i].raw() as i32);
        assert(extra_slots(options.extra_inherit@).take(i + 1) == extra_slots(
            options.extra_inherit@,
        ).take(i as int).push(options.extra_inherit@[i as int].value() as i32));
        i += 1;
    }
    assert(extra_slots(options.extra_inherit@).take(options.extra_inherit.len() as int)
        == extra_slots(options.extra_inherit@));
    let query = JobQuery {
        image_path: options.path,
        argv: options.arguments,
        environment: options.environment,
        pwd: options.pwd,
        extra_fds,
    };
    let stdin = handle_input_io(options.stdio.stdin);
    let stdout = handle_output_io(options.stdio.stdout);
    let stderr = handle_output_io(options.stdio.stderr);
    SpawnPlan { query, stdin, stdout, stderr }
}

fn input_valid(spec: &InputSpecification) -> (r: bool)
    ensures
        r == input_is_valid(spec.data()),
{
    match &spec.0 {
        InputSpecificationData::Handle(h) => h.raw() <= 0x7fff_ffff,
        _ => true,
    }
}

fn output_valid(spec: &OutputSpecification) -> (r: bool)
    ensures
        r == output_is_valid(spec.data()),
{
    match &spec.0 {
        OutputSpecificationData::Handle(h) => h.raw() <= 0x7fff_ffff,
        _ => true,
    }
}

/// Whether the options of a child name descriptors of this system only.
pub fn validate(options: &ChildProcessOptions) -> (r: bool)
    ensures
        r == options_are_valid(*options),
{
    if !input_valid(&options.stdio.stdin) || !output_valid(&options.stdio.stdout)
        || !output_valid(&options.stdio.stderr) {
        return false;
    }
    let mut i: usize = 0;
    while i < options.extra_inherit.len()
        invariant
            i <= options.extra_inherit.len(),
            forall|j: int| 0 <= j < i ==> is_descriptor(#[trigger] options.extra_inherit@[j]),
        decreases options.extra_inherit.len() - i,
    {
        if options.extra_inherit[i].raw() > 0x7fff_ffff {
            return false;
        }
        i += 1;
    }
    true
}

/// A child that was started in a sandbox.
#[derive(Debug)]
pub struct LinuxChildProcess {
    stdin: Option<i32>,
    stdout: Option<i32>,
    stderr: Option<i32>,
    pid: i32,
    /// Descriptor that becomes readable when the child ends. Given away
    /// to the wait.
    fd: Option<i32>,
}

impl LinuxChildProcess {
    /// The pid of the child inside its sandbox.
    pub closed spec fn pid(&self) -> i32 {
        self.pid
    }

    /// The end of the standard input of the child that the caller has
    /// not taken yet.
    pub closed spec fn stdin_end(&self) -> Option<i32> {
        self.stdin
    }

    /// The end of the standard output of the child that the caller has
    /// not taken yet.
    pub closed spec fn stdout_end(&self) -> Option<i32> {
        self.stdout
    }

    /// The end of the standard error of the child that the caller has
    /// not taken yet.
    pub closed spec fn stderr_end(&self) -> Option<i32> {
        self.stderr
    }

    /// The descriptor that announces the end of the child, until the
    /// wait has begun.
    pub closed spec fn exit_fd(&self) -> Option<i32> {
        self.fd
    }

    /// The child that the zygote started as `startup_info` says, with
    /// the descriptor that announces its end and the ends of its
    /// streams that the caller keeps.
    pub fn new(
        startup_info: JobStartupInfo,
        exit_fd: i32,
        stdin: Option<i32>,
        stdout: Option<i32>,
        stderr: Option<i32>,
    ) -> (r: LinuxChildProcess)
        ensures
            r.pid() == startup_info.pid,
            r.exit_fd() == Some(exit_fd),
            r.stdin_end() == stdin,
            r.stdout_end() == stdout,
            r.stderr_end() == stderr,
    {
        LinuxChildProcess { stdin, stdout, stderr, pid: startup_info.pid, fd: Some(exit_fd) }
    }

    /// Hands out the writable end of the standard input of the child,
    /// once.
    pub fn stdin(&mut self) -> (r: Option<i32>)
        ensures
            r == old(self).stdin_end(),
            final(self).stdin_end() is None,
            final(self).stdout_end() == old(self).stdout_end(),
            final(self).stderr_end() == old(self).stderr_end(),
            final(self).exit_fd() == old(self).exit_fd(),
            final(self).pid() == old(self).pid(),
    {
        self.stdin.take()
    }

    /// Hands out the readable end of the standard output of the child,
    /// once.
    pub fn stdout(&mut self) -> (r: Option<i32>)
        ensures
            r == old(self).stdout_end(),
            final(self).stdout_end() is None,
            final(self).stdin_end() == old(self).stdin_end(),
            final(self).stderr_end() == old(self).stderr_end(),
            final(self).exit_fd() == old(self).exit_fd(),
            final(self).pid() == old(self).pid(),
    {
        self.stdout.take()
    }

    /// Hands out the readable end of the standard error of the child,
    /// once.
    pub fn stderr(&mut self) -> (r: Option<i32>)
        ensures
            r == old(self).stderr_end(),
            final(self).stderr_end() is None,
            final(self).stdin_end() == old(self).stdin_end(),
            final(self).stdout_end() == old(self).stdout_end(),
            final(self).exit_fd() == old(self).exit_fd(),
            final(self).pid() == old(self).pid(),
    {
        self.stderr.take()
    }

    /// Begins the wait for the end of the child. This is done once.
    pub fn wait_for_exit(&mut self) -> (r: Result<WaitFuture, Error>)
        requires
            old(self).exit_fd() is Some,
        ensures
            r matches Ok(w) && w == (WaitFuture {
                pid: old(self).pid(),
                fd: old(self).exit_fd()->0,
            }),
            final(self).exit_fd() is None,
            final(self).pid() == old(self).pid(),
            final(self).stdin_end() == old(self).stdin_end(),
            final(self).stdout_end() == old(self).stdout_end(),
            final(self).stderr_end() == old(self).stderr_end(),
    {
        let fd = self.fd.take().unwrap();
        WaitFuture::new(fd, self.pid)
    }
}

/// The Linux backend: its settings, the resource driver that was
/// chosen, and the users that its sandboxes run as.
#[derive(Debug)]
pub struct LinuxBackend {
    pub settings: Settings,
    pub driver: Driver,
    pub uid_alloc: UidAllocator,
    /// The filters of the built-in seccomp policies.
    pub compiled: CompiledPolicies,
}

impl LinuxBackend {
    /// Makes the backend for `settings`, with the first resource driver
    /// whose smoke check succeeds. No user is handed out yet.
    pub fn new<F: Fn(&Driver) -> Result<(), Error>>(
        settings: Settings,
        compiled: CompiledPolicies,
        smoke_check: F,
    ) -> (r: Result<LinuxBackend, Error>)
        requires
            settings.uid.low <= settings.uid.high,
            forall|d: &Driver| smoke_check.requires((d,)),
        ensures
            match r {
                Ok(backend) => {
                    &&& backend.settings == settings
                    &&& backend.compiled == compiled
                    &&& backend.uid_alloc.low() == settings.uid.low
                    &&& backend.uid_alloc.high() == settings.uid.high
                    &&& backend.uid_alloc.used() == Set::<u32>::empty()
                    &&& exists|i: int, errors: Seq<Error>|
                        #![trigger all_fail_before(
                            smoke_check,
                            candidates_of(&settings),
                            errors,
                            i,
                        )]
                        {
                            &&& 0 <= i < candidates_of(&settings).len()
                            &&& is_driver_for(backend.driver, candidates_of(&settings)[i])
                            &&& exists|passed: Result<(), Error>|
                                passed is Ok && #[trigger] smoke_check.ensures(
                                    (&backend.driver,),
                                    passed,
                                )
                            &&& all_fail_before(smoke_check, candidates_of(&settings), errors, i)
                        }
                },
                Err(Error::SelectDriverImpl { cause }) => {
                    &&& cause.attempts@.len() == candidates_of(&settings).len()
                    &&& forall|i: int|
                        0 <= i < cause.attempts@.len() ==> {
                            &&& (#[trigger] cause.attempts@[i]).0.0@ == candidates_of(&settings)[i]
                            &&& fails_with(
                                smoke_check,
                                candidates_of(&settings)[i],
                                cause.attempts@[i].1,
                            )
                        }
                },
                Err(_) => false,
            },
    {
        match Driver::new(&settings, smoke_check) {
            Ok(driver) => {
                let uid_alloc = UidAllocator::new(settings.uid.low, settings.uid.high);
                Ok(LinuxBackend { settings, driver, uid_alloc, compiled })
            },
            Err(e) => Err(e),
        }
    }

    /// Accepts the options of a new sandbox: the destinations of its
    /// shared items are taken below the isolation root, and the sandbox
    /// is prepared as `LinuxSandbox::create` says.
    pub fn new_sandbox(&mut self, options: SandboxOptions) -> (r: Result<
        (SandboxSetup, SandboxOptions),
        Error,
    >)
        ensures
            final(self).settings == old(self).settings,
            final(self).compiled == old(self).compiled,
            final(self).driver == old(self).driver,
            final(self).uid_alloc.low() == old(self).uid_alloc.low(),
            final(self).uid_alloc.high() == old(self).uid_alloc.high(),
            match first_unknown_flag_of_items(relative_options(options@).shared_items) {
                Some(unknown) => {
                    &&& r matches Err(Error::InvalidSharedItemFlag { flag })
                    &&& flag@ == unknown
                    &&& final(self).uid_alloc.used() == old(self).uid_alloc.used()
                },
                None => if old(self).settings.rootless {
                    &&& r matches Ok((setup, accepted))
                    &&& accepted@ == relative_options(options@)
                    &&& is_setup_for(
                        setup,
                        accepted@,
                        old(self).settings,
                        !(old(self).driver.inner is Prlimit),
                        None,
                    )
                    &&& final(self).uid_alloc.used() == old(self).uid_alloc.used()
                } else {
                    match lowest_free(
                        old(self).uid_alloc.low(),
                        old(self).uid_alloc.high(),
                        old(self).uid_alloc.used(),
                    ) {
                        Some(uid) => {
                            &&& r matches Ok((setup, accepted))
                            &&& accepted@ == relative_options(options@)
                            &&& is_setup_for(
                                setup,
                                accepted@,
                                old(self).settings,
                                !(old(self).driver.inner is Prlimit),
                                Some(uid),
                            )
                            &&& final(self).uid_alloc.used() == old(self).uid_alloc.used().insert(
                                uid,
                            )
                        },
                        None => {
                            &&& r matches Err(Error::UidExhausted)
                            &&& final(self).uid_alloc.used() == old(self).uid_alloc.used()
                        },
                    }
                },
            },
    {
        let mut options = options;
        options.postprocess();
        let watchdog = self.driver.get_watchdog();
        match LinuxSandbox::create(&options, &self.settings, watchdog, &mut self.uid_alloc) {
            Ok(setup) => Ok((setup, options)),
            Err(e) => Err(e),
        }
    }
}

impl LinuxBackend {
    /// The seccomp filter that the jobs of the backend run under: that
    /// of the policy of the settings.
    pub fn seccomp(&self) -> (r: Seccomp)
        ensures
            r.0@ == match self.settings.seccomp {
                SeccompPolicy::Manual { policy } => policy@,
                SeccompPolicy::DenyDangerous => self.compiled.deny_dangerous@,
                SeccompPolicy::Unrestricted => self.compiled.unrestricted@,
                SeccompPolicy::Pure => self.compiled.pure@,
            },
    {
        Seccomp::new(&self.settings.seccomp, &self.compiled)
    }
}

/// The options with the destination of every shared item taken below
/// the isolation root.
pub open spec fn relative_options(options: SandboxOptionsView) -> SandboxOptionsView {
    SandboxOptionsView {
        shared_items: options.shared_items.map_values(|item: SharedItemView| relative_item(item)),
        ..options
    }
}

} // verus!
