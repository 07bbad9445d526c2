//! Verified core of a process sandbox for Linux.
//!
//! The crate holds the rules of the sandbox: how limits, mounts, identifiers
//! and messages are computed and checked. Everything that touches the
//! system is left to the caller, which hands plain values in and carries
//! plain values out.
use vstd::prelude::*;

pub mod check;
pub mod cli;
pub mod command;
pub mod decimal;
pub mod ffi;
pub mod linux;
pub mod path;
pub mod text;

pub use check::{check, CheckResult};
pub use command::Command;
pub use linux::{LinuxBackend, LinuxChildProcess, LinuxSandbox};

verus! {

/// Mount options.
/// * Readonly: jailed process can read and execute, but not write to
/// * Full: jailed process can read, write and execute
///
/// In both cases the SUID bit is disabled.
#[derive(Debug, Clone, Copy, PartialEq, Eq, Structural)]
pub enum SharedItemKind {
    Readonly,
    Full,
}

/// A host path made visible inside the sandbox.
#[derive(Debug, Clone)]
pub struct SharedItem {
    /// Optional identifier.
    pub id: Option<String>,
    /// Path on the host.
    pub src: String,
    /// Path for the child, relative to the isolation root.
    pub dest: String,
    pub kind: SharedItemKind,
    /// Additional mount flags. By default, empty.
    pub flags: Vec<String>,
}

/// What a `SharedItem` holds, as mathematical values.
pub ghost struct SharedItemView {
    pub id: Option<Seq<char>>,
    pub src: Seq<char>,
    pub dest: Seq<char>,
    pub kind: SharedItemKind,
    pub flags: Seq<Seq<char>>,
}

impl View for SharedItem {
    type V = SharedItemView;

    open spec fn view(&self) -> SharedItemView {
        SharedItemView {
            id: match self.id {
                Some(s) => Some(s@),
                None => None,
            },
            src: self.src@,
            dest: self.dest@,
            kind: self.kind,
            flags: text::string_views(self.flags@),
        }
    }
}

/// Resource usage of a sandbox. Some items can be absent or rounded.
#[derive(Debug, Copy, Clone, PartialEq, Eq, Structural)]
pub struct ResourceUsageData {
    /// Total CPU time usage in nanoseconds.
    pub time: Option<u64>,
    /// Max memory usage in bytes.
    pub memory: Option<u64>,
}

impl Default for ResourceUsageData {
    fn default() -> (r: Self)
        ensures
            r.time is None,
            r.memory is None,
    {
        ResourceUsageData { time: None, memory: None }
    }
}

/// The limits and the file system view of a sandbox.
#[derive(Debug, Clone)]
pub struct SandboxOptions {
    pub max_alive_process_count: u32,
    /// Memory limit for all processes of the sandbox, in bytes.
    pub memory_limit: u64,
    /// Total CPU time for the whole sandbox, in nanoseconds.
    pub cpu_time_limit: u64,
    /// Total wall-clock time for the whole sandbox, in nanoseconds.
    pub real_time_limit: u64,
    pub isolation_root: String,
    pub shared_items: Vec<SharedItem>,
}

/// What a `SandboxOptions` holds, as mathematical values.
pub ghost struct SandboxOptionsView {
    pub max_alive_process_count: u32,
    pub memory_limit: u64,
    pub cpu_time_limit: u64,
    pub real_time_limit: u64,
    pub isolation_root: Seq<char>,
    pub shared_items: Seq<SharedItemView>,
}

/// The views of a list of shared items.
pub open spec fn shared_item_views(items: Seq<SharedItem>) -> Seq<SharedItemView> {
    items.map_values(|item: SharedItem| item@)
}

impl View for SandboxOptions {
    type V = SandboxOptionsView;

    open spec fn view(&self) -> SandboxOptionsView {
        SandboxOptionsView {
            max_alive_process_count: self.max_alive_process_count,
            memory_limit: self.memory_limit,
            cpu_time_limit: self.cpu_time_limit,
            real_time_limit: self.real_time_limit,
            isolation_root: self.isolation_root@,
            shared_items: shared_item_views(self.shared_items@),
        }
    }
}

/// A shared item whose destination is named from the isolation root.
pub open spec fn relative_item(item: SharedItemView) -> SharedItemView {
    SharedItemView { dest: path::strip_root(item.dest), ..item }
}

impl SandboxOptions {
    /// The destination `p` as a path below the isolation root: without
    /// the `/` that leads it.
    pub fn make_relative(&self, p: &str) -> (r: String)
        ensures
            r@ == path::strip_root(p@),
    {
        let chars = text::chars_of(p);
        let stripped = path::strip_root_of(&chars);
        text::string_of(&stripped)
    }

    /// Makes the destination of every shared item relative to the
    /// isolation root. Nothing else changes.
    pub fn postprocess(&mut self)
        ensures
            final(self)@ == (SandboxOptionsView {
                shared_items: old(self)@.shared_items.map_values(
                    |item: SharedItemView| relative_item(item),
                ),
                ..old(self)@
            }),
    {
        let ghost before = self@;
        let n = self.shared_items.len();
        let mut i: usize = 0;
        while i < n
            invariant
                i <= n,
                n == self.shared_items.len(),
                before.shared_items.len() == n,
                self@.max_alive_process_count == before.max_alive_process_count,
                self@.memory_limit == before.memory_limit,
                self@.cpu_time_limit == before.cpu_time_limit,
                self@.real_time_limit == before.real_time_limit,
                self@.isolation_root == before.isolation_root,
                forall|j: int|
                    0 <= j < i ==> #[trigger] self.shared_items@[j]@ == relative_item(
                        before.shared_items[j],
                    ),
                forall|j: int|
                    i <= j < n ==> #[trigger] self.shared_items@[j]@ == before.shared_items[j],
            decreases n - i,
        {
            let dest = self.make_relative(self.shared_items[i].dest.as_str());
            let ghost items = self.shared_items@;
            let mut item = self.shared_items[i].clone_item();
            item.dest = dest;
            self.shared_items.set(i, item);
            assert forall|j: int| i < j < n implies #[trigger] self.shared_items@[j]@
                == before.shared_items[j] by {
                assert(self.shared_items@[j] == items[j]);
            }
            assert forall|j: int| 0 <= j < i implies #[trigger] self.shared_items@[j]@
                == relative_item(before.shared_items[j]) by {
                assert(self.shared_items@[j] == items[j]);
            }
            i += 1;
        }
        assert(self@.shared_items =~= before.shared_items.map_values(
            |item: SharedItemView| relative_item(item),
        ));
    }
}

impl SharedItem {
    /// A copy of the item.
    pub fn clone_item(&self) -> (r: SharedItem)
        ensures
            r@ == self@,
    {
        let id = match &self.id {
            Some(s) => Some(s.clone()),
            None => None,
        };
        let flags = text::clone_strings(&self.flags);
        SharedItem {
            id,
            src: self.src.clone(),
            dest: self.dest.clone(),
            kind: self.kind,
            flags,
        }
    }
}

/// Kernel object descriptor.
#[derive(Debug)]
pub struct Handle(pub(crate) u64);

impl Handle {
    /// The number of the descriptor.
    pub closed spec fn value(&self) -> u64 {
        self.0
    }

    /// Wraps a descriptor. The caller gives up the descriptor: it must be
    /// valid and must not be used again.
    pub fn new(h: u64) -> (r: Self)
        ensures
            r.value() == h,
    {
        Handle(h)
    }

    /// The number of the descriptor.
    pub fn raw(&self) -> (r: u64)
        ensures
            r == self.value(),
    {
        self.0
    }
}

/// Where the standard input of a child comes from.
#[derive(Debug)]
pub enum InputSpecificationData {
    Null,
    Empty,
    Pipe,
    Handle(Handle),
}

/// Configures stdin for a child.
#[derive(Debug)]
pub struct InputSpecification(pub(crate) InputSpecificationData);

impl InputSpecification {
    /// What was asked for.
    pub closed spec fn data(&self) -> InputSpecificationData {
        self.0
    }

    /// The child gets no descriptor at all.
    pub fn null() -> (r: Self)
        ensures
            r.data() is Null,
    {
        Self(InputSpecificationData::Null)
    }

    /// The child reads an empty stream.
    pub fn empty() -> (r: Self)
        ensures
            r.data() is Empty,
    {
        Self(InputSpecificationData::Empty)
    }

    /// The child reads what the caller writes into a new pipe.
    pub fn pipe() -> (r: Self)
        ensures
            r.data() is Pipe,
    {
        Self(InputSpecificationData::Pipe)
    }

    /// The child reads from the given descriptor.
    pub fn handle(h: Handle) -> (r: Self)
        ensures
            r.data() == InputSpecificationData::Handle(h),
    {
        Self(InputSpecificationData::Handle(h))
    }
}

/// Where the standard output or error of a child goes.
#[derive(Debug)]
pub enum OutputSpecificationData {
    Null,
    Ignore,
    Pipe,
    Buffer(Option<usize>),
    Handle(Handle),
}

/// Configures stdout and stderr for a child.
#[derive(Debug)]
pub struct OutputSpecification(pub(crate) OutputSpecificationData);

impl OutputSpecification {
    /// What was asked for.
    pub closed spec fn data(&self) -> OutputSpecificationData {
        self.0
    }

    /// The child gets no descriptor at all.
    pub fn null() -> (r: Self)
        ensures
            r.data() is Null,
    {
        Self(OutputSpecificationData::Null)
    }

    /// What the child writes is thrown away.
    pub fn ignore() -> (r: Self)
        ensures
            r.data() is Ignore,
    {
        Self(OutputSpecificationData::Ignore)
    }

    /// The caller reads what the child writes into a new pipe.
    pub fn pipe() -> (r: Self)
        ensures
            r.data() is Pipe,
    {
        Self(OutputSpecificationData::Pipe)
    }

    /// The child writes into a memory buffer of at most `size` bytes.
    pub fn buffer(size: usize) -> (r: Self)
        ensures
            r.data() == OutputSpecificationData::Buffer(Some(size)),
    {
        Self(OutputSpecificationData::Buffer(Some(size)))
    }

    /// The child writes into a memory buffer without a bound.
    pub fn unbounded_buffer() -> (r: Self)
        ensures
            r.data() == OutputSpecificationData::Buffer(None),
    {
        Self(OutputSpecificationData::Buffer(None))
    }

    /// The child writes to the given descriptor.
    pub fn handle(h: Handle) -> (r: Self)
        ensures
            r.data() == OutputSpecificationData::Handle(h),
    {
        Self(OutputSpecificationData::Handle(h))
    }
}

/// Specifies how to provide child stdio.
#[derive(Debug)]
pub struct StdioSpecification {
    pub stdin: InputSpecification,
    pub stdout: OutputSpecification,
    pub stderr: OutputSpecification,
}

/// What a backend needs to start a child. Use `Command` to build one.
#[derive(Debug)]
pub struct ChildProcessOptions {
    pub path: String,
    pub arguments: Vec<String>,
    pub environment: Vec<String>,
    pub stdio: StdioSpecification,
    pub extra_inherit: Vec<Handle>,
    /// Child's working dir. Relative to the isolation root of the sandbox.
    pub pwd: String,
}

/// The code that reports success.
pub const EXIT_OK: i64 = 0;

/// The code that may be reported when the process was killed.
pub const EXIT_KILLED: i64 = 0x7ead_dead_beef_f00d;

/// The base code for reporting signals.
pub const EXIT_SIGNALLED: i64 = 1000;

/// Child process exit code.
#[derive(Debug, Copy, Clone, PartialEq, Eq, Structural)]
pub struct ExitCode(pub i64);

impl ExitCode {
    /// By convention a program returns this code on success.
    pub fn ok() -> (r: ExitCode)
        ensures
            r == ExitCode(EXIT_OK),
    {
        ExitCode(EXIT_OK)
    }

    /// May be returned when the process was killed.
    pub fn killed() -> (r: ExitCode)
        ensures
            r == ExitCode(EXIT_KILLED),
    {
        ExitCode(EXIT_KILLED)
    }

    /// Base code for reporting signals.
    pub fn signalled() -> (r: ExitCode)
        ensures
            r == ExitCode(EXIT_SIGNALLED),
    {
        ExitCode(EXIT_SIGNALLED)
    }

    /// Whether the code is the one that reports success.
    pub fn is_success(self) -> (r: bool)
        ensures
            r == (self.0 == 0),
    {
        self.0 == 0
    }

    /// The code that reports death by the signal `sig`.
    pub fn linux_signal(sig: i64) -> (r: ExitCode)
        requires
            sig + EXIT_SIGNALLED <= i64::MAX,
            sig + EXIT_SIGNALLED >= i64::MIN,
        ensures
            r.0 == sig + 1000,
    {
        ExitCode(sig + EXIT_SIGNALLED)
    }
}

} // verus!
