//! Errors of the Linux backend, and how they are classified.
use crate::linux::limits::DriverInitializationError;
use vstd::prelude::*;

verus! {

/// Whom an error is to be blamed on.
#[derive(Debug, Clone, Copy, PartialEq, Eq, Structural)]
pub enum ErrorKind {
    /// The isolated process misbehaved, typically trying to break its
    /// sandbox.
    Sandbox,
    /// A bug in the code that uses the library or in the library itself,
    /// or a problem of the environment.
    System,
}

/// What went wrong on the socket between the caller and the zygote.
#[derive(Debug)]
pub enum IpcError {
    /// A message could not be written or read as JSON.
    Serde(String),
    /// A system call failed with this error number.
    Syscall(i32),
    /// The ancillary data of a datagram had an unexpected shape.
    Ancillary,
    /// The peer closed the socket, or sent less than it announced.
    UnexpectedEof,
}

/// What went wrong while handling a cgroup.
#[derive(Debug)]
pub enum CgroupError {
    Write { path: String, cause: String },
    Read { path: String, cause: String },
    CreateCgroupDir { path: String, cause: String },
    OpenFile { path: String, cause: String },
    DuplicateFd { code: i32 },
    Join { code: i32 },
    Fork { code: i32 },
}

/// What went wrong in the driver based on per-process limits.
#[derive(Debug)]
pub enum PrlimitError {
    Ipc(IpcError),
    /// More than one process was asked for, which cannot be enforced
    /// without root.
    PidsLimitEnforcementImpossible,
    SandboxGone,
}

/// What went wrong in a resource driver.
#[derive(Debug)]
pub enum DriverError {
    Cgroup(CgroupError),
    Prlimit(PrlimitError),
}

/// An error of the Linux backend.
#[derive(Debug)]
pub enum Error {
    /// The backend cannot do what was asked.
    NotSupported,
    /// A system call failed with this error number.
    Syscall { code: i32 },
    /// An input or output operation failed.
    Io { cause: String },
    /// The zygote broke the protocol.
    SandboxMisbehavior { cause: Option<IpcError> },
    Unknown,
    /// No resource driver passed its smoke check.
    SelectDriverImpl { cause: DriverInitializationError },
    /// The resource driver failed.
    ResourceLimits { cause: DriverError },
    /// A message could not be exchanged with the zygote.
    SandboxIpc { cause: IpcError },
    /// A shared item carries a flag that is not known.
    InvalidSharedItemFlag { flag: String },
    /// Every identifier of the range is in use.
    UidExhausted,
    /// The sandbox was killed or dropped.
    SandboxGone,
}

/// The kind of each error.
pub open spec fn kind_of(e: Error) -> ErrorKind {
    match e {
        Error::SandboxMisbehavior { .. } => ErrorKind::Sandbox,
        Error::SandboxIpc { .. } => ErrorKind::Sandbox,
        _ => ErrorKind::System,
    }
}

impl Error {
    /// Whom the error is to be blamed on: the sandboxed program when the
    /// exchange with the zygote failed, the system in every other case.
    pub fn kind(&self) -> (r: ErrorKind)
        ensures
            r == kind_of(*self),
    {
        match self {
            Error::NotSupported => ErrorKind::System,
            Error::Syscall { .. } => ErrorKind::System,
            Error::Io { .. } => ErrorKind::System,
            Error::SandboxMisbehavior { .. } => ErrorKind::Sandbox,
            Error::Unknown => ErrorKind::System,
            Error::SandboxIpc { .. } => ErrorKind::Sandbox,
            Error::InvalidSharedItemFlag { .. } => ErrorKind::System,
            Error::UidExhausted => ErrorKind::System,
            Error::SandboxGone => ErrorKind::System,
            Error::ResourceLimits { .. } => ErrorKind::System,
            Error::SelectDriverImpl { .. } => ErrorKind::System,
        }
    }

    /// Whether the error is a bug or a problem of the environment.
    pub fn is_system(&self) -> (r: bool)
        ensures
            r == (kind_of(*self) == ErrorKind::System),
    {
        self.kind() == ErrorKind::System
    }

    /// Whether the error is due to the sandboxed program.
    pub fn is_sandbox(&self) -> (r: bool)
        ensures
            r == (kind_of(*self) == ErrorKind::Sandbox),
            r == !(kind_of(*self) == ErrorKind::System),
    {
        self.kind() == ErrorKind::Sandbox
    }

    /// The error for a failed system call: `Syscall` with the error
    /// number where there is one, `Unknown` otherwise.
    pub fn from_errno(errno: Option<i32>) -> (r: Error)
        ensures
            r == match errno {
                Some(code) => Error::Syscall { code },
                None => Error::Unknown,
            },
    {
        match errno {
            Some(code) => Error::Syscall { code },
            None => Error::Unknown,
        }
    }
}

} // verus!
