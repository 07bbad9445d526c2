//! The plain values of the C interface, and what they stand for.
use crate::{
    ExitCode, Handle, InputSpecification, OutputSpecification, SharedItemKind,
    StdioSpecification,
};
use vstd::prelude::*;

verus! {

/// The status that a call of the C interface returns.
#[derive(Debug, Clone, Copy, PartialEq, Eq, Structural)]
pub enum ErrorCode {
    /// The operation completed successfully.
    Success,
    /// The arguments did not pass some basic checks. This usually means
    /// a bug in the caller.
    InvalidInput,
    /// The sandbox library reported an error.
    Minion,
}

/// The description of each status.
pub open spec fn status_text(code: ErrorCode) -> Seq<char> {
    match code {
        ErrorCode::Success => "ok"@,
        ErrorCode::InvalidInput => "invalid input"@,
        ErrorCode::Minion => "minion error"@,
    }
}

/// Describes a status in words. The description is ASCII.
pub fn describe_status(error_code: ErrorCode) -> (r: &'static str)
    ensures
        r@ == status_text(error_code),
{
    match error_code {
        ErrorCode::Success => "ok",
        ErrorCode::InvalidInput => "invalid input",
        ErrorCode::Minion => "minion error",
    }
}

/// How a wait with a timeout ended.
#[derive(Debug, Clone, Copy, PartialEq, Eq, Structural)]
pub enum WaitOutcome {
    Exited,
    Timeout,
}

/// What a wait with a timeout reports: nothing came in time, or the wait
/// ended, well or badly.
pub fn wait_outcome(ended: Option<Result<ExitCode, ()>>) -> (r: Result<WaitOutcome, ErrorCode>)
    ensures
        r == match ended {
            None => Ok::<WaitOutcome, ErrorCode>(WaitOutcome::Timeout),
            Some(Ok(_)) => Ok(WaitOutcome::Exited),
            Some(Err(_)) => Err(ErrorCode::Minion),
        },
{
    match ended {
        None => Ok(WaitOutcome::Timeout),
        Some(Ok(_)) => Ok(WaitOutcome::Exited),
        Some(Err(_)) => Err(ErrorCode::Minion),
    }
}

/// A span of time.
#[derive(Debug, Clone, Copy, PartialEq, Eq, Structural)]
pub struct TimeSpec {
    pub seconds: u32,
    pub nanoseconds: u32,
}

impl TimeSpec {
    /// The span in nanoseconds.
    pub fn nanos(&self) -> (r: u64)
        ensures
            r == self.seconds * 1_000_000_000 + self.nanoseconds,
    {
        self.seconds as u64 * 1_000_000_000 + self.nanoseconds as u64
    }
}

/// One of the three standard streams.
#[derive(Debug, Clone, Copy, PartialEq, Eq, Structural)]
pub enum StdioMember {
    Stdin,
    Stdout,
    Stderr,
}

/// The descriptors that a child gets as its standard streams.
#[derive(Debug, Clone, Copy, PartialEq, Eq, Structural)]
pub struct StdioHandleSet {
    pub stdin: u64,
    pub stdout: u64,
    pub stderr: u64,
}

impl StdioHandleSet {
    /// The descriptor of one of the streams.
    pub fn member(&self, which: StdioMember) -> (r: u64)
        ensures
            r == match which {
                StdioMember::Stdin => self.stdin,
                StdioMember::Stdout => self.stdout,
                StdioMember::Stderr => self.stderr,
            },
    {
        match which {
            StdioMember::Stdin => self.stdin,
            StdioMember::Stdout => self.stdout,
            StdioMember::Stderr => self.stderr,
        }
    }

    /// The specification of the streams: each is the descriptor given.
    pub fn specification(&self) -> (r: StdioSpecification)
        ensures
            r.stdin.data() matches crate::InputSpecificationData::Handle(h) && h.value()
                == self.stdin,
            r.stdout.data() matches crate::OutputSpecificationData::Handle(h) && h.value()
                == self.stdout,
            r.stderr.data() matches crate::OutputSpecificationData::Handle(h) && h.value()
                == self.stderr,
    {
        StdioSpecification {
            stdin: InputSpecification::handle(Handle::new(self.stdin)),
            stdout: OutputSpecification::handle(Handle::new(self.stdout)),
            stderr: OutputSpecification::handle(Handle::new(self.stderr)),
        }
    }
}

/// How a shared item may be used, as the C interface names it.
#[derive(Debug, Clone, Copy, PartialEq, Eq, Structural)]
pub enum SharedItemAccessKind {
    Full,
    Readonly,
}

impl SharedItemAccessKind {
    /// The kind of sharing that is meant.
    pub fn kind(self) -> (r: SharedItemKind)
        ensures
            r == match self {
                SharedItemAccessKind::Full => SharedItemKind::Full,
                SharedItemAccessKind::Readonly => SharedItemKind::Readonly,
            },
    {
        match self {
            SharedItemAccessKind::Full => SharedItemKind::Full,
            SharedItemAccessKind::Readonly => SharedItemKind::Readonly,
        }
    }
}

} // verus!
