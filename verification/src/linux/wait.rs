//! Waiting for a job to end.
use crate::linux::error::Error;
use crate::linux::sandbox::exit_code_from;
use crate::linux::zygote::main_loop::{
    first_task_of, lemma_first_task_of, status_pid, tasks_after, Task, WaitStatus,
};
use crate::{ExitCode, EXIT_KILLED};
use vstd::prelude::*;

verus! {

/// What is known of the descriptor that announces the end of a job.
#[derive(Debug)]
pub enum Readiness {
    /// Nothing to read yet.
    Pending,
    /// The descriptor is readable: the job has ended.
    Ready,
    /// Watching the descriptor failed.
    Failed(String),
}

/// The state of a wait.
#[derive(Debug)]
pub enum Poll {
    /// The job still runs.
    Pending,
    /// The wait is over: the job must be asked for by its pid.
    AskExitCode { pid: i32 },
    /// The wait failed.
    Failed(Error),
}

/// A wait for the end of one job.
#[derive(Debug, Clone, Copy, PartialEq, Eq, Structural)]
pub struct WaitFuture {
    /// The pid of the job inside its sandbox.
    pub pid: i32,
    /// The descriptor that becomes readable when the job ends.
    pub fd: i32,
}

impl WaitFuture {
    /// A wait for the job `pid`, announced on `fd`.
    pub fn new(fd: i32, pid: i32) -> (r: Result<WaitFuture, Error>)
        ensures
            r matches Ok(w) && w == (WaitFuture { pid, fd }),
    {
        Ok(WaitFuture { pid, fd })
    }

    /// What the wait does after a look at its descriptor: it goes on
    /// while there is nothing to read, asks for the exit code of its job
    /// once there is, and fails where the look failed.
    pub fn poll(&self, readiness: Readiness) -> (r: Poll)
        ensures
            match readiness {
                Readiness::Pending => r is Pending,
                Readiness::Ready => r matches Poll::AskExitCode { pid } && pid == self.pid,
                Readiness::Failed(cause) => r matches Poll::Failed(Error::Io { cause: c }) && c
                    == cause,
            },
    {
        match readiness {
            Readiness::Pending => Poll::Pending,
            Readiness::Ready => Poll::AskExitCode { pid: self.pid },
            Readiness::Failed(cause) => Poll::Failed(Error::Io { cause }),
        }
    }
}

proof fn lemma_first_task_kept(tasks: Seq<Task>, status: WaitStatus, pid: i32)
    ensures
        first_task_of(tasks_after(tasks, status), pid) == first_task_of(tasks, pid),
    decreases tasks.len(),
{
    let after = tasks_after(tasks, status);
    if tasks.len() > 0 {
        assert(after[0].pid == tasks[0].pid);
        if tasks[0].pid != pid {
            lemma_first_task_kept(tasks.skip(1), status, pid);
            assert(after.skip(1) =~= tasks_after(tasks.skip(1), status));
        }
    }
}

/// The exit code that the caller learns is the one the job ended with.
///
/// Take a zygote that keeps track of a running job, and let the job end:
/// by itself with some status, or by a signal. Once the zygote has
/// recorded that, the answer to a request for the exit code of the job,
/// as the sandbox hands it to the caller, is the status itself, or 1000
/// plus the number of the signal.
pub proof fn lemma_exit_fidelity(tasks: Seq<Task>, status: WaitStatus, zygote: i32)
    requires
        status_pid(status) is Some,
        first_task_of(tasks, status_pid(status)->0) < tasks.len(),
        tasks[first_task_of(tasks, status_pid(status)->0)].exit_code is None,
    ensures
        ({
            let pid = status_pid(status)->0;
            let after = tasks_after(tasks, status);
            let task = after[first_task_of(after, pid)];
            exit_code_from(Some(zygote), task.exit_code) == match status {
                WaitStatus::Exited { code, .. } => ExitCode(code as i64),
                WaitStatus::Signaled { signal, .. } => ExitCode((1000 + signal) as i64),
                WaitStatus::StillAlive => ExitCode(EXIT_KILLED),
            }
        }),
{
    let pid = status_pid(status)->0;
    lemma_first_task_kept(tasks, status, pid);
    lemma_first_task_of(tasks, pid);
}

} // verus!
