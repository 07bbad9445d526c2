//! The bookkeeping of the zygote: which jobs run, how they ended, and what
//! the zygote answers.
use crate::linux::jail_common::ResourceUsageInformation;
use vstd::prelude::*;

verus! {

/// The status that the zygote itself exits with.
#[derive(Debug, Clone, Copy, PartialEq, Eq, Structural)]
pub struct ReturnCode(pub i32);

impl ReturnCode {
    /// The zygote was asked to leave.
    pub fn ok() -> (r: ReturnCode)
        ensures
            r == ReturnCode(0),
    {
        ReturnCode(0)
    }

    /// The zygote received a request that it could not read.
    pub fn bad_query() -> (r: ReturnCode)
        ensures
            r == ReturnCode(0xBAD),
    {
        ReturnCode(0xBAD)
    }

    /// The status as a number.
    pub fn get(self) -> (r: i32)
        ensures
            r == self.0,
    {
        self.0
    }
}

/// What `waitpid` told about a child.
#[derive(Debug, Clone, Copy, PartialEq, Eq, Structural)]
pub enum WaitStatus {
    /// The child left by itself, with this status.
    Exited { pid: i32, code: i32 },
    /// The child was ended by this signal.
    Signaled { pid: i32, signal: i32 },
    /// No child has ended.
    StillAlive,
}

/// The child that a status is about, if it is about one.
pub open spec fn status_pid(status: WaitStatus) -> Option<i32> {
    match status {
        WaitStatus::Exited { pid, .. } => Some(pid),
        WaitStatus::Signaled { pid, .. } => Some(pid),
        WaitStatus::StillAlive => None,
    }
}

/// The exit code that a status stands for: the exit status itself, or
/// 1000 plus the number of the signal that ended the child.
pub open spec fn status_exit_code(status: WaitStatus) -> Option<i64> {
    match status {
        WaitStatus::Exited { code, .. } => Some(code as i64),
        WaitStatus::Signaled { signal, .. } => Some((1000 + signal) as i64),
        WaitStatus::StillAlive => None,
    }
}

/// Computes the child and the exit code that a status stands for.
pub fn exit_code_of(status: WaitStatus) -> (r: Option<(i32, i64)>)
    ensures
        match r {
            Some((pid, code)) => status_pid(status) == Some(pid) && status_exit_code(status)
                == Some(code),
            None => status_pid(status) is None && status_exit_code(status) is None,
        },
{
    match status {
        WaitStatus::Exited { pid, code } => Some((pid, code as i64)),
        WaitStatus::Signaled { pid, signal } => Some((pid, 1000 + signal as i64)),
        WaitStatus::StillAlive => None,
    }
}

/// A job that was started and whose exit code was not asked for yet.
#[derive(Debug, Clone, Copy, PartialEq, Eq, Structural)]
pub struct Task {
    /// Pid of the main process of the job, inside the sandbox.
    pub pid: i32,
    /// Descriptor to write to when the job ends. Absent where the caller
    /// watches the process itself.
    pub notify: Option<i32>,
    /// Exit code, once the job has ended.
    pub exit_code: Option<i64>,
}

/// The task `t` after a child ended as `status` says: a running task of
/// that child gets the exit code; any other task stays as it is.
pub open spec fn task_after(t: Task, status: WaitStatus) -> Task {
    if status_pid(status) == Some(t.pid) && t.exit_code is None {
        Task { exit_code: status_exit_code(status), ..t }
    } else {
        t
    }
}

/// The tasks after a child ended as `status` says.
pub open spec fn tasks_after(tasks: Seq<Task>, status: WaitStatus) -> Seq<Task> {
    tasks.map_values(|t: Task| task_after(t, status))
}

/// Whether the end of a child is news for `t`, and `t` has a descriptor
/// to be told on.
pub open spec fn wants_notice(t: Task, status: WaitStatus) -> bool {
    status_pid(status) == Some(t.pid) && t.exit_code is None && t.notify is Some
}

/// The descriptors to write to after a child ended as `status` says.
pub open spec fn notices(tasks: Seq<Task>, status: WaitStatus) -> Seq<i32> {
    tasks.filter(|t: Task| wants_notice(t, status)).map_values(|t: Task| t.notify->0)
}

/// The place of the first task of the process `pid`, or the number of
/// tasks if there is none.
pub open spec fn first_task_of(tasks: Seq<Task>, pid: i32) -> int
    decreases tasks.len(),
{
    if tasks.len() == 0 {
        0
    } else if tasks[0].pid == pid {
        0
    } else {
        1 + first_task_of(tasks.skip(1), pid)
    }
}

/// The place that `first_task_of` gives is the first one with that pid.
pub proof fn lemma_first_task_of(tasks: Seq<Task>, pid: i32)
    ensures
        0 <= first_task_of(tasks, pid) <= tasks.len(),
        first_task_of(tasks, pid) < tasks.len() ==> tasks[first_task_of(tasks, pid)].pid == pid,
        forall|i: int| 0 <= i < first_task_of(tasks, pid) ==> (#[trigger] tasks[i]).pid != pid,
    decreases tasks.len(),
{
    if tasks.len() > 0 && tasks[0].pid != pid {
        let rest = tasks.skip(1);
        lemma_first_task_of(rest, pid);
        assert forall|i: int| 0 <= i < first_task_of(tasks, pid) implies (#[trigger] tasks[i]).pid
            != pid by {
            if i > 0 {
                assert(tasks[i] == rest[i - 1]);
            }
        }
    }
}

/// The tasks without the one at place `i`: the last task takes its
/// place.
pub open spec fn without_task(tasks: Seq<Task>, i: int) -> Seq<Task>
    recommends
        0 <= i < tasks.len(),
{
    tasks.update(i, tasks.last()).drop_last()
}

/// What the zygote does after it looked for ended children once.
#[derive(Debug)]
pub struct Reaped {
    /// A child had ended: there may be more.
    pub more: bool,
    /// The descriptors to write one byte to, to wake those who wait.
    pub notify: Vec<i32>,
}

/// The jobs that the zygote keeps track of.
#[derive(Debug)]
pub struct Zygote {
    tasks: Vec<Task>,
}

impl View for Zygote {
    type V = Seq<Task>;

    closed spec fn view(&self) -> Seq<Task> {
        self.tasks@
    }
}

impl Zygote {
    /// A zygote without jobs.
    pub fn new() -> (r: Zygote)
        ensures
            r@ == Seq::<Task>::empty(),
    {
        Zygote { tasks: Vec::new() }
    }

    /// The number of jobs whose exit code was not asked for yet.
    pub fn task_count(&self) -> (r: usize)
        ensures
            r == self@.len(),
    {
        self.tasks.len()
    }

    /// Notes that a job was started as process `pid`, to be announced on
    /// `notify` when it ends.
    pub fn add_task(&mut self, pid: i32, notify: Option<i32>)
        ensures
            final(self)@ == old(self)@.push(Task { pid, notify, exit_code: None }),
    {
        self.tasks.push(Task { pid, notify, exit_code: None });
    }

    /// Notes what `waitpid` told. Where a child has ended, its exit code
    /// is recorded in each running task of that pid, and the descriptors
    /// of those tasks are handed out to be written to.
    pub fn reap_child(&mut self, status: WaitStatus) -> (r: Reaped)
        ensures
            final(self)@ == tasks_after(old(self)@, status),
            r.more == (status != WaitStatus::StillAlive),
            r.notify@ == notices(old(self)@, status),
    {
        let ghost before = self@;
        let ghost wants = |t: Task| wants_notice(t, status);
        let mut notify: Vec<i32> = Vec::new();
        proof {
            reveal(Seq::filter);
            assert(before.take(0) == Seq::<Task>::empty());
        }
        match exit_code_of(status) {
            None => {
                proof {
                    assert(tasks_after(before, status) =~= before);
                    lemma_no_notice_when_alive(before, status);
                }
                Reaped { more: false, notify }
            },
            Some((pid, code)) => {
                let n = self.tasks.len();
                let mut i: usize = 0;
                while i < n
                    invariant
                        i <= n,
                        n == self.tasks.len(),
                        before.len() == n,
                        status_pid(status) == Some(pid),
                        status_exit_code(status) == Some(code),
                        wants == (|t: Task| wants_notice(t, status)),
                        forall|j: int|
                            0 <= j < i ==> #[trigger] self.tasks@[j] == task_after(
                                before[j],
                                status,
                            ),
                        forall|j: int| i <= j < n ==> #[trigger] self.tasks@[j] == before[j],
                        notify@ == before.take(i as int).filter(wants).map_values(
                            |t: Task| t.notify->0,
                        ),
                    decreases n - i,
                {
                    let task = self.tasks[i];
                    proof {
                        reveal(Seq::filter);
                        assert(before.take(i + 1).drop_last() == before.take(i as int));
                        assert(before.take(i + 1).last() == task);
                    }
                    if task.pid == pid && task.exit_code.is_none() {
                        self.tasks.set(
                            i,
                            Task { pid: task.pid, notify: task.notify, exit_code: Some(code) },
                        );
                        match task.notify {
                            Some(fd) => {
                                let ghost kept = before.take(i as int).filter(wants);
                                notify.push(fd);
                                assert(kept.push(task).map_values(|t: Task| t.notify->0)
                                    == kept.map_values(|t: Task| t.notify->0).push(fd));
                            },
                            None => {},
                        }
                    }
                    i += 1;
                }
                assert(before.take(n as int) == before);
                assert(self.tasks@ =~= tasks_after(before, status));
                Reaped { more: true, notify }
            },
        }
    }

    /// Takes the first task of the process `pid` off the list, to answer
    /// a request for its exit code. Gives nothing for a pid that the
    /// zygote does not know.
    pub fn take_task(&mut self, pid: i32) -> (r: Option<Task>)
        ensures
            match r {
                Some(task) => {
                    &&& first_task_of(old(self)@, pid) < old(self)@.len()
                    &&& task == old(self)@[first_task_of(old(self)@, pid)]
                    &&& final(self)@ == without_task(old(self)@, first_task_of(old(self)@, pid))
                },
                None => {
                    &&& first_task_of(old(self)@, pid) == old(self)@.len()
                    &&& final(self)@ == old(self)@
                },
            },
    {
        let n = self.tasks.len();
        let mut i: usize = 0;
        assert(self.tasks@.skip(0) == self.tasks@);
        while i < n
            invariant
                i <= n,
                n == self.tasks.len(),
                self.tasks == old(self).tasks,
                first_task_of(self.tasks@, pid) == i + first_task_of(
                    self.tasks@.skip(i as int),
                    pid,
                ),
            decreases n - i,
        {
            if self.tasks[i].pid == pid {
                let task = self.tasks.swap_remove(i);
                return Some(task);
            }
            assert(self.tasks@.skip(i as int).skip(1) == self.tasks@.skip(i + 1));
            i += 1;
        }
        None
    }
}

/// Nothing is to be announced while no child has ended.
proof fn lemma_no_notice_when_alive(tasks: Seq<Task>, status: WaitStatus)
    requires
        status_pid(status) is None,
    ensures
        tasks.filter(|t: Task| wants_notice(t, status)).len() == 0,
        notices(tasks, status) == Seq::<i32>::empty(),
    decreases tasks.len(),
{
    reveal(Seq::filter);
    if tasks.len() > 0 {
        lemma_no_notice_when_alive(tasks.drop_last(), status);
    }
    assert(notices(tasks, status) =~= Seq::<i32>::empty());
}

/// The exit code to answer with for a task taken off the list: the one
/// recorded, or else the one of `late`, what `waitpid` told when asked
/// once more. Nothing where the job still runs.
pub fn exit_code_reply(task: &Task, late: WaitStatus) -> (r: Option<i64>)
    ensures
        r == match task.exit_code {
            Some(code) => Some(code),
            None => status_exit_code(late),
        },
{
    match task.exit_code {
        Some(code) => Some(code),
        None => match exit_code_of(late) {
            Some((_, code)) => Some(code),
            None => None,
        },
    }
}

/// How the caller learns that a job has ended.
#[derive(Debug, Clone, Copy, PartialEq, Eq, Structural)]
pub enum ExitNotifier {
    /// The caller gets a descriptor of the process itself, which the
    /// kernel makes readable.
    Pidfd,
    /// The caller gets the reading end of a pipe, and the zygote keeps
    /// the writing end to write one byte to.
    Pipe,
}

/// Chooses how the caller learns that a job has ended: through a
/// descriptor of the process where the kernel has them, else through a
/// pipe.
pub fn exit_notifier(pidfd_supported: bool) -> (r: ExitNotifier)
    ensures
        r == if pidfd_supported {
            ExitNotifier::Pidfd
        } else {
            ExitNotifier::Pipe
        },
{
    if pidfd_supported {
        ExitNotifier::Pidfd
    } else {
        ExitNotifier::Pipe
    }
}

/// What the zygote received.
#[derive(Debug, Clone, Copy, PartialEq, Eq, Structural)]
pub enum Received {
    /// Something that is no request.
    Unreadable,
    /// A request, which the zygote serves.
    Request,
}

/// Tells whether the zygote leaves its loop after what it received, and
/// with which status: it stays for a request and leaves for anything
/// else.
pub fn handle_one_request(received: Received) -> (r: Option<ReturnCode>)
    ensures
        r == match received {
            Received::Unreadable => Some(ReturnCode(0xBAD)),
            Received::Request => None,
        },
{
    match received {
        Received::Unreadable => Some(ReturnCode::bad_query()),
        Received::Request => None,
    }
}

/// Nanoseconds of CPU time, from the seconds and microseconds that the
/// system counted in user and in kernel mode. What does not fit is
/// reported as the largest number.
pub open spec fn cpu_time_ns(
    user_sec: u64,
    user_usec: u64,
    system_sec: u64,
    system_usec: u64,
) -> u64 {
    let total = (user_sec + system_sec) * 1_000_000_000 + (user_usec + system_usec) * 1000;
    if total > u64::MAX {
        u64::MAX
    } else {
        total as u64
    }
}

/// What the zygote reports of the resources that its children used:
/// their largest resident set, and the CPU time of both modes together,
/// in nanoseconds.
pub fn resource_usage(
    max_rss: u64,
    user_sec: u64,
    user_usec: u64,
    system_sec: u64,
    system_usec: u64,
) -> (r: ResourceUsageInformation)
    ensures
        r.memory == max_rss,
        r.cpu == cpu_time_ns(user_sec, user_usec, system_sec, system_usec),
{
    let sec: u128 = user_sec as u128 + system_sec as u128;
    let usec: u128 = user_usec as u128 + system_usec as u128;
    assert(sec * 1_000_000_000 <= 0x2_0000_0000_0000_0000 * 1_000_000_000) by (nonlinear_arith)
        requires
            sec <= 0x2_0000_0000_0000_0000,
    ;
    assert(usec * 1000 <= 0x2_0000_0000_0000_0000 * 1000) by (nonlinear_arith)
        requires
            usec <= 0x2_0000_0000_0000_0000,
    ;
    let total: u128 = sec * 1_000_000_000 + usec * 1000;
    let cpu: u64 = if total > 0xffff_ffff_ffff_ffff {
        0xffff_ffff_ffff_ffff
    } else {
        total as u64
    };
    ResourceUsageInformation { memory: max_rss, cpu }
}

} // verus!
