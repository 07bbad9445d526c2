//! The zygote: the long-running first process of a sandbox, which starts
//! the jobs.
//!
//! This module holds what a job does between `fork` and `execve`, as a
//! list of steps that the forked child carries out in order, and how the
//! zygote itself is started.
use crate::decimal::{decimal, format_i32, format_u64, signed_decimal};
use crate::linux::jail_common::JobQuery;
use crate::text::{clone_strings, string_views};
use vstd::prelude::*;
use vstd::string::*;

pub mod main_loop;
pub mod setup;

verus! {

/// The user and group that a sandboxed program runs as, seen from inside.
pub const SANDBOX_INTERNAL_UID: u32 = 179;

/// The status a job exits with when its executable does not exist.
pub const EXIT_EXECUTABLE_NOT_FOUND: i32 = 108;

/// The error number for a path that does not exist.
pub const ENOENT: i32 = 2;

/// The three standard descriptors of a job, as the zygote holds them.
#[derive(Debug, Clone, Copy, PartialEq, Eq, Structural)]
pub struct Stdio {
    pub stdin: i32,
    pub stdout: i32,
    pub stderr: i32,
}

impl Stdio {
    /// Names three descriptors received in the order stdin, stdout,
    /// stderr.
    pub fn from_fd_array(fds: [i32; 3]) -> (r: Stdio)
        ensures
            r == (Stdio { stdin: fds[0], stdout: fds[1], stderr: fds[2] }),
    {
        Stdio { stdin: fds[0], stdout: fds[1], stderr: fds[2] }
    }
}

/// What the zygote needs to start one job.
#[derive(Debug)]
pub struct JobOptions {
    pub exe: String,
    pub argv: Vec<String>,
    pub env: Vec<String>,
    pub stdio: Stdio,
    /// Extra descriptors to hand down, each as the slot it is to take in
    /// the job and the descriptor that the zygote holds.
    pub extra: Vec<(i32, i32)>,
    pub pwd: String,
}

/// The extra descriptors of a job: each slot asked for, with the
/// descriptor received for it.
pub open spec fn paired(slots: Seq<i32>, fds: Seq<i32>) -> Seq<(i32, i32)>
    recommends
        slots.len() == fds.len(),
{
    Seq::new(slots.len(), |i: int| (slots[i], fds[i]))
}

/// What the zygote starts a job with, from the request and the
/// descriptors that came after it: the standard three first, then one
/// for each extra slot, in the order of the slots. Nothing where the
/// number of descriptors is another one.
pub fn job_options(query: &JobQuery, fds: &Vec<i32>) -> (r: Option<JobOptions>)
    ensures
        match r {
            Some(options) => {
                &&& fds@.len() == 3 + query.extra_fds@.len()
                &&& options.exe@ == query.image_path@
                &&& string_views(options.argv@) == string_views(query.argv@)
                &&& string_views(options.env@) == string_views(query.environment@)
                &&& options.stdio == (Stdio { stdin: fds@[0], stdout: fds@[1], stderr: fds@[2] })
                &&& options.extra@ == paired(query.extra_fds@, fds@.skip(3))
                &&& options.pwd@ == query.pwd@
            },
            None => fds@.len() != 3 + query.extra_fds@.len(),
        },
{
    let n = query.extra_fds.len();
    if fds.len() < 3 || fds.len() - 3 != n {
        return None;
    }
    let mut extra: Vec<(i32, i32)> = Vec::new();
    let mut i: usize = 0;
    while i < n
        invariant
            i <= n,
            n == query.extra_fds.len(),
            fds.len() == 3 + n,
            extra@ == paired(query.extra_fds@, fds@.skip(3)).take(i as int),
        decreases n - i,
    {
        extra.push((query.extra_fds[i], fds[i + 3]));
        assert(extra@ =~= paired(query.extra_fds@, fds@.skip(3)).take(i + 1));
        i += 1;
    }
    assert(extra@ =~= paired(query.extra_fds@, fds@.skip(3)));
    Some(
        JobOptions {
            exe: query.image_path.clone(),
            argv: clone_strings(&query.argv),
            env: clone_strings(&query.environment),
            stdio: Stdio { stdin: fds[0], stdout: fds[1], stderr: fds[2] },
            extra,
            pwd: query.pwd.clone(),
        },
    )
}

/// What a `JobOptions` holds, as mathematical values.
pub ghost struct JobOptionsView {
    pub exe: Seq<char>,
    pub argv: Seq<Seq<char>>,
    pub env: Seq<Seq<char>>,
    pub stdio: Stdio,
    pub extra: Seq<(i32, i32)>,
    pub pwd: Seq<char>,
}

impl View for JobOptions {
    type V = JobOptionsView;

    open spec fn view(&self) -> JobOptionsView {
        JobOptionsView {
            exe: self.exe@,
            argv: string_views(self.argv@),
            env: string_views(self.env@),
            stdio: self.stdio,
            extra: self.extra@,
            pwd: self.pwd@,
        }
    }
}

/// One step of what a forked child does to become the job.
#[derive(Debug)]
pub enum ExecStep {
    /// Mark a descriptor close-on-exec.
    CloseOnExec { fd: i32 },
    /// Join the resource group of the sandbox. The child must not go on
    /// where this fails.
    JoinGroup,
    /// Change to a directory, named from the root of the sandbox. A
    /// failure is reported and passed over.
    ChangeDir { path: String },
    /// Switch to a group.
    SetGid { gid: u32 },
    /// Switch to a user.
    SetUid { uid: u32 },
    /// Duplicate a descriptor into a slot.
    Dup2 { from: i32, to: i32 },
    /// Load the seccomp filter. The child must not go on without it.
    EnableSeccomp,
    /// Replace the child by the program, with its arguments, the path of
    /// the program first, and its environment.
    Exec { path: String, argv: Vec<String>, envp: Vec<String> },
}

/// What an `ExecStep` holds, as mathematical values.
pub ghost enum ExecStepView {
    CloseOnExec { fd: i32 },
    JoinGroup,
    ChangeDir { path: Seq<char> },
    SetGid { gid: u32 },
    SetUid { uid: u32 },
    Dup2 { from: i32, to: i32 },
    EnableSeccomp,
    Exec { path: Seq<char>, argv: Seq<Seq<char>>, envp: Seq<Seq<char>> },
}

impl View for ExecStep {
    type V = ExecStepView;

    open spec fn view(&self) -> ExecStepView {
        match self {
            ExecStep::CloseOnExec { fd } => ExecStepView::CloseOnExec { fd: *fd },
            ExecStep::JoinGroup => ExecStepView::JoinGroup,
            ExecStep::ChangeDir { path } => ExecStepView::ChangeDir { path: path@ },
            ExecStep::SetGid { gid } => ExecStepView::SetGid { gid: *gid },
            ExecStep::SetUid { uid } => ExecStepView::SetUid { uid: *uid },
            ExecStep::Dup2 { from, to } => ExecStepView::Dup2 { from: *from, to: *to },
            ExecStep::EnableSeccomp => ExecStepView::EnableSeccomp,
            ExecStep::Exec { path, argv, envp } => ExecStepView::Exec {
                path: path@,
                argv: string_views(argv@),
                envp: string_views(envp@),
            },
        }
    }
}

/// The views of a list of steps.
pub open spec fn step_views(steps: Seq<ExecStep>) -> Seq<ExecStepView> {
    steps.map_values(|s: ExecStep| s@)
}

/// Whether `fd` is one of the descriptors that a job is given: one of its
/// standard three, or an extra one.
pub open spec fn is_job_fd(fd: i32, stdio: Stdio, extra: Seq<(i32, i32)>) -> bool {
    fd == stdio.stdin || fd == stdio.stdout || fd == stdio.stderr || exists|i: int|
        0 <= i < extra.len() && (#[trigger] extra[i]).1 == fd
}

/// The open descriptors that a job must not see.
pub open spec fn close_on_exec_list(
    open_fds: Seq<i32>,
    stdio: Stdio,
    extra: Seq<(i32, i32)>,
) -> Seq<i32> {
    open_fds.filter(|fd: i32| !is_job_fd(fd, stdio, extra))
}

/// The duplications that put the descriptors of a job into their slots:
/// the standard three into 0, 1 and 2, then each extra one into the slot
/// asked for.
pub open spec fn dup2_list(stdio: Stdio, extra: Seq<(i32, i32)>) -> Seq<(i32, i32)> {
    seq![(stdio.stdin, 0i32), (stdio.stdout, 1i32), (stdio.stderr, 2i32)] + extra.map_values(
        |e: (i32, i32)| (e.1, e.0),
    )
}

/// The steps that mark each of `fds` close-on-exec.
pub open spec fn close_steps(fds: Seq<i32>) -> Seq<ExecStepView> {
    fds.map_values(|fd: i32| ExecStepView::CloseOnExec { fd })
}

/// The steps that make each duplication of `pairs`.
pub open spec fn dup2_steps(pairs: Seq<(i32, i32)>) -> Seq<ExecStepView> {
    pairs.map_values(|p: (i32, i32)| ExecStepView::Dup2 { from: p.0, to: p.1 })
}

/// The steps that give a job the identity of the sandbox, if it is to
/// get one: first the group, then the user.
pub open spec fn identity_steps(setuid: bool) -> Seq<ExecStepView> {
    if setuid {
        seq![
            ExecStepView::SetGid { gid: SANDBOX_INTERNAL_UID },
            ExecStepView::SetUid { uid: SANDBOX_INTERNAL_UID },
        ]
    } else {
        Seq::<ExecStepView>::empty()
    }
}

/// What a forked child does to become the job, in order.
///
/// It hides every open descriptor that the job is not given, joins the
/// resource group, changes to the working directory, takes the identity
/// of the sandbox if asked to, puts the descriptors of the job into
/// their slots, loads the seccomp filter, and runs the program.
pub open spec fn exec_steps(options: JobOptionsView, open_fds: Seq<i32>, setuid: bool) -> Seq<
    ExecStepView,
> {
    close_steps(close_on_exec_list(open_fds, options.stdio, options.extra)) + seq![
        ExecStepView::JoinGroup,
        ExecStepView::ChangeDir { path: options.pwd },
    ] + identity_steps(setuid) + dup2_steps(dup2_list(options.stdio, options.extra)) + seq![
        ExecStepView::EnableSeccomp,
        ExecStepView::Exec {
            path: options.exe,
            argv: seq![options.exe] + options.argv,
            envp: options.env,
        },
    ]
}

/// Whether `fd` is one of the descriptors that a job is given.
fn job_fd(fd: i32, stdio: &Stdio, extra: &Vec<(i32, i32)>) -> (r: bool)
    ensures
        r == is_job_fd(fd, *stdio, extra@),
{
    if fd == stdio.stdin || fd == stdio.stdout || fd == stdio.stderr {
        return true;
    }
    let mut i: usize = 0;
    while i < extra.len()
        invariant
            i <= extra.len(),
            forall|j: int| 0 <= j < i ==> (#[trigger] extra@[j]).1 != fd,
        decreases extra.len() - i,
    {
        if extra[i].1 == fd {
            return true;
        }
        i += 1;
    }
    false
}

fn push_step(steps: &mut Vec<ExecStep>, step: ExecStep)
    ensures
        step_views(final(steps)@) == step_views(old(steps)@).push(step@),
{
    steps.push(step);
    assert(step_views(steps@) =~= step_views(old(steps)@).push(step@));
}

/// Plans what a forked child does to become the job described by
/// `options`.
///
/// `open_fds` lists the descriptors that are open in the child. The job
/// is given the identity of the sandbox only where `setuid` is set.
pub fn plan_exec(options: &JobOptions, open_fds: &Vec<i32>, setuid: bool) -> (steps: Vec<ExecStep>)
    ensures
        step_views(steps@) == exec_steps(options@, open_fds@, setuid),
{
    let ghost hidden = |fd: i32| !is_job_fd(fd, options.stdio, options.extra@);
    let mut steps: Vec<ExecStep> = Vec::new();
    let mut i: usize = 0;
    proof {
        reveal(Seq::filter);
        assert(open_fds@.take(0) == Seq::<i32>::empty());
        assert(step_views(steps@) =~= close_steps(open_fds@.take(0).filter(hidden)));
    }
    while i < open_fds.len()
        invariant
            i <= open_fds.len(),
            hidden == (|fd: i32| !is_job_fd(fd, options.stdio, options.extra@)),
            step_views(steps@) == close_steps(open_fds@.take(i as int).filter(hidden)),
        decreases open_fds.len() - i,
    {
        proof {
            reveal(Seq::filter);
            assert(open_fds@.take(i + 1).drop_last() == open_fds@.take(i as int));
        }
        if !job_fd(open_fds[i], &options.stdio, &options.extra) {
            push_step(&mut steps, ExecStep::CloseOnExec { fd: open_fds[i] });
            assert(step_views(steps@) =~= close_steps(open_fds@.take(i + 1).filter(hidden)));
        }
        i += 1;
    }
    assert(open_fds@.take(open_fds.len() as int) == open_fds@);
    let ghost closing = step_views(steps@);

    push_step(&mut steps, ExecStep::JoinGroup);
    push_step(&mut steps, ExecStep::ChangeDir { path: options.pwd.clone() });
    if setuid {
        push_step(&mut steps, ExecStep::SetGid { gid: SANDBOX_INTERNAL_UID });
        push_step(&mut steps, ExecStep::SetUid { uid: SANDBOX_INTERNAL_UID });
    }
    let ghost before_dup = step_views(steps@);
    assert(before_dup =~= closing + seq![
        ExecStepView::JoinGroup,
        ExecStepView::ChangeDir { path: options.pwd@ },
    ] + identity_steps(setuid));

    push_step(&mut steps, ExecStep::Dup2 { from: options.stdio.stdin, to: 0 });
    push_step(&mut steps, ExecStep::Dup2 { from: options.stdio.stdout, to: 1 });
    push_step(&mut steps, ExecStep::Dup2 { from: options.stdio.stderr, to: 2 });
    let ghost standard = step_views(steps@);
    let ghost swapped = options.extra@.map_values(|e: (i32, i32)| (e.1, e.0));
    let mut k: usize = 0;
    assert(standard + dup2_steps(swapped.take(0)) =~= standard);
    while k < options.extra.len()
        invariant
            k <= options.extra.len(),
            swapped == options.extra@.map_values(|e: (i32, i32)| (e.1, e.0)),
            step_views(steps@) == standard + dup2_steps(swapped.take(k as int)),
        decreases options.extra.len() - k,
    {
        let (slot, fd) = options.extra[k];
        push_step(&mut steps, ExecStep::Dup2 { from: fd, to: slot });
        assert(step_views(steps@) =~= standard + dup2_steps(swapped.take(k + 1)));
        k += 1;
    }
    assert(swapped.take(options.extra.len() as int) == swapped);
    assert(step_views(steps@) =~= before_dup + dup2_steps(
        dup2_list(options.stdio, options.extra@),
    ));
    let ghost with_dup = step_views(steps@);

    let mut argv: Vec<String> = Vec::new();
    argv.push(options.exe.clone());
    let ghost first = string_views(argv@);
    assert(first =~= seq![options.exe@]);
    let mut rest = clone_strings(&options.argv);
    let ghost tail = string_views(rest@);
    argv.append(&mut rest);
    assert(string_views(argv@) =~= first + tail);
    push_step(&mut steps, ExecStep::EnableSeccomp);
    push_step(
        &mut steps,
        ExecStep::Exec { path: options.exe.clone(), argv, envp: clone_strings(&options.env) },
    );
    assert(step_views(steps@) =~= exec_steps(options@, open_fds@, setuid));
    steps
}

/// What a child does when `execve` came back.
#[derive(Debug, Clone, Copy, PartialEq, Eq, Structural)]
pub enum ExecFailure {
    /// The executable does not exist: the child says so, lists what does
    /// exist near the path, and exits with the status given.
    NotFound { status: i32 },
    /// Anything else: the child reports the error number and fails.
    Other { errno: i32 },
}

/// Tells what a child does after `execve` failed with `errno`.
pub fn exec_failure(errno: i32) -> (r: ExecFailure)
    ensures
        r == if errno == ENOENT {
            ExecFailure::NotFound { status: EXIT_EXECUTABLE_NOT_FOUND }
        } else {
            ExecFailure::Other { errno }
        },
{
    if errno == ENOENT {
        ExecFailure::NotFound { status: EXIT_EXECUTABLE_NOT_FOUND }
    } else {
        ExecFailure::Other { errno }
    }
}

// ---------------------------------------------------------------------
// What a job inherits
// ---------------------------------------------------------------------

/// The descriptors of a process: those that are open, and among them
/// those that are marked close-on-exec.
pub ghost struct FdTable {
    pub open: Set<int>,
    pub cloexec: Set<int>,
}

/// The table after `fd` was marked close-on-exec. Nothing changes where
/// `fd` is not open.
pub open spec fn mark_cloexec(t: FdTable, fd: int) -> FdTable {
    if t.open.contains(fd) {
        FdTable { cloexec: t.cloexec.insert(fd), ..t }
    } else {
        t
    }
}

/// The table after `from` was duplicated into `to`: `to` is open and not
/// marked. Nothing changes where `from` is not open or is `to` itself.
pub open spec fn dup2(t: FdTable, from: int, to: int) -> FdTable {
    if !t.open.contains(from) || from == to {
        t
    } else {
        FdTable { open: t.open.insert(to), cloexec: t.cloexec.remove(to) }
    }
}

/// The table after one step of a child. Only marking and duplicating
/// change it.
pub open spec fn after_step(t: FdTable, step: ExecStepView) -> FdTable {
    match step {
        ExecStepView::CloseOnExec { fd } => mark_cloexec(t, fd as int),
        ExecStepView::Dup2 { from, to } => dup2(t, from as int, to as int),
        _ => t,
    }
}

/// The table after each of `steps`, in order.
pub open spec fn after_steps(t: FdTable, steps: Seq<ExecStepView>) -> FdTable
    decreases steps.len(),
{
    if steps.len() == 0 {
        t
    } else {
        after_step(after_steps(t, steps.drop_last()), steps.last())
    }
}

/// The descriptors that a program started by `execve` finds open.
pub open spec fn inherited(t: FdTable) -> Set<int> {
    t.open.difference(t.cloexec)
}

/// Whether `fd` is a slot that a job asked for: 0, 1, 2 or the slot of an
/// extra descriptor.
pub open spec fn is_job_slot(fd: int, extra: Seq<(i32, i32)>) -> bool {
    fd == 0 || fd == 1 || fd == 2 || exists|i: int|
        0 <= i < extra.len() && (#[trigger] extra[i]).0 == fd
}

proof fn lemma_after_concat(t: FdTable, a: Seq<ExecStepView>, b: Seq<ExecStepView>)
    ensures
        after_steps(t, a + b) == after_steps(after_steps(t, a), b),
    decreases b.len(),
{
    if b.len() == 0 {
        assert(a + b =~= a);
    } else {
        lemma_after_concat(t, a, b.drop_last());
        assert((a + b).drop_last() =~= a + b.drop_last());
        assert((a + b).last() == b.last());
    }
}

/// Marking changes nothing but marks, and marks every open descriptor
/// that it is asked to.
proof fn lemma_after_close(t: FdTable, fds: Seq<i32>)
    ensures
        after_steps(t, close_steps(fds)).open == t.open,
        forall|i: int|
            0 <= i < fds.len() && t.open.contains(fds[i] as int) ==> after_steps(
                t,
                close_steps(fds),
            ).cloexec.contains(#[trigger] fds[i] as int),
    decreases fds.len(),
{
    if fds.len() > 0 {
        lemma_after_close(t, fds.drop_last());
        assert(close_steps(fds).drop_last() =~= close_steps(fds.drop_last()));
        assert(close_steps(fds).last() == ExecStepView::CloseOnExec { fd: fds.last() });
        assert forall|i: int|
            0 <= i < fds.len() && t.open.contains(fds[i] as int) implies after_steps(
            t,
            close_steps(fds),
        ).cloexec.contains(#[trigger] fds[i] as int) by {
            if i < fds.len() - 1 {
                assert(fds.drop_last()[i] == fds[i]);
            }
        }
    }
}

/// What is inherited after duplications was inherited before, or is the
/// slot of a duplication.
proof fn lemma_after_dup2(t: FdTable, pairs: Seq<(i32, i32)>)
    ensures
        forall|fd: int| #[trigger]
            inherited(after_steps(t, dup2_steps(pairs))).contains(fd) ==> inherited(t).contains(fd)
                || exists|i: int| 0 <= i < pairs.len() && (#[trigger] pairs[i]).1 == fd,
    decreases pairs.len(),
{
    if pairs.len() > 0 {
        let init = pairs.drop_last();
        lemma_after_dup2(t, init);
        assert(dup2_steps(pairs).drop_last() =~= dup2_steps(init));
        assert(dup2_steps(pairs).last() == ExecStepView::Dup2 {
            from: pairs.last().0,
            to: pairs.last().1,
        });
        assert forall|fd: int| #[trigger]
            inherited(after_steps(t, dup2_steps(pairs))).contains(fd) implies inherited(
            t,
        ).contains(fd) || exists|i: int| 0 <= i < pairs.len() && (#[trigger] pairs[i]).1 == fd by {
            if fd == pairs.last().1 as int {
                assert(pairs[pairs.len() - 1].1 == fd);
            } else {
                assert(inherited(after_steps(t, dup2_steps(init))).contains(fd));
                if !inherited(t).contains(fd) {
                    let i = choose|i: int| 0 <= i < init.len() && (#[trigger] init[i]).1 == fd;
                    assert(pairs[i] == init[i]);
                }
            }
        }
    }
}

/// The filter keeps what it is asked to keep.
proof fn lemma_filter_keeps(fds: Seq<i32>, keep: spec_fn(i32) -> bool, i: int)
    requires
        0 <= i < fds.len(),
        keep(fds[i]),
    ensures
        fds.filter(keep).contains(fds[i]),
    decreases fds.len(),
{
    reveal(Seq::filter);
    if i == fds.len() - 1 {
        let f = fds.filter(keep);
        assert(f.last() == fds[i]);
        assert(f[f.len() - 1] == fds[i]);
    } else {
        lemma_filter_keeps(fds.drop_last(), keep, i);
        let sub = fds.drop_last().filter(keep);
        let k = choose|k: int| 0 <= k < sub.len() && sub[k] == fds[i];
        assert(fds.drop_last()[i] == fds[i]);
        assert(fds.filter(keep)[k] == fds[i]);
    }
}

/// A job inherits nothing but what it was given.
///
/// Take a child whose open descriptors are those of `open_fds`, and let
/// it go through the steps planned for a job. Then every descriptor that
/// the job finds open is a slot that was asked for (0, 1, 2 or the slot
/// of an extra descriptor), or one of the descriptors that the zygote
/// handed to the job.
pub proof fn lemma_job_inherits_only_what_it_was_given(
    before: FdTable,
    open_fds: Seq<i32>,
    options: JobOptionsView,
    setuid: bool,
)
    requires
        forall|fd: int|
            before.open.contains(fd) <==> exists|i: int|
                0 <= i < open_fds.len() && #[trigger] open_fds[i] as int == fd,
    ensures
        forall|fd: int| #[trigger]
            inherited(after_steps(before, exec_steps(options, open_fds, setuid))).contains(fd)
                ==> is_job_slot(fd, options.extra) || (i32::MIN <= fd <= i32::MAX && is_job_fd(
                fd as i32,
                options.stdio,
                options.extra,
            )),
{
    let stdio = options.stdio;
    let extra = options.extra;
    let marks = close_on_exec_list(open_fds, stdio, extra);
    let pairs = dup2_list(stdio, extra);
    let hidden = |fd: i32| !is_job_fd(fd, stdio, extra);
    let a = close_steps(marks);
    let b = seq![ExecStepView::JoinGroup, ExecStepView::ChangeDir { path: options.pwd }];
    let c = identity_steps(setuid);
    let d = dup2_steps(pairs);
    let e = seq![
        ExecStepView::EnableSeccomp,
        ExecStepView::Exec {
            path: options.exe,
            argv: seq![options.exe] + options.argv,
            envp: options.env,
        },
    ];
    let marked = after_steps(before, a);
    assert(after_steps(before, exec_steps(options, open_fds, setuid)) == after_steps(marked, d))
        by {
        reveal_with_fuel(after_steps, 3);
        lemma_after_concat(before, a + b + c + d, e);
        lemma_after_concat(before, a + b + c, d);
        lemma_after_concat(before, a + b, c);
        lemma_after_concat(before, a, b);
        assert(after_steps(marked, b) == marked);
        assert(after_steps(marked, c) == marked);
        assert(after_steps(after_steps(marked, d), e) == after_steps(marked, d));
    }
    let after = after_steps(marked, d);
    lemma_after_close(before, marks);
    lemma_after_dup2(marked, pairs);
    assert forall|fd: int| #[trigger] inherited(after).contains(fd) implies is_job_slot(fd, extra)
        || (i32::MIN <= fd <= i32::MAX && is_job_fd(fd as i32, stdio, extra)) by {
        if inherited(marked).contains(fd) {
            let i = choose|i: int| 0 <= i < open_fds.len() && #[trigger] open_fds[i] as int == fd;
            if hidden(open_fds[i]) {
                lemma_filter_keeps(open_fds, hidden, i);
                let k = choose|k: int| 0 <= k < marks.len() && marks[k] == open_fds[i];
                assert(marked.cloexec.contains(marks[k] as int));
                assert(false);
            }
        } else {
            let i = choose|i: int| 0 <= i < pairs.len() && (#[trigger] pairs[i]).1 == fd;
            if i >= 3 {
                let swapped = extra.map_values(|e: (i32, i32)| (e.1, e.0));
                assert(pairs[i] == swapped[i - 3]);
                assert(extra[i - 3].0 == fd);
            }
        }
    }
}

// ---------------------------------------------------------------------
// Starting the zygote
// ---------------------------------------------------------------------

/// Namespace flag: mounts.
pub const CLONE_NEWNS: u64 = 0x0002_0000;

/// Namespace flag: users.
pub const CLONE_NEWUSER: u64 = 0x1000_0000;

/// Namespace flag: processes.
pub const CLONE_NEWPID: u64 = 0x2000_0000;

/// Namespace flag: network.
pub const CLONE_NEWNET: u64 = 0x4000_0000;

/// One call that leaves namespaces behind.
#[derive(Debug, Clone, Copy, PartialEq, Eq, Structural)]
pub struct Unshare {
    pub flags: u64,
    /// Whether the start of the sandbox fails where the call fails.
    pub required: bool,
}

/// The namespaces that the parent of a zygote leaves, in two calls:
/// first those of users, processes and the network, which it cannot do
/// without, then that of mounts, which may be missing where the settings
/// allow it.
pub fn unshare_plan(allow_mount_ns_failure: bool) -> (r: Vec<Unshare>)
    ensures
        r@ == seq![
            Unshare { flags: CLONE_NEWUSER | CLONE_NEWPID | CLONE_NEWNET, required: true },
            Unshare { flags: CLONE_NEWNS, required: !allow_mount_ns_failure },
        ],
{
    let mut r: Vec<Unshare> = Vec::new();
    r.push(Unshare { flags: CLONE_NEWUSER | CLONE_NEWPID | CLONE_NEWNET, required: true });
    r.push(Unshare { flags: CLONE_NEWNS, required: !allow_mount_ns_failure });
    r
}

/// The mapping of users, and of groups, of a zygote.
///
/// The user of the caller is root inside the sandbox. Where the sandbox
/// has a host user of its own, that user is the internal user inside.
pub open spec fn id_mapping(euid: u32, sandbox_uid: Option<u32>) -> Seq<char> {
    let root = "0 "@ + decimal(euid as nat) + " 1"@;
    match sandbox_uid {
        Some(uid) => root + "\n"@ + decimal(SANDBOX_INTERNAL_UID as nat) + " "@ + decimal(
            uid as nat,
        ) + " 1"@,
        None => root,
    }
}

/// Writes out the mapping of users, and of groups, of a zygote started
/// by the user `euid`.
pub fn zygote_id_mapping(euid: u32, sandbox_uid: Option<u32>) -> (r: String)
    ensures
        r@ == id_mapping(euid, sandbox_uid),
{
    let mut r = "0 ".to_owned();
    r.append(format_u64(euid as u64).as_str());
    r.append(" 1");
    match sandbox_uid {
        Some(uid) => {
            r.append("\n");
            r.append(format_u64(SANDBOX_INTERNAL_UID as u64).as_str());
            r.append(" ");
            r.append(format_u64(uid as u64).as_str());
            r.append(" 1");
        },
        None => {},
    }
    r
}

/// The file `name` of the process `pid` in the process file system.
pub open spec fn proc_file(pid: i32, name: Seq<char>) -> Seq<char> {
    "/proc/"@ + signed_decimal(pid as int) + "/"@ + name
}

/// One file to write, and what to write into it.
#[derive(Debug)]
pub struct FileWrite {
    pub path: String,
    pub data: String,
}

/// The files to write for a zygote whose pid on the host is known, in
/// order: the zygote may not set its groups, then its users are mapped,
/// then its groups, both in the same way.
pub open spec fn id_map_writes(zygote_pid: i32, euid: u32, sandbox_uid: Option<u32>) -> Seq<
    (Seq<char>, Seq<char>),
> {
    seq![
        (proc_file(zygote_pid, "setgroups"@), "deny"@),
        (proc_file(zygote_pid, "uid_map"@), id_mapping(euid, sandbox_uid)),
        (proc_file(zygote_pid, "gid_map"@), id_mapping(euid, sandbox_uid)),
    ]
}

/// The views of a list of writes.
pub open spec fn write_views(writes: Seq<FileWrite>) -> Seq<(Seq<char>, Seq<char>)> {
    writes.map_values(|w: FileWrite| (w.path@, w.data@))
}

fn proc_path(pid: i32, name: &str) -> (r: String)
    ensures
        r@ == proc_file(pid, name@),
{
    let mut r = "/proc/".to_owned();
    r.append(format_i32(pid).as_str());
    r.append("/");
    r.append(name);
    r
}

/// Plans the writes that map the identities of the zygote `zygote_pid`,
/// which was started by the user `euid`. Once they are made, the zygote
/// is told to go on.
pub fn map_identities(zygote_pid: i32, euid: u32, sandbox_uid: Option<u32>) -> (r: Vec<FileWrite>)
    ensures
        write_views(r@) == id_map_writes(zygote_pid, euid, sandbox_uid),
{
    let mut r: Vec<FileWrite> = Vec::new();
    r.push(FileWrite { path: proc_path(zygote_pid, "setgroups"), data: "deny".to_owned() });
    r.push(
        FileWrite {
            path: proc_path(zygote_pid, "uid_map"),
            data: zygote_id_mapping(euid, sandbox_uid),
        },
    );
    r.push(
        FileWrite {
            path: proc_path(zygote_pid, "gid_map"),
            data: zygote_id_mapping(euid, sandbox_uid),
        },
    );
    assert(write_views(r@) =~= id_map_writes(zygote_pid, euid, sandbox_uid));
    r
}

} // verus!
