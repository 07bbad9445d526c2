//! What both cgroup drivers share: the steps that prepare a group, and the
//! handle with which a process joins it.
use crate::decimal::{decimal, format_u64};
use vstd::prelude::*;

verus! {

/// The error number for an invalid argument.
pub const EINVAL: i32 = 22;

/// One step of preparing a group in the cgroup file system.
#[derive(Debug)]
pub enum GroupOp {
    /// Create the directory, with its parents. A failure ends the
    /// preparation.
    CreateDir { path: String },
    /// Write `data` into the file. A failure ends the preparation.
    Write { path: String, data: String },
    /// Write `data` into the file. A failure is passed over.
    TryWrite { path: String, data: String },
    /// Open the file for writing and keep a duplicate of the descriptor,
    /// for the processes that are to join the group.
    OpenHandle { path: String },
}

/// What a `GroupOp` holds, as mathematical values.
pub ghost enum GroupOpView {
    CreateDir { path: Seq<char> },
    Write { path: Seq<char>, data: Seq<char> },
    TryWrite { path: Seq<char>, data: Seq<char> },
    OpenHandle { path: Seq<char> },
}

impl View for GroupOp {
    type V = GroupOpView;

    open spec fn view(&self) -> GroupOpView {
        match self {
            GroupOp::CreateDir { path } => GroupOpView::CreateDir { path: path@ },
            GroupOp::Write { path, data } => GroupOpView::Write { path: path@, data: data@ },
            GroupOp::TryWrite { path, data } => GroupOpView::TryWrite { path: path@, data: data@ },
            GroupOp::OpenHandle { path } => GroupOpView::OpenHandle { path: path@ },
        }
    }
}

/// The views of a list of steps.
pub open spec fn op_views(ops: Seq<GroupOp>) -> Seq<GroupOpView> {
    ops.map_values(|op: GroupOp| op@)
}

/// Adds a step to a list of steps.
pub fn push_op(ops: &mut Vec<GroupOp>, op: GroupOp)
    ensures
        op_views(final(ops)@) == op_views(old(ops)@).push(op@),
{
    ops.push(op);
    assert(op_views(ops@) =~= op_views(old(ops)@).push(op@));
}

/// Information sufficient for joining a cgroup.
#[derive(Debug, Clone)]
pub enum CgroupEnter {
    /// Descriptors of the `tasks` file in each hierarchy.
    V1(Vec<i32>),
    /// Descriptor of the `cgroup.procs` file in the cgroup directory.
    V2(i32),
}

/// The descriptors of a handle, in the order in which they are written
/// to.
pub open spec fn enter_fds(handle: CgroupEnter) -> Seq<i32> {
    match handle {
        CgroupEnter::V1(fds) => fds@,
        CgroupEnter::V2(fd) => seq![fd],
    }
}

/// The first failure among the outcomes of some writes, if any.
pub open spec fn first_failure(outcomes: Seq<Option<i32>>) -> Option<i32>
    decreases outcomes.len(),
{
    if outcomes.len() == 0 {
        None
    } else if outcomes[0] is Some {
        outcomes[0]
    } else {
        first_failure(outcomes.skip(1))
    }
}

/// The last failure among the outcomes of some writes that is not an
/// invalid argument, if any.
pub open spec fn last_real_failure(outcomes: Seq<Option<i32>>) -> Option<i32>
    decreases outcomes.len(),
{
    if outcomes.len() == 0 {
        None
    } else {
        match outcomes.last() {
            Some(code) if code != EINVAL => Some(code),
            _ => last_real_failure(outcomes.drop_last()),
        }
    }
}

impl CgroupEnter {
    /// The descriptors to write to, in order.
    pub fn fds(&self) -> (r: Vec<i32>)
        ensures
            r@ == enter_fds(*self),
    {
        match self {
            CgroupEnter::V1(handles) => {
                let mut r: Vec<i32> = Vec::new();
                let mut i: usize = 0;
                while i < handles.len()
                    invariant
                        i <= handles.len(),
                        r@ == handles@.take(i as int),
                    decreases handles.len() - i,
                {
                    r.push(handles[i]);
                    i += 1;
                }
                assert(handles@.take(handles.len() as int) == handles@);
                r
            },
            CgroupEnter::V2(handle) => {
                let mut r: Vec<i32> = Vec::new();
                r.push(*handle);
                r
            },
        }
    }

    /// What a process writes to each descriptor to join the group: its
    /// pid, in decimal.
    pub fn join_payload(pid: u32) -> (r: String)
        ensures
            r@ == decimal(pid as nat),
    {
        format_u64(pid as u64)
    }

    /// Whether a process has joined the group, from the outcome of the
    /// write to each descriptor, in order; an outcome is the error
    /// number of a failed write. The first failure ends the attempt and
    /// is reported.
    pub fn join(outcomes: &Vec<Option<i32>>) -> (r: Result<(), i32>)
        ensures
            r == match first_failure(outcomes@) {
                Some(code) => Err::<(), i32>(code),
                None => Ok(()),
            },
    {
        let mut i: usize = 0;
        assert(outcomes@.skip(0) == outcomes@);
        while i < outcomes.len()
            invariant
                i <= outcomes.len(),
                first_failure(outcomes@) == first_failure(outcomes@.skip(i as int)),
            decreases outcomes.len() - i,
        {
            match outcomes[i] {
                Some(code) => {
                    return Err(code);
                },
                None => {},
            }
            assert(outcomes@.skip(i as int).skip(1) == outcomes@.skip(i + 1));
            i += 1;
        }
        Ok(())
    }

    /// Whether the group can be joined, from the outcome of writing
    /// nothing to each descriptor, in order. A write refused as an
    /// invalid argument did reach the file and counts as a success; of
    /// the other failures the last one is reported.
    pub fn check_access(outcomes: &Vec<Option<i32>>) -> (r: Result<(), i32>)
        ensures
            r == match last_real_failure(outcomes@) {
                Some(code) => Err::<(), i32>(code),
                None => Ok(()),
            },
    {
        let mut err: Option<i32> = None;
        let mut i: usize = 0;
        assert(outcomes@.take(0) == Seq::<Option<i32>>::empty());
        while i < outcomes.len()
            invariant
                i <= outcomes.len(),
                err == last_real_failure(outcomes@.take(i as int)),
            decreases outcomes.len() - i,
        {
            assert(outcomes@.take(i + 1).drop_last() == outcomes@.take(i as int));
            match outcomes[i] {
                Some(code) => {
                    if code != EINVAL {
                        err = Some(code);
                    }
                },
                None => {},
            }
            i += 1;
        }
        assert(outcomes@.take(outcomes.len() as int) == outcomes@);
        match err {
            Some(code) => Err(code),
            None => Ok(()),
        }
    }
}

} // verus!
