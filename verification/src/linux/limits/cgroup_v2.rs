//! The driver for version 2 cgroups: one hierarchy for all controllers.
use crate::decimal::{decimal, format_u64, parse_u64, parse_u64_spec};
use crate::linux::limits::cgroup_common::{op_views, push_op, GroupOp, GroupOpView};
use crate::linux::limits::cgroup_v1::file_in;
use crate::linux::limits::{InternalResourceUsageData, ResourceLimits};
use crate::path::{path_push, path_push_all, push_component, push_components};
use crate::text::{
    chars_of, has_prefix, lines, lines_of, starts_with, string_of, string_views,
    strip_prefix_repeatedly, strip_repeated_prefix, views,
};
use vstd::prelude::*;

verus! {

/// Where the unified hierarchy is, and below which group the groups of
/// the sandboxes are made.
#[derive(Debug)]
pub struct CgroupV2 {
    pub cgroupfs_path: String,
    pub cgroup_prefix: Vec<String>,
}

/// The group below which the groups of the sandboxes are made:
/// `<mount>/<prefix>`.
pub open spec fn unified_prefix_dir(mount: Seq<char>, prefix: Seq<Seq<char>>) -> Seq<char> {
    path_push_all(mount, prefix)
}

/// The directory of the group `cgroup_id`: `<mount>/<prefix>/sandbox.<id>`.
pub open spec fn unified_group_dir(
    mount: Seq<char>,
    prefix: Seq<Seq<char>>,
    cgroup_id: Seq<char>,
) -> Seq<char> {
    path_push(unified_prefix_dir(mount, prefix), "sandbox."@ + cgroup_id)
}

/// The steps that prepare a group with the given limits: its directory,
/// an attempt to switch the controllers on in the group above, the limit
/// on the number of processes, the limit on memory, and a handle on the
/// list of processes of the group.
pub open spec fn v2_create_plan(
    mount: Seq<char>,
    prefix: Seq<Seq<char>>,
    id: Seq<char>,
    limits: ResourceLimits,
) -> Seq<GroupOpView> {
    let dir = unified_group_dir(mount, prefix, id);
    seq![
        GroupOpView::CreateDir { path: dir },
        GroupOpView::TryWrite {
            path: path_push(unified_prefix_dir(mount, prefix), "cgroup.subtree_control"@),
            data: "+pids +cpu +memory"@,
        },
        GroupOpView::Write {
            path: path_push(dir, "pids.max"@),
            data: decimal(limits.pids_max as nat),
        },
        GroupOpView::Write {
            path: path_push(dir, "memory.max"@),
            data: decimal(limits.memory_max as nat),
        },
        GroupOpView::OpenHandle { path: path_push(dir, "cgroup.procs"@) },
    ]
}

/// The CPU time that one line of `cpu.stat` reports, in nanoseconds.
///
/// Only a line that begins with `usage_usec` reports one: the number of
/// microseconds that follows `usage_usec `, times 1000. A line whose
/// number cannot be read, or is too large to be converted, reports
/// nothing.
pub open spec fn usage_of_line(line: Seq<char>) -> Option<u64> {
    if starts_with(line, "usage_usec"@) {
        match parse_u64_spec(strip_repeated_prefix(line, "usage_usec "@)) {
            Some(usec) if usec * 1000 <= u64::MAX => Some((usec * 1000) as u64),
            _ => None,
        }
    } else {
        None
    }
}

/// The CPU time that the lines of `cpu.stat` report: that of the last
/// line that reports one. Where no line does, the largest number, so
/// that a group that cannot be measured counts as one that used
/// everything.
pub open spec fn usage_of_lines(stat_lines: Seq<Seq<char>>) -> u64
    decreases stat_lines.len(),
{
    if stat_lines.len() == 0 {
        u64::MAX
    } else {
        match usage_of_line(stat_lines.last()) {
            Some(v) => v,
            None => usage_of_lines(stat_lines.drop_last()),
        }
    }
}

/// Reads one line of `cpu.stat`.
fn read_usage_line(line: &Vec<char>) -> (r: Option<u64>)
    ensures
        r == usage_of_line(line@),
{
    if !has_prefix(line, &chars_of("usage_usec")) {
        return None;
    }
    let number = strip_prefix_repeatedly(line, &chars_of("usage_usec "));
    match parse_u64(&number) {
        Some(usec) => {
            if usec <= u64::MAX / 1000 {
                Some(usec * 1000)
            } else {
                None
            }
        },
        None => None,
    }
}

impl CgroupV2 {
    /// The group below which the groups of the sandboxes are made.
    pub fn get_cgroup_prefix(&self) -> (r: String)
        ensures
            r@ == unified_prefix_dir(self.cgroupfs_path@, string_views(self.cgroup_prefix@)),
    {
        let mut p = chars_of(self.cgroupfs_path.as_str());
        let mut prefix: Vec<Vec<char>> = Vec::new();
        let mut i: usize = 0;
        while i < self.cgroup_prefix.len()
            invariant
                i <= self.cgroup_prefix.len(),
                views(prefix@) == string_views(self.cgroup_prefix@).take(i as int),
            decreases self.cgroup_prefix.len() - i,
        {
            let ghost before = views(prefix@);
            let comp = chars_of(self.cgroup_prefix[i].as_str());
            prefix.push(comp);
            assert(views(prefix@) == before.push(comp@));
            assert(string_views(self.cgroup_prefix@).take(i + 1) == string_views(
                self.cgroup_prefix@,
            ).take(i as int).push(self.cgroup_prefix@[i as int]@));
            i += 1;
        }
        assert(string_views(self.cgroup_prefix@).take(self.cgroup_prefix.len() as int)
            == string_views(self.cgroup_prefix@));
        push_components(&mut p, &prefix);
        string_of(&p)
    }

    /// The directory of the group `cgroup_id`.
    pub fn get_path_for_cgroup_unified(&self, cgroup_id: &str) -> (r: String)
        ensures
            r@ == unified_group_dir(
                self.cgroupfs_path@,
                string_views(self.cgroup_prefix@),
                cgroup_id@,
            ),
    {
        let mut p = chars_of(self.get_cgroup_prefix().as_str());
        let mut name = chars_of("sandbox.");
        let mut id = chars_of(cgroup_id);
        name.append(&mut id);
        push_component(&mut p, &name);
        string_of(&p)
    }

    /// Plans the preparation of the group `group_id` with `limits`.
    pub fn create_group(&self, group_id: &str, limits: &ResourceLimits) -> (ops: Vec<GroupOp>)
        ensures
            op_views(ops@) == v2_create_plan(
                self.cgroupfs_path@,
                string_views(self.cgroup_prefix@),
                group_id@,
                *limits,
            ),
    {
        let dir = self.get_path_for_cgroup_unified(group_id);
        let parent = self.get_cgroup_prefix();
        let control = file_in(parent.as_str(), "cgroup.subtree_control");
        let pids_max = file_in(dir.as_str(), "pids.max");
        let memory_max = file_in(dir.as_str(), "memory.max");
        let procs = file_in(dir.as_str(), "cgroup.procs");
        let mut ops: Vec<GroupOp> = Vec::new();
        assert(op_views(ops@) =~= Seq::<GroupOpView>::empty());
        push_op(&mut ops, GroupOp::CreateDir { path: dir });
        push_op(
            &mut ops,
            GroupOp::TryWrite { path: control, data: string_of(&chars_of("+pids +cpu +memory")) },
        );
        push_op(
            &mut ops,
            GroupOp::Write { path: pids_max, data: format_u64(limits.pids_max as u64) },
        );
        push_op(&mut ops, GroupOp::Write { path: memory_max, data: format_u64(limits.memory_max) });
        push_op(&mut ops, GroupOp::OpenHandle { path: procs });
        assert(op_views(ops@) =~= v2_create_plan(
            self.cgroupfs_path@,
            string_views(self.cgroup_prefix@),
            group_id@,
            *limits,
        ));
        ops
    }

    /// The directory to remove to delete the group `group_id`.
    pub fn delete_group(&self, group_id: &str) -> (dir: String)
        ensures
            dir@ == unified_group_dir(
                self.cgroupfs_path@,
                string_views(self.cgroup_prefix@),
                group_id@,
            ),
    {
        self.get_path_for_cgroup_unified(group_id)
    }

    /// The file that holds the statistics on the CPU use of the group.
    pub fn cpu_stat_file(&self, group_id: &str) -> (r: String)
        ensures
            r@ == path_push(
                unified_group_dir(
                    self.cgroupfs_path@,
                    string_views(self.cgroup_prefix@),
                    group_id@,
                ),
                "cpu.stat"@,
            ),
    {
        let dir = self.get_path_for_cgroup_unified(group_id);
        file_in(dir.as_str(), "cpu.stat")
    }

    /// The CPU time of a group in nanoseconds, from the text of its
    /// `cpu.stat` file.
    pub fn get_cpu_usage(stat_data: &str) -> (r: u64)
        ensures
            r == usage_of_lines(lines(stat_data@)),
    {
        let stat_lines = lines_of(&chars_of(stat_data));
        let mut val: u64 = u64::MAX;
        let mut i: usize = 0;
        assert(views(stat_lines@).take(0) == Seq::<Seq<char>>::empty());
        while i < stat_lines.len()
            invariant
                i <= stat_lines.len(),
                val == usage_of_lines(views(stat_lines@).take(i as int)),
            decreases stat_lines.len() - i,
        {
            proof {
                let next = views(stat_lines@).take(i + 1);
                assert(next.drop_last() == views(stat_lines@).take(i as int));
                assert(next.last() == stat_lines@[i as int]@);
            }
            match read_usage_line(&stat_lines[i]) {
                Some(v) => {
                    val = v;
                },
                None => {},
            }
            i += 1;
        }
        assert(views(stat_lines@).take(stat_lines.len() as int) == views(stat_lines@));
        val
    }

    /// What the group used, from the text of its `cpu.stat` file. The
    /// unified hierarchy does not tell the largest memory use.
    pub fn resource_usage(stat_data: &str) -> (r: InternalResourceUsageData)
        ensures
            r == (InternalResourceUsageData {
                time: usage_of_lines(lines(stat_data@)),
                memory: None,
            }),
    {
        InternalResourceUsageData { time: Self::get_cpu_usage(stat_data), memory: None }
    }
}

} // verus!
