//! The driver for version 1 cgroups: one hierarchy for each controller.
use crate::decimal::{decimal, format_u64, parse_u64, parse_u64_spec};
use crate::linux::limits::cgroup_common::{op_views, push_op, GroupOp, GroupOpView};
use crate::linux::limits::{InternalResourceUsageData, ResourceLimits};
use crate::path::{path_push, path_push_all, push_component, push_components};
use crate::text::{chars_of, string_of, string_views, trim, trim_chars, views};
use vstd::prelude::*;

verus! {

/// Where the version 1 hierarchies are, and below which group the groups
/// of the sandboxes are made.
#[derive(Debug)]
pub struct CgroupV1 {
    pub cgroupfs_path: String,
    pub cgroup_prefix: Vec<String>,
}

/// The directory of the group `cgroup_id` in the hierarchy of the
/// controller `subsys`: `<mount>/<controller>/<prefix>/sandbox.<id>`.
pub open spec fn legacy_group_dir(
    mount: Seq<char>,
    prefix: Seq<Seq<char>>,
    subsys: Seq<char>,
    cgroup_id: Seq<char>,
) -> Seq<char> {
    path_push(path_push_all(path_push(mount, subsys), prefix), "sandbox."@ + cgroup_id)
}

/// The steps that prepare a group with the given limits: a directory in
/// the hierarchies of `cpuacct`, `pids` and `memory`, the limit on the
/// number of processes, no swapping, the limit on memory, and a handle on
/// the `tasks` file of each of the three.
pub open spec fn v1_create_plan(
    mount: Seq<char>,
    prefix: Seq<Seq<char>>,
    id: Seq<char>,
    limits: ResourceLimits,
) -> Seq<GroupOpView> {
    let cpuacct = legacy_group_dir(mount, prefix, "cpuacct"@, id);
    let pids = legacy_group_dir(mount, prefix, "pids"@, id);
    let memory = legacy_group_dir(mount, prefix, "memory"@, id);
    seq![
        GroupOpView::CreateDir { path: cpuacct },
        GroupOpView::CreateDir { path: pids },
        GroupOpView::Write {
            path: path_push(pids, "pids.max"@),
            data: decimal(limits.pids_max as nat),
        },
        GroupOpView::CreateDir { path: memory },
        GroupOpView::Write { path: path_push(memory, "memory.swappiness"@), data: decimal(0) },
        GroupOpView::Write {
            path: path_push(memory, "memory.limit_in_bytes"@),
            data: decimal(limits.memory_max as nat),
        },
        GroupOpView::OpenHandle { path: path_push(cpuacct, "tasks"@) },
        GroupOpView::OpenHandle { path: path_push(memory, "tasks"@) },
        GroupOpView::OpenHandle { path: path_push(pids, "tasks"@) },
    ]
}

/// The directories that make up a group, in the order in which they are
/// removed.
pub open spec fn v1_group_dirs(mount: Seq<char>, prefix: Seq<Seq<char>>, id: Seq<char>) -> Seq<
    Seq<char>,
> {
    seq![
        legacy_group_dir(mount, prefix, "pids"@, id),
        legacy_group_dir(mount, prefix, "memory"@, id),
        legacy_group_dir(mount, prefix, "cpuacct"@, id),
    ]
}

/// The number that a counter file holds: its text without the blanks
/// around it, read as a decimal number.
pub open spec fn counter_value(text: Seq<char>) -> Option<u64> {
    parse_u64_spec(trim(text))
}

/// Reads a counter file.
pub fn read_counter(text: &str) -> (r: Option<u64>)
    ensures
        r == counter_value(text@),
{
    let trimmed = trim_chars(&chars_of(text));
    parse_u64(&trimmed)
}

/// The file `name` in the directory `dir`.
pub fn file_in(dir: &str, name: &str) -> (r: String)
    ensures
        r@ == path_push(dir@, name@),
{
    let mut p = chars_of(dir);
    push_component(&mut p, &chars_of(name));
    string_of(&p)
}

impl CgroupV1 {
    /// The directory of the group `cgroup_id` in the hierarchy of the
    /// controller `subsys_name`.
    pub fn get_path_for_cgroup_legacy_subsystem(&self, subsys_name: &str, cgroup_id: &str) -> (r:
        String)
        ensures
            r@ == legacy_group_dir(
                self.cgroupfs_path@,
                string_views(self.cgroup_prefix@),
                subsys_name@,
                cgroup_id@,
            ),
    {
        let mut p = chars_of(self.cgroupfs_path.as_str());
        push_component(&mut p, &chars_of(subsys_name));
        let mut prefix: Vec<Vec<char>> = Vec::new();
        let mut i: usize = 0;
        while i < self.cgroup_prefix.len()
            invariant
                i <= self.cgroup_prefix.len(),
                views(prefix@) == string_views(self.cgroup_prefix@).take(i as int),
            decreases self.cgroup_prefix.len() - i,
        {
            let ghost before = views(prefix@);
            let comp = chars_of(self.cgroup_prefix[i].as_str());
            prefix.push(comp);
            assert(views(prefix@) == before.push(comp@));
            assert(string_views(self.cgroup_prefix@).take(i + 1) == string_views(
                self.cgroup_prefix@,
            ).take(i as int).push(self.cgroup_prefix@[i as int]@));
            i += 1;
        }
        assert(string_views(self.cgroup_prefix@).take(self.cgroup_prefix.len() as int)
            == string_views(self.cgroup_prefix@));
        push_components(&mut p, &prefix);
        let mut name = chars_of("sandbox.");
        let mut id = chars_of(cgroup_id);
        name.append(&mut id);
        push_component(&mut p, &name);
        string_of(&p)
    }

    /// Plans the preparation of the group `group_id` with `limits`.
    pub fn create_group(&self, group_id: &str, limits: &ResourceLimits) -> (ops: Vec<GroupOp>)
        ensures
            op_views(ops@) == v1_create_plan(
                self.cgroupfs_path@,
                string_views(self.cgroup_prefix@),
                group_id@,
                *limits,
            ),
    {
        let cpuacct = self.get_path_for_cgroup_legacy_subsystem("cpuacct", group_id);
        let pids = self.get_path_for_cgroup_legacy_subsystem("pids", group_id);
        let memory = self.get_path_for_cgroup_legacy_subsystem("memory", group_id);
        let mut ops: Vec<GroupOp> = Vec::new();
        assert(op_views(ops@) =~= Seq::<GroupOpView>::empty());
        let cpuacct_tasks = file_in(cpuacct.as_str(), "tasks");
        let memory_tasks = file_in(memory.as_str(), "tasks");
        let pids_tasks = file_in(pids.as_str(), "tasks");
        let pids_max = file_in(pids.as_str(), "pids.max");
        let swappiness = file_in(memory.as_str(), "memory.swappiness");
        let limit_in_bytes = file_in(memory.as_str(), "memory.limit_in_bytes");
        push_op(&mut ops, GroupOp::CreateDir { path: cpuacct });
        push_op(&mut ops, GroupOp::CreateDir { path: pids });
        push_op(
            &mut ops,
            GroupOp::Write { path: pids_max, data: format_u64(limits.pids_max as u64) },
        );
        push_op(&mut ops, GroupOp::CreateDir { path: memory });
        push_op(&mut ops, GroupOp::Write { path: swappiness, data: format_u64(0) });
        push_op(
            &mut ops,
            GroupOp::Write { path: limit_in_bytes, data: format_u64(limits.memory_max) },
        );
        push_op(&mut ops, GroupOp::OpenHandle { path: cpuacct_tasks });
        push_op(&mut ops, GroupOp::OpenHandle { path: memory_tasks });
        push_op(&mut ops, GroupOp::OpenHandle { path: pids_tasks });
        assert(op_views(ops@) =~= v1_create_plan(
            self.cgroupfs_path@,
            string_views(self.cgroup_prefix@),
            group_id@,
            *limits,
        ));
        ops
    }

    /// The directories to remove to delete the group `group_id`, in
    /// order. A directory that cannot be removed is passed over.
    pub fn delete_group(&self, group_id: &str) -> (dirs: Vec<String>)
        ensures
            string_views(dirs@) == v1_group_dirs(
                self.cgroupfs_path@,
                string_views(self.cgroup_prefix@),
                group_id@,
            ),
    {
        let mut dirs: Vec<String> = Vec::new();
        dirs.push(self.get_path_for_cgroup_legacy_subsystem("pids", group_id));
        dirs.push(self.get_path_for_cgroup_legacy_subsystem("memory", group_id));
        dirs.push(self.get_path_for_cgroup_legacy_subsystem("cpuacct", group_id));
        assert(string_views(dirs@) =~= v1_group_dirs(
            self.cgroupfs_path@,
            string_views(self.cgroup_prefix@),
            group_id@,
        ));
        dirs
    }

    /// The file that counts the CPU time of the group, in nanoseconds.
    pub fn cpu_usage_file(&self, group_id: &str) -> (r: String)
        ensures
            r@ == path_push(
                legacy_group_dir(
                    self.cgroupfs_path@,
                    string_views(self.cgroup_prefix@),
                    "cpuacct"@,
                    group_id@,
                ),
                "cpuacct.usage"@,
            ),
    {
        let dir = self.get_path_for_cgroup_legacy_subsystem("cpuacct", group_id);
        file_in(dir.as_str(), "cpuacct.usage")
    }

    /// The file that holds the largest memory use of the group, in bytes.
    pub fn memory_usage_file(&self, group_id: &str) -> (r: String)
        ensures
            r@ == path_push(
                legacy_group_dir(
                    self.cgroupfs_path@,
                    string_views(self.cgroup_prefix@),
                    "memory"@,
                    group_id@,
                ),
                "memory.max_usage_in_bytes"@,
            ),
    {
        let dir = self.get_path_for_cgroup_legacy_subsystem("memory", group_id);
        file_in(dir.as_str(), "memory.max_usage_in_bytes")
    }

    /// What the group used, from the text of its two counter files.
    /// Nothing where a file does not hold a number.
    pub fn resource_usage(cpu_usage: &str, memory_usage: &str) -> (r: Option<
        InternalResourceUsageData,
    >)
        ensures
            r == match (counter_value(cpu_usage@), counter_value(memory_usage@)) {
                (Some(time), Some(memory)) => Some(
                    InternalResourceUsageData { time, memory: Some(memory) },
                ),
                _ => None,
            },
    {
        match (read_counter(cpu_usage), read_counter(memory_usage)) {
            (Some(time), Some(memory)) => Some(
                InternalResourceUsageData { time, memory: Some(memory) },
            ),
            _ => None,
        }
    }
}

} // verus!
