//! The driver that needs no cgroups: each process limits itself before it
//! becomes the job, and the zygote measures.
use crate::linux::error::PrlimitError;
use crate::linux::jail_common::ResourceUsageInformation;
use crate::linux::limits::{InternalResourceUsageData, ResourceLimits};
use vstd::prelude::*;

verus! {

/// Nanoseconds in a second.
pub const NANOS_PER_SEC: u64 = 1_000_000_000;

/// The limits that a process sets on itself.
#[derive(Debug, Clone, Copy, PartialEq, Eq, Structural)]
pub struct RlimitPlan {
    /// Limit on the data segment, in bytes.
    pub data: u64,
    /// Limit on the number of threads of the user.
    pub nproc: u64,
    /// Limit on CPU time, in seconds.
    pub cpu: u64,
}

/// The least number of whole seconds that holds `nanos` nanoseconds.
pub open spec fn whole_seconds(nanos: u64) -> u64 {
    if nanos == 0 {
        0
    } else {
        ((nanos - 1) / 1_000_000_000 + 1) as u64
    }
}

/// Rounding up is exact: the seconds hold the nanoseconds, and one
/// second less would not.
pub proof fn lemma_whole_seconds(nanos: u64)
    ensures
        whole_seconds(nanos) * 1_000_000_000 >= nanos,
        nanos > 0 ==> (whole_seconds(nanos) - 1) * 1_000_000_000 < nanos,
{
}

/// The handle with which a process takes the limits of a group upon
/// itself.
#[derive(Debug, Clone, Copy, PartialEq, Eq, Structural)]
pub struct PrlimitEnter {
    pub limits: ResourceLimits,
}

impl PrlimitEnter {
    /// The limits that the process sets, each as both the soft and the
    /// hard limit: memory on the data segment, the number of processes
    /// on the number of threads, and CPU time rounded up to whole
    /// seconds.
    pub fn join(&self) -> (r: RlimitPlan)
        ensures
            r.data == self.limits.memory_max,
            r.nproc == self.limits.pids_max,
            r.cpu == whole_seconds(self.limits.cpu_usage),
    {
        let cpu = if self.limits.cpu_usage == 0 {
            0
        } else {
            (self.limits.cpu_usage - 1) / NANOS_PER_SEC + 1
        };
        RlimitPlan { data: self.limits.memory_max, nproc: self.limits.pids_max as u64, cpu }
    }
}

/// The groups of the driver.
#[derive(Debug)]
pub struct Prlimit {
    groups: Vec<String>,
    with_zygote: Vec<String>,
    allow_multiple_processes: bool,
}

/// The texts that a list of strings holds.
pub open spec fn string_set(strings: Seq<String>) -> Set<Seq<char>> {
    Set::new(|s: Seq<char>| exists|i: int| 0 <= i < strings.len() && (#[trigger] strings[i])@ == s)
}

/// Whether `id` is one of `strings`.
fn holds(strings: &Vec<String>, id: &String) -> (r: bool)
    ensures
        r == string_set(strings@).contains(id@),
{
    let mut i: usize = 0;
    while i < strings.len()
        invariant
            i <= strings.len(),
            forall|j: int| 0 <= j < i ==> (#[trigger] strings@[j])@ != id@,
        decreases strings.len() - i,
    {
        if strings[i] == *id {
            return true;
        }
        i += 1;
    }
    false
}

/// Takes every occurrence of `id` out of `strings`.
fn take_out(strings: &mut Vec<String>, id: &String)
    ensures
        string_set(final(strings)@) == string_set(old(strings)@).remove(id@),
{
    let mut kept: Vec<String> = Vec::new();
    let mut i: usize = 0;
    while i < strings.len()
        invariant
            i <= strings.len(),
            strings == old(strings),
            forall|j: int| 0 <= j < kept@.len() ==> (#[trigger] kept@[j])@ != id@,
            forall|j: int|
                0 <= j < kept@.len() ==> string_set(strings@).contains((#[trigger] kept@[j])@),
            forall|j: int|
                0 <= j < i && strings@[j]@ != id@ ==> string_set(kept@).contains(
                    (#[trigger] strings@[j])@,
                ),
        decreases strings.len() - i,
    {
        if strings[i] != *id {
            let ghost before = kept@;
            let s = strings[i].clone();
            kept.push(s);
            assert forall|j: int| 0 <= j < i + 1 && strings@[j]@ != id@ implies string_set(
                kept@,
            ).contains((#[trigger] strings@[j])@) by {
                if j < i {
                    let k = choose|k: int|
                        0 <= k < before.len() && (#[trigger] before[k])@ == strings@[j]@;
                    assert(kept@[k] == before[k]);
                } else {
                    assert(kept@[kept@.len() - 1]@ == strings@[j]@);
                }
            }
        }
        i += 1;
    }
    *strings = kept;
    assert(string_set(strings@) =~= string_set(old(strings)@).remove(id@));
}

impl Prlimit {
    /// The groups that exist.
    pub closed spec fn groups(&self) -> Set<Seq<char>> {
        string_set(self.groups@)
    }

    /// The groups whose zygote is known.
    pub closed spec fn groups_with_zygote(&self) -> Set<Seq<char>> {
        string_set(self.with_zygote@)
    }

    /// Whether a group may hold more than one process.
    pub closed spec fn allows_multiple_processes(&self) -> bool {
        self.allow_multiple_processes
    }

    /// A driver without groups.
    pub fn new(allow_multiple_processes: bool) -> (r: Prlimit)
        ensures
            r.groups() == Set::<Seq<char>>::empty(),
            r.groups_with_zygote() == Set::<Seq<char>>::empty(),
            r.allows_multiple_processes() == allow_multiple_processes,
    {
        let r = Prlimit { groups: Vec::new(), with_zygote: Vec::new(), allow_multiple_processes };
        assert(r.groups() =~= Set::<Seq<char>>::empty());
        assert(r.groups_with_zygote() =~= Set::<Seq<char>>::empty());
        r
    }

    /// Whether the driver can enforce `limits`: more than one process
    /// can only be allowed where it may.
    pub fn check_limits(&self, limits: &ResourceLimits) -> (r: Result<(), PrlimitError>)
        ensures
            limits.pids_max > 1 && !self.allows_multiple_processes() ==> r matches Err(
                PrlimitError::PidsLimitEnforcementImpossible,
            ),
            !(limits.pids_max > 1 && !self.allows_multiple_processes()) ==> r is Ok,
    {
        if limits.pids_max > 1 && !self.allow_multiple_processes {
            Err(PrlimitError::PidsLimitEnforcementImpossible)
        } else {
            Ok(())
        }
    }

    /// Whether the group `group_id` exists.
    pub fn has_group(&self, group_id: &String) -> (r: bool)
        ensures
            r == self.groups().contains(group_id@),
    {
        holds(&self.groups, group_id)
    }

    /// Whether the zygote of the group `group_id` is known.
    pub fn has_zygote(&self, group_id: &String) -> (r: bool)
        ensures
            r == self.groups_with_zygote().contains(group_id@),
    {
        holds(&self.with_zygote, group_id)
    }

    /// Makes the group `group_id`, whose processes will take `limits`
    /// upon themselves. The zygote of the group is not known yet.
    ///
    /// More than one process can only be allowed where the driver can
    /// enforce it; otherwise the request is refused and nothing changes.
    pub fn create_group(&mut self, group_id: &String, limits: &ResourceLimits) -> (r: Result<
        PrlimitEnter,
        PrlimitError,
    >)
        ensures
            final(self).allows_multiple_processes() == old(self).allows_multiple_processes(),
            limits.pids_max > 1 && !old(self).allows_multiple_processes() ==> {
                &&& r matches Err(PrlimitError::PidsLimitEnforcementImpossible)
                &&& final(self).groups() == old(self).groups()
                &&& final(self).groups_with_zygote() == old(self).groups_with_zygote()
            },
            !(limits.pids_max > 1 && !old(self).allows_multiple_processes()) ==> {
                &&& r == Ok::<PrlimitEnter, PrlimitError>(PrlimitEnter { limits: *limits })
                &&& final(self).groups() == old(self).groups().insert(group_id@)
                &&& final(self).groups_with_zygote() == old(self).groups_with_zygote().remove(
                    group_id@,
                )
            },
    {
        match self.check_limits(limits) {
            Err(e) => {
                return Err(e);
            },
            Ok(()) => {},
        }
        take_out(&mut self.with_zygote, group_id);
        if !holds(&self.groups, group_id) {
            let ghost before = self.groups@;
            let s = group_id.clone();
            self.groups.push(s);
            assert(string_set(self.groups@) =~= string_set(before).insert(group_id@)) by {
                assert(self.groups@[before.len() as int]@ == group_id@);
                assert forall|t: Seq<char>| string_set(before).contains(t) implies string_set(
                    self.groups@,
                ).contains(t) by {
                    let k = choose|k: int| 0 <= k < before.len() && (#[trigger] before[k])@ == t;
                    assert(self.groups@[k] == before[k]);
                }
            }
        } else {
            assert(self.groups() =~= old(self).groups().insert(group_id@));
        }
        Ok(PrlimitEnter { limits: *limits })
    }

    /// Forgets the group `group_id`. Tells whether it existed.
    pub fn delete_group(&mut self, group_id: &String) -> (existed: bool)
        ensures
            existed == old(self).groups().contains(group_id@),
            final(self).groups() == old(self).groups().remove(group_id@),
            final(self).groups_with_zygote() == old(self).groups_with_zygote().remove(group_id@),
            final(self).allows_multiple_processes() == old(self).allows_multiple_processes(),
    {
        let existed = holds(&self.groups, group_id);
        take_out(&mut self.groups, group_id);
        take_out(&mut self.with_zygote, group_id);
        existed
    }

    /// Notes that the zygote of the group `group_id` is known, so that
    /// the use of the group can be asked for. Refuses, and changes
    /// nothing, for a group that does not exist.
    pub fn register_group_details(&mut self, group_id: &String) -> (known: bool)
        ensures
            known == old(self).groups().contains(group_id@),
            final(self).groups() == old(self).groups(),
            final(self).allows_multiple_processes() == old(self).allows_multiple_processes(),
            final(self).groups_with_zygote() == if known {
                old(self).groups_with_zygote().insert(group_id@)
            } else {
                old(self).groups_with_zygote()
            },
    {
        if !holds(&self.groups, group_id) {
            return false;
        }
        let ghost before = self.with_zygote@;
        let s = group_id.clone();
        self.with_zygote.push(s);
        assert(string_set(self.with_zygote@) =~= string_set(before).insert(group_id@)) by {
            assert(self.with_zygote@[before.len() as int]@ == group_id@);
            assert forall|t: Seq<char>| string_set(before).contains(t) implies string_set(
                self.with_zygote@,
            ).contains(t) by {
                let k = choose|k: int| 0 <= k < before.len() && (#[trigger] before[k])@ == t;
                assert(self.with_zygote@[k] == before[k]);
            }
        }
        true
    }

    /// What a group used, from the answer of its zygote: nothing came
    /// back where the sandbox is gone.
    pub fn resource_usage(answer: Option<ResourceUsageInformation>) -> (r: Result<
        InternalResourceUsageData,
        PrlimitError,
    >)
        ensures
            match answer {
                Some(info) => r == Ok::<InternalResourceUsageData, PrlimitError>(
                    InternalResourceUsageData { time: info.cpu, memory: Some(info.memory) },
                ),
                None => r matches Err(PrlimitError::SandboxGone),
            },
    {
        match answer {
            Some(info) => Ok(
                InternalResourceUsageData { time: info.cpu, memory: Some(info.memory) },
            ),
            None => Err(PrlimitError::SandboxGone),
        }
    }
}

} // verus!
