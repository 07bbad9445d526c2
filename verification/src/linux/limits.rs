//! Resource limits: one interface over three drivers, and the choice of
//! the driver.
use crate::decimal::decimal;
use crate::linux::error::{CgroupError, DriverError, Error, PrlimitError};
use crate::linux::jail_common::ResourceUsageInformation;
use crate::linux::limits::cgroup_common::{enter_fds, op_views, CgroupEnter, GroupOp};
use crate::linux::limits::cgroup_v1::{
    counter_value, legacy_group_dir, v1_create_plan, v1_group_dirs, CgroupV1,
};
use crate::linux::limits::cgroup_v2::{
    unified_group_dir, usage_of_lines, v2_create_plan, CgroupV2,
};
use crate::linux::limits::prlimit::{whole_seconds, Prlimit, PrlimitEnter, RlimitPlan};
use crate::linux::Settings;
use crate::path::{normal_components, normal_components_of, path_push};
use crate::text::{chars_of, lines, string_of, string_views, strings_of};
use rand::Rng;
use vstd::prelude::*;

pub mod cgroup_common;
pub mod cgroup_v1;
pub mod cgroup_v2;
pub mod prlimit;

verus! {

/// What a group used. Unlike `ResourceUsageData`, the time is always
/// there.
#[derive(Debug, Copy, Clone, PartialEq, Eq, Structural)]
pub struct InternalResourceUsageData {
    /// CPU time, in nanoseconds.
    pub time: u64,
    /// Largest memory use in bytes, where the driver can tell.
    pub memory: Option<u64>,
}

/// The resource limits imposed on a sandbox.
#[derive(Debug, Copy, Clone, PartialEq, Eq, Structural)]
pub struct ResourceLimits {
    pub pids_max: u32,
    pub memory_max: u64,
    /// CPU time, in nanoseconds.
    pub cpu_usage: u64,
}

/// A way to enforce resource limits, as the settings name it.
#[derive(Debug, Copy, Clone, PartialEq, Eq, Structural)]
pub enum ResourceDriverKind {
    CgroupV1,
    CgroupV2,
    /// Version 1 cgroups, then version 2.
    CgroupAuto,
    Prlimit,
    /// Cgroups of either version, then per-process limits if the less
    /// reliable driver is allowed.
    Auto { allow_dangerous: bool },
}

/// The version of the cgroup file system.
#[derive(Debug, Copy, Clone, PartialEq, Eq, Structural)]
pub enum CgroupVersion {
    /// Legacy
    V1,
    /// Unified
    V2,
}

/// The arguments from which one driver is made.
#[derive(Debug)]
pub enum RawSettings {
    Cgroup { prefix: String, mount: String, version: CgroupVersion },
    Prlimit { allow_many_pids: bool },
}

/// What a `RawSettings` holds, as mathematical values.
pub ghost enum RawSettingsView {
    Cgroup { prefix: Seq<char>, mount: Seq<char>, version: CgroupVersion },
    Prlimit { allow_many_pids: bool },
}

impl View for RawSettings {
    type V = RawSettingsView;

    open spec fn view(&self) -> RawSettingsView {
        match self {
            RawSettings::Cgroup { prefix, mount, version } => RawSettingsView::Cgroup {
                prefix: prefix@,
                mount: mount@,
                version: *version,
            },
            RawSettings::Prlimit { allow_many_pids } => RawSettingsView::Prlimit {
                allow_many_pids: *allow_many_pids,
            },
        }
    }
}

/// The views of a list of raw settings.
pub open spec fn raw_views(all: Seq<RawSettings>) -> Seq<RawSettingsView> {
    all.map_values(|raw: RawSettings| raw@)
}

/// Raw settings, as they appear in the report of a failed choice.
#[derive(Debug)]
pub struct RawSettingsWrapper(pub RawSettings);

/// No driver could be used. Each attempt is listed with what it failed
/// on, in the order of the attempts.
#[derive(Debug)]
pub struct DriverInitializationError {
    pub attempts: Vec<(RawSettingsWrapper, Error)>,
}

/// The drivers to try for one kind, in order.
pub open spec fn expand_kind(
    prefix: Seq<char>,
    mount: Seq<char>,
    rootless: bool,
    kind: ResourceDriverKind,
) -> Seq<RawSettingsView> {
    let v1 = RawSettingsView::Cgroup { prefix, mount, version: CgroupVersion::V1 };
    let v2 = RawSettingsView::Cgroup { prefix, mount, version: CgroupVersion::V2 };
    let prlimit = RawSettingsView::Prlimit { allow_many_pids: !rootless };
    match kind {
        ResourceDriverKind::CgroupV1 => seq![v1],
        ResourceDriverKind::CgroupV2 => seq![v2],
        ResourceDriverKind::CgroupAuto => seq![v1, v2],
        ResourceDriverKind::Prlimit => seq![prlimit],
        ResourceDriverKind::Auto { allow_dangerous } => if allow_dangerous {
            seq![v1, v2, prlimit]
        } else {
            seq![v1, v2]
        },
    }
}

/// The drivers to try for a list of kinds: those of each kind, in the
/// order of the kinds.
pub open spec fn expand_kinds(
    prefix: Seq<char>,
    mount: Seq<char>,
    rootless: bool,
    kinds: Seq<ResourceDriverKind>,
) -> Seq<RawSettingsView>
    decreases kinds.len(),
{
    if kinds.len() == 0 {
        Seq::<RawSettingsView>::empty()
    } else {
        expand_kinds(prefix, mount, rootless, kinds.drop_last()) + expand_kind(
            prefix,
            mount,
            rootless,
            kinds.last(),
        )
    }
}

fn push_cgroup(settings: &Settings, out: &mut Vec<RawSettings>, version: CgroupVersion)
    ensures
        raw_views(final(out)@) == raw_views(old(out)@).push(
            RawSettingsView::Cgroup {
                prefix: settings.cgroup.name_prefix@,
                mount: settings.cgroup.mount@,
                version,
            },
        ),
{
    let raw = RawSettings::Cgroup {
        prefix: settings.cgroup.name_prefix.clone(),
        mount: settings.cgroup.mount.clone(),
        version,
    };
    out.push(raw);
    assert(raw_views(out@) =~= raw_views(old(out)@).push(raw@));
}

fn push_prlimit(settings: &Settings, out: &mut Vec<RawSettings>)
    ensures
        raw_views(final(out)@) == raw_views(old(out)@).push(
            RawSettingsView::Prlimit { allow_many_pids: !settings.rootless },
        ),
{
    let raw = RawSettings::Prlimit { allow_many_pids: !settings.rootless };
    out.push(raw);
    assert(raw_views(out@) =~= raw_views(old(out)@).push(raw@));
}

/// Appends to `out` the drivers to try for `kind`.
pub fn process_driver_kind(
    settings: &Settings,
    out: &mut Vec<RawSettings>,
    kind: &ResourceDriverKind,
)
    ensures
        raw_views(final(out)@) == raw_views(old(out)@) + expand_kind(
            settings.cgroup.name_prefix@,
            settings.cgroup.mount@,
            settings.rootless,
            *kind,
        ),
{
    match kind {
        ResourceDriverKind::CgroupV1 => {
            push_cgroup(settings, out, CgroupVersion::V1);
        },
        ResourceDriverKind::CgroupV2 => {
            push_cgroup(settings, out, CgroupVersion::V2);
        },
        ResourceDriverKind::CgroupAuto => {
            push_cgroup(settings, out, CgroupVersion::V1);
            push_cgroup(settings, out, CgroupVersion::V2);
        },
        ResourceDriverKind::Prlimit => {
            push_prlimit(settings, out);
        },
        ResourceDriverKind::Auto { allow_dangerous } => {
            push_cgroup(settings, out, CgroupVersion::V1);
            push_cgroup(settings, out, CgroupVersion::V2);
            if *allow_dangerous {
                push_prlimit(settings, out);
            }
        },
    }
    assert(raw_views(out@) =~= raw_views(old(out)@) + expand_kind(
        settings.cgroup.name_prefix@,
        settings.cgroup.mount@,
        settings.rootless,
        *kind,
    ));
}

/// The drivers to try for `settings`, in the order in which they are
/// tried.
pub fn driver_candidates(settings: &Settings) -> (configs: Vec<RawSettings>)
    ensures
        raw_views(configs@) == expand_kinds(
            settings.cgroup.name_prefix@,
            settings.cgroup.mount@,
            settings.rootless,
            settings.resource_drivers@,
        ),
{
    let mut configs: Vec<RawSettings> = Vec::new();
    let mut i: usize = 0;
    assert(settings.resource_drivers@.take(0) == Seq::<ResourceDriverKind>::empty());
    assert(raw_views(configs@) =~= Seq::<RawSettingsView>::empty());
    while i < settings.resource_drivers.len()
        invariant
            i <= settings.resource_drivers.len(),
            raw_views(configs@) == expand_kinds(
                settings.cgroup.name_prefix@,
                settings.cgroup.mount@,
                settings.rootless,
                settings.resource_drivers@.take(i as int),
            ),
        decreases settings.resource_drivers.len() - i,
    {
        assert(settings.resource_drivers@.take(i + 1).drop_last()
            == settings.resource_drivers@.take(i as int));
        process_driver_kind(settings, &mut configs, &settings.resource_drivers[i]);
        i += 1;
    }
    assert(settings.resource_drivers@.take(settings.resource_drivers.len() as int)
        == settings.resource_drivers@);
    configs
}

/// One of the three drivers.
#[derive(Debug)]
pub enum Inner {
    CgroupV1(cgroup_v1::CgroupV1),
    CgroupV2(cgroup_v2::CgroupV2),
    Prlimit(prlimit::Prlimit),
}

/// The resource driver of a backend.
#[derive(Debug)]
pub struct Driver {
    pub inner: Inner,
}

/// Whether `driver` is the one that `raw` asks for: of the version asked
/// for, mounted where asked, with the names of the prefix as its groups;
/// or the driver without cgroups, with no group yet.
pub open spec fn is_driver_for(driver: Driver, raw: RawSettingsView) -> bool {
    match raw {
        RawSettingsView::Cgroup { prefix, mount, version } => match version {
            CgroupVersion::V1 => {
                &&& driver.inner matches Inner::CgroupV1(d)
                &&& d.cgroupfs_path@ == mount
                &&& string_views(d.cgroup_prefix@) == normal_components(prefix)
            },
            CgroupVersion::V2 => {
                &&& driver.inner matches Inner::CgroupV2(d)
                &&& d.cgroupfs_path@ == mount
                &&& string_views(d.cgroup_prefix@) == normal_components(prefix)
            },
        },
        RawSettingsView::Prlimit { allow_many_pids } => {
            &&& driver.inner matches Inner::Prlimit(d)
            &&& d.allows_multiple_processes() == allow_many_pids
            &&& d.groups() == Set::<Seq<char>>::empty()
            &&& d.groups_with_zygote() == Set::<Seq<char>>::empty()
        },
    }
}

/// What is handed to the smoke check of a driver: the group to make and
/// the limits to give it.
#[derive(Debug)]
pub struct SmokeCheck {
    pub group_id: String,
    pub limits: ResourceLimits,
}

/// Whether `c` is an ASCII letter or digit.
pub open spec fn is_alphanumeric(c: char) -> bool {
    ('0' <= c <= '9') || ('a' <= c <= 'z') || ('A' <= c <= 'Z')
}

/// Whether `id` can name the group of a smoke check: a fixed beginning,
/// then five ASCII letters or digits.
pub open spec fn is_smoke_check_id(id: Seq<char>) -> bool {
    let head = "minion-cgroup-access-check-"@;
    &&& id.len() == head.len() + 5
    &&& id.take(head.len() as int) == head
    &&& forall|i: int| head.len() <= i < id.len() ==> is_alphanumeric(#[trigger] id[i])
}

/// An ASCII letter or digit, picked at random.
///
/// Wraps `rand::Rng::sample` with the distribution
/// `rand::distributions::Alphanumeric` on the generator of the thread,
/// which samples a byte among `A-Z`, `a-z` and `0-9`.
#[verifier::external_body]
fn sample_alphanumeric() -> (c: char)
    ensures
        is_alphanumeric(c),
{
    let mut rng = rand::thread_rng();
    char::from(rng.sample(rand::distributions::Alphanumeric))
}

/// Prepares the smoke check of a driver: a group under a name that is
/// most likely new, with limits that fit any system.
pub fn smoke_check() -> (r: SmokeCheck)
    ensures
        is_smoke_check_id(r.group_id@),
        r.limits == (ResourceLimits {
            memory_max: 0x4000_0000,
            pids_max: 1024,
            cpu_usage: 1_000_000_000,
        }),
{
    let mut id = chars_of("minion-cgroup-access-check-");
    let ghost head = id@;
    let mut i: usize = 0;
    while i < 5
        invariant
            i <= 5,
            head == "minion-cgroup-access-check-"@,
            id@.len() == head.len() + i,
            id@.take(head.len() as int) == head,
            forall|j: int| head.len() <= j < id@.len() ==> is_alphanumeric(#[trigger] id@[j]),
        decreases 5 - i,
    {
        let c = sample_alphanumeric();
        let ghost before = id@;
        id.push(c);
        assert(id@.take(head.len() as int) == before.take(head.len() as int));
        assert forall|j: int| head.len() <= j < id@.len() implies is_alphanumeric(
            #[trigger] id@[j],
        ) by {
            if j < before.len() {
                assert(id@[j] == before[j]);
            }
        }
        i += 1;
    }
    SmokeCheck {
        group_id: string_of(&id),
        limits: ResourceLimits {
            memory_max: 0x4000_0000,
            pids_max: 1024,
            cpu_usage: 1_000_000_000,
        },
    }
}

impl Driver {
    /// Makes the driver that `raw_settings` asks for. Of the prefix of a
    /// cgroup driver only the names count: `/a/./b/` is `a`, `b`.
    pub fn new_raw(raw_settings: &RawSettings) -> (r: Driver)
        ensures
            is_driver_for(r, raw_settings@),
    {
        let inner = match raw_settings {
            RawSettings::Cgroup { prefix, mount, version } => {
                let components = normal_components_of(&chars_of(prefix.as_str()));
                let cgroup_prefix = strings_of(&components);
                let cgroupfs_path = mount.clone();
                match version {
                    CgroupVersion::V1 => Inner::CgroupV1(
                        cgroup_v1::CgroupV1 { cgroupfs_path, cgroup_prefix },
                    ),
                    CgroupVersion::V2 => Inner::CgroupV2(
                        cgroup_v2::CgroupV2 { cgroupfs_path, cgroup_prefix },
                    ),
                }
            },
            RawSettings::Prlimit { allow_many_pids } => Inner::Prlimit(
                prlimit::Prlimit::new(*allow_many_pids),
            ),
        };
        Driver { inner }
    }

    /// Chooses the driver for `settings`: the first one, in the order of
    /// the settings, whose smoke check succeeds. Where none does, the
    /// error lists every driver with the failure of its smoke check.
    pub fn new<F: Fn(&Driver) -> Result<(), Error>>(settings: &Settings, smoke_check: F) -> (r:
        Result<Driver, Error>)
        requires
            forall|d: &Driver| smoke_check.requires((d,)),
        ensures
            match r {
                Ok(driver) => exists|i: int, errors: Seq<Error>|
                    #![trigger all_fail_before(smoke_check, candidates_of(settings), errors, i)]
                    {
                        &&& 0 <= i < candidates_of(settings).len()
                        &&& is_driver_for(driver, candidates_of(settings)[i])
                        &&& exists|passed: Result<(), Error>|
                            passed is Ok && #[trigger] smoke_check.ensures((&driver,), passed)
                        &&& all_fail_before(smoke_check, candidates_of(settings), errors, i)
                    },
                Err(Error::SelectDriverImpl { cause }) => {
                    &&& cause.attempts@.len() == candidates_of(settings).len()
                    &&& forall|i: int|
                        0 <= i < cause.attempts@.len() ==> {
                            &&& (#[trigger] cause.attempts@[i]).0.0@ == candidates_of(settings)[i]
                            &&& fails_with(
                                smoke_check,
                                candidates_of(settings)[i],
                                cause.attempts@[i].1,
                            )
                        }
                },
                Err(_) => false,
            },
    {
        let configs = driver_candidates(settings);
        let mut attempts: Vec<(RawSettingsWrapper, Error)> = Vec::new();
        let mut i: usize = 0;
        while i < configs.len()
            invariant
                i <= configs.len(),
                raw_views(configs@) == candidates_of(settings),
                attempts@.len() == i,
                forall|d: &Driver| smoke_check.requires((d,)),
                forall|j: int|
                    0 <= j < i ==> {
                        &&& (#[trigger] attempts@[j]).0.0@ == candidates_of(settings)[j]
                        &&& fails_with(smoke_check, candidates_of(settings)[j], attempts@[j].1)
                    },
            decreases configs.len() - i,
        {
            let driver = Self::new_raw(&configs[i]);
            assert(raw_views(configs@)[i as int] == configs@[i as int]@);
            let outcome = smoke_check(&driver);
            match outcome {
                Ok(()) => {
                    proof {
                        let cands = candidates_of(settings);
                        let w = i as int;
                        let errors = attempts@.map_values(|a: (RawSettingsWrapper, Error)| a.1);
                        assert(is_driver_for(driver, cands[w]));
                        assert(outcome is Ok && smoke_check.ensures((&driver,), outcome));
                        assert(all_fail_before(smoke_check, cands, errors, w));
                    }
                    return Ok(driver);
                },
                Err(e) => {
                    let ghost before = attempts@;
                    let config = configs[i].clone_settings();
                    assert(smoke_check.ensures((&driver,), Err(e)));
                    assert(fails_with(smoke_check, candidates_of(settings)[i as int], e));
                    attempts.push((RawSettingsWrapper(config), e));
                    assert forall|j: int| 0 <= j < i + 1 implies {
                        &&& (#[trigger] attempts@[j]).0.0@ == candidates_of(settings)[j]
                        &&& fails_with(smoke_check, candidates_of(settings)[j], attempts@[j].1)
                    } by {
                        if j < i {
                            assert(attempts@[j] == before[j]);
                        }
                    }
                },
            }
            i += 1;
        }
        Err(Error::SelectDriverImpl { cause: DriverInitializationError { attempts } })
    }

    /// Whether the sandboxes of the driver need a watchdog for their CPU
    /// time: the kernel watches it where each process limits itself.
    pub fn get_watchdog(&self) -> (r: bool)
        ensures
            r == !(self.inner is Prlimit),
    {
        match &self.inner {
            Inner::CgroupV1(_) => true,
            Inner::CgroupV2(_) => true,
            Inner::Prlimit(_) => false,
        }
    }
}

/// Whether the smoke check of a driver made for `raw` can fail with
/// `error`.
pub open spec fn fails_with<F: Fn(&Driver) -> Result<(), Error>>(
    smoke_check: F,
    raw: RawSettingsView,
    error: Error,
) -> bool {
    exists|d: Driver| is_driver_for(d, raw) && #[trigger] smoke_check.ensures((&d,), Err(error))
}

/// Whether the smoke check can fail for each of the first `i` of
/// `candidates`, with the error at the same place in `errors`.
pub open spec fn all_fail_before<F: Fn(&Driver) -> Result<(), Error>>(
    smoke_check: F,
    candidates: Seq<RawSettingsView>,
    errors: Seq<Error>,
    i: int,
) -> bool {
    &&& errors.len() == i
    &&& forall|j: int|
        #![trigger candidates[j]]
        0 <= j < i ==> fails_with(smoke_check, candidates[j], errors[j])
}

/// The drivers to try for `settings`, in order.
pub open spec fn candidates_of(settings: &Settings) -> Seq<RawSettingsView> {
    expand_kinds(
        settings.cgroup.name_prefix@,
        settings.cgroup.mount@,
        settings.rootless,
        settings.resource_drivers@,
    )
}

impl RawSettings {
    /// A copy of the settings.
    pub fn clone_settings(&self) -> (r: RawSettings)
        ensures
            r@ == self@,
    {
        match self {
            RawSettings::Cgroup { prefix, mount, version } => RawSettings::Cgroup {
                prefix: prefix.clone(),
                mount: mount.clone(),
                version: *version,
            },
            RawSettings::Prlimit { allow_many_pids } => RawSettings::Prlimit {
                allow_many_pids: *allow_many_pids,
            },
        }
    }
}

/// How the group of a sandbox is made.
#[derive(Debug)]
pub enum GroupPlan {
    /// By steps in the cgroup file system. The descriptors that the
    /// steps open make the handle of the group.
    Cgroup { version: CgroupVersion, ops: Vec<GroupOp> },
    /// By nothing: the group is a record of the driver, and its handle
    /// is ready.
    Prlimit(PrlimitEnter),
}

/// The number of descriptors that the steps open.
pub open spec fn handles_opened(ops: Seq<GroupOp>) -> nat
    decreases ops.len(),
{
    if ops.len() == 0 {
        0
    } else {
        handles_opened(ops.drop_last()) + if ops.last() is OpenHandle {
            1nat
        } else {
            0nat
        }
    }
}

/// What a process needs to join the group of a sandbox, whatever the
/// driver.
#[derive(Debug, Clone)]
pub enum OpaqueEnterHandleInner {
    Cgroup(CgroupEnter),
    Prlimit(PrlimitEnter),
}

/// The token with which a process joins the group of a sandbox.
#[derive(Debug, Clone)]
pub struct OpaqueEnterHandle(pub OpaqueEnterHandleInner);

/// What a process does to join a group.
#[derive(Debug)]
pub enum JoinPlan {
    /// It writes `payload` to each descriptor, in order, and gives up at
    /// the first failure.
    WritePid { fds: Vec<i32>, payload: String },
    /// It sets these limits on itself.
    SetLimits(RlimitPlan),
}

fn count_handles(ops: &Vec<GroupOp>) -> (r: usize)
    ensures
        r == handles_opened(ops@),
{
    let mut n: usize = 0;
    let mut i: usize = 0;
    assert(ops@.take(0) == Seq::<GroupOp>::empty());
    while i < ops.len()
        invariant
            i <= ops.len(),
            n <= i,
            n == handles_opened(ops@.take(i as int)),
        decreases ops.len() - i,
    {
        assert(ops@.take(i + 1).drop_last() == ops@.take(i as int));
        match &ops[i] {
            GroupOp::OpenHandle { .. } => {
                n += 1;
            },
            _ => {},
        }
        i += 1;
    }
    assert(ops@.take(ops.len() as int) == ops@);
    n
}

impl OpaqueEnterHandle {
    /// The handle of a group that was made as `plan` says, where the
    /// steps of the plan opened the descriptors `opened`, in order.
    /// Nothing where the descriptors are not as many as the plan opens:
    /// one for each hierarchy of version 1, one for version 2, none
    /// without cgroups.
    pub fn new(plan: GroupPlan, opened: Vec<i32>) -> (r: Option<OpaqueEnterHandle>)
        ensures
            match plan {
                GroupPlan::Cgroup { version: CgroupVersion::V1, ops } => if opened@.len()
                    == handles_opened(ops@) {
                    r matches Some(OpaqueEnterHandle(
                        OpaqueEnterHandleInner::Cgroup(CgroupEnter::V1(fds)),
                    )) && fds == opened
                } else {
                    r is None
                },
                GroupPlan::Cgroup { version: CgroupVersion::V2, ops } => if opened@.len()
                    == handles_opened(ops@) && opened@.len() == 1 {
                    r matches Some(OpaqueEnterHandle(
                        OpaqueEnterHandleInner::Cgroup(CgroupEnter::V2(fd)),
                    )) && fd == opened@[0]
                } else {
                    r is None
                },
                GroupPlan::Prlimit(enter) => if opened@.len() == 0 {
                    r matches Some(OpaqueEnterHandle(OpaqueEnterHandleInner::Prlimit(e))) && e
                        == enter
                } else {
                    r is None
                },
            },
    {
        match plan {
            GroupPlan::Cgroup { version, ops } => {
                if opened.len() != count_handles(&ops) {
                    return None;
                }
                match version {
                    CgroupVersion::V1 => Some(
                        OpaqueEnterHandle(OpaqueEnterHandleInner::Cgroup(CgroupEnter::V1(opened))),
                    ),
                    CgroupVersion::V2 => {
                        if opened.len() != 1 {
                            return None;
                        }
                        Some(
                            OpaqueEnterHandle(
                                OpaqueEnterHandleInner::Cgroup(CgroupEnter::V2(opened[0])),
                            ),
                        )
                    },
                }
            },
            GroupPlan::Prlimit(enter) => {
                if opened.len() != 0 {
                    return None;
                }
                Some(OpaqueEnterHandle(OpaqueEnterHandleInner::Prlimit(enter)))
            },
        }
    }

    /// What the process `pid` does to join the group: it writes its pid
    /// to the descriptors of a cgroup, or limits itself.
    pub fn join(&self, pid: u32) -> (r: JoinPlan)
        ensures
            match self.0 {
                OpaqueEnterHandleInner::Cgroup(enter) => {
                    &&& r matches JoinPlan::WritePid { fds, payload }
                    &&& fds@ == enter_fds(enter)
                    &&& payload@ == decimal(pid as nat)
                },
                OpaqueEnterHandleInner::Prlimit(enter) => r == JoinPlan::SetLimits(
                    RlimitPlan {
                        data: enter.limits.memory_max,
                        nproc: enter.limits.pids_max as u64,
                        cpu: whole_seconds(enter.limits.cpu_usage),
                    },
                ),
            },
    {
        match &self.0 {
            OpaqueEnterHandleInner::Cgroup(enter) => JoinPlan::WritePid {
                fds: enter.fds(),
                payload: CgroupEnter::join_payload(pid),
            },
            OpaqueEnterHandleInner::Prlimit(enter) => JoinPlan::SetLimits(enter.join()),
        }
    }

    /// The descriptors to write nothing to, to check that the group can
    /// be joined. There is nothing to check without cgroups.
    pub fn check_access(&self) -> (r: Vec<i32>)
        ensures
            r@ == match self.0 {
                OpaqueEnterHandleInner::Cgroup(enter) => enter_fds(enter),
                OpaqueEnterHandleInner::Prlimit(_) => Seq::<i32>::empty(),
            },
    {
        match &self.0 {
            OpaqueEnterHandleInner::Cgroup(enter) => enter.fds(),
            OpaqueEnterHandleInner::Prlimit(_) => Vec::new(),
        }
    }
}

/// What is to be read to learn what a group used.
#[derive(Debug)]
pub struct UsageRequest {
    /// The files to read, in order.
    pub files: Vec<String>,
    /// Whether the zygote of the group is to be asked.
    pub ask_zygote: bool,
}

/// What was read to learn what a group used.
#[derive(Debug)]
pub struct UsageReading {
    /// The text of each file asked for, in order.
    pub files: Vec<String>,
    /// The answer of the zygote, where it was asked and is still there.
    pub zygote: Option<ResourceUsageInformation>,
}

/// What a group used according to `reading`, if the reading is what the
/// driver asked for and can be understood.
pub open spec fn usage_of(driver: Driver, reading: UsageReading) -> Option<
    InternalResourceUsageData,
> {
    match driver.inner {
        Inner::CgroupV1(_) => if reading.files@.len() == 2 {
            match (counter_value(reading.files@[0]@), counter_value(reading.files@[1]@)) {
                (Some(time), Some(memory)) => Some(
                    InternalResourceUsageData { time, memory: Some(memory) },
                ),
                _ => None,
            }
        } else {
            None
        },
        Inner::CgroupV2(_) => if reading.files@.len() == 1 {
            Some(
                InternalResourceUsageData {
                    time: usage_of_lines(lines(reading.files@[0]@)),
                    memory: None,
                },
            )
        } else {
            None
        },
        Inner::Prlimit(_) => match reading.zygote {
            Some(info) => Some(
                InternalResourceUsageData { time: info.cpu, memory: Some(info.memory) },
            ),
            None => None,
        },
    }
}

impl Driver {
    /// Plans the group `group_id` with `limits`. The cgroup drivers plan
    /// steps in the file system and stay as they are; the driver without
    /// cgroups notes the group, or refuses limits that it cannot
    /// enforce.
    pub fn create_group(&mut self, group_id: &str, limits: &ResourceLimits) -> (r: Result<
        GroupPlan,
        DriverError,
    >)
        ensures
            match (old(self).inner, final(self).inner) {
                (Inner::CgroupV1(d), Inner::CgroupV1(after)) => {
                    &&& after == d
                    &&& r matches Ok(GroupPlan::Cgroup { version: CgroupVersion::V1, ops })
                    &&& op_views(ops@) == v1_create_plan(
                        d.cgroupfs_path@,
                        string_views(d.cgroup_prefix@),
                        group_id@,
                        *limits,
                    )
                },
                (Inner::CgroupV2(d), Inner::CgroupV2(after)) => {
                    &&& after == d
                    &&& r matches Ok(GroupPlan::Cgroup { version: CgroupVersion::V2, ops })
                    &&& op_views(ops@) == v2_create_plan(
                        d.cgroupfs_path@,
                        string_views(d.cgroup_prefix@),
                        group_id@,
                        *limits,
                    )
                },
                (Inner::Prlimit(d), Inner::Prlimit(after)) => {
                    &&& after.allows_multiple_processes() == d.allows_multiple_processes()
                    &&& if limits.pids_max > 1 && !d.allows_multiple_processes() {
                        &&& r matches Err(
                            DriverError::Prlimit(PrlimitError::PidsLimitEnforcementImpossible),
                        )
                        &&& after.groups() == d.groups()
                        &&& after.groups_with_zygote() == d.groups_with_zygote()
                    } else {
                        &&& r matches Ok(GroupPlan::Prlimit(enter))
                        &&& enter == (PrlimitEnter { limits: *limits })
                        &&& after.groups() == d.groups().insert(group_id@)
                        &&& after.groups_with_zygote() == d.groups_with_zygote().remove(group_id@)
                    }
                },
                _ => false,
            },
    {
        match &mut self.inner {
            Inner::CgroupV1(inner) => Ok(
                GroupPlan::Cgroup {
                    version: CgroupVersion::V1,
                    ops: inner.create_group(group_id, limits),
                },
            ),
            Inner::CgroupV2(inner) => Ok(
                GroupPlan::Cgroup {
                    version: CgroupVersion::V2,
                    ops: inner.create_group(group_id, limits),
                },
            ),
            Inner::Prlimit(inner) => {
                let id = group_id.to_owned();
                match inner.create_group(&id, limits) {
                    Ok(enter) => Ok(GroupPlan::Prlimit(enter)),
                    Err(e) => Err(DriverError::Prlimit(e)),
                }
            },
        }
    }

    /// Plans the group of a smoke check. The driver stays as it is: the
    /// driver without cgroups only tells whether it could enforce the
    /// limits.
    pub fn smoke_plan(&self, check: &SmokeCheck) -> (r: Result<GroupPlan, DriverError>)
        ensures
            match self.inner {
                Inner::CgroupV1(d) => {
                    &&& r matches Ok(GroupPlan::Cgroup { version: CgroupVersion::V1, ops })
                    &&& op_views(ops@) == v1_create_plan(
                        d.cgroupfs_path@,
                        string_views(d.cgroup_prefix@),
                        check.group_id@,
                        check.limits,
                    )
                },
                Inner::CgroupV2(d) => {
                    &&& r matches Ok(GroupPlan::Cgroup { version: CgroupVersion::V2, ops })
                    &&& op_views(ops@) == v2_create_plan(
                        d.cgroupfs_path@,
                        string_views(d.cgroup_prefix@),
                        check.group_id@,
                        check.limits,
                    )
                },
                Inner::Prlimit(d) => if check.limits.pids_max > 1
                    && !d.allows_multiple_processes() {
                    r matches Err(
                        DriverError::Prlimit(PrlimitError::PidsLimitEnforcementImpossible),
                    )
                } else {
                    r matches Ok(GroupPlan::Prlimit(enter)) && enter == (PrlimitEnter {
                        limits: check.limits,
                    })
                },
            },
    {
        match &self.inner {
            Inner::CgroupV1(inner) => Ok(
                GroupPlan::Cgroup {
                    version: CgroupVersion::V1,
                    ops: inner.create_group(check.group_id.as_str(), &check.limits),
                },
            ),
            Inner::CgroupV2(inner) => Ok(
                GroupPlan::Cgroup {
                    version: CgroupVersion::V2,
                    ops: inner.create_group(check.group_id.as_str(), &check.limits),
                },
            ),
            Inner::Prlimit(inner) => match inner.check_limits(&check.limits) {
                Ok(()) => Ok(GroupPlan::Prlimit(PrlimitEnter { limits: check.limits })),
                Err(e) => Err(DriverError::Prlimit(e)),
            },
        }
    }

    /// Notes that the zygote of the group `group_id` is known. Only the
    /// driver without cgroups has a use for it: it refuses a group that
    /// it does not know.
    pub fn register_group_details(&mut self, group_id: &str) -> (known: bool)
        ensures
            match (old(self).inner, final(self).inner) {
                (Inner::CgroupV1(d), Inner::CgroupV1(after)) => after == d && known,
                (Inner::CgroupV2(d), Inner::CgroupV2(after)) => after == d && known,
                (Inner::Prlimit(d), Inner::Prlimit(after)) => {
                    &&& known == d.groups().contains(group_id@)
                    &&& after.groups() == d.groups()
                    &&& after.allows_multiple_processes() == d.allows_multiple_processes()
                    &&& after.groups_with_zygote() == if known {
                        d.groups_with_zygote().insert(group_id@)
                    } else {
                        d.groups_with_zygote()
                    }
                },
                _ => false,
            },
    {
        match &mut self.inner {
            Inner::CgroupV1(_) => true,
            Inner::CgroupV2(_) => true,
            Inner::Prlimit(inner) => {
                let id = group_id.to_owned();
                inner.register_group_details(&id)
            },
        }
    }

    /// Deletes the group `group_id`: the cgroup drivers name the
    /// directories to remove, in order, where a directory that cannot be
    /// removed is passed over; the driver without cgroups forgets the
    /// group.
    pub fn delete_group(&mut self, group_id: &str) -> (dirs: Vec<String>)
        ensures
            match (old(self).inner, final(self).inner) {
                (Inner::CgroupV1(d), Inner::CgroupV1(after)) => {
                    &&& after == d
                    &&& string_views(dirs@) == v1_group_dirs(
                        d.cgroupfs_path@,
                        string_views(d.cgroup_prefix@),
                        group_id@,
                    )
                },
                (Inner::CgroupV2(d), Inner::CgroupV2(after)) => {
                    &&& after == d
                    &&& string_views(dirs@) == seq![
                        unified_group_dir(
                            d.cgroupfs_path@,
                            string_views(d.cgroup_prefix@),
                            group_id@,
                        ),
                    ]
                },
                (Inner::Prlimit(d), Inner::Prlimit(after)) => {
                    &&& dirs@.len() == 0
                    &&& after.groups() == d.groups().remove(group_id@)
                    &&& after.groups_with_zygote() == d.groups_with_zygote().remove(group_id@)
                    &&& after.allows_multiple_processes() == d.allows_multiple_processes()
                },
                _ => false,
            },
    {
        match &mut self.inner {
            Inner::CgroupV1(inner) => inner.delete_group(group_id),
            Inner::CgroupV2(inner) => {
                let mut dirs: Vec<String> = Vec::new();
                dirs.push(inner.delete_group(group_id));
                assert(string_views(dirs@) =~= seq![dirs@[0]@]);
                dirs
            },
            Inner::Prlimit(inner) => {
                let id = group_id.to_owned();
                inner.delete_group(&id);
                Vec::new()
            },
        }
    }

    /// Tells what is to be read to learn what the group `group_id`
    /// used: the counter of CPU time and that of memory for version 1
    /// cgroups, the statistics of the CPU for version 2, and the zygote
    /// of the group without cgroups.
    pub fn usage_request(&self, group_id: &str) -> (r: UsageRequest)
        ensures
            match self.inner {
                Inner::CgroupV1(d) => {
                    &&& !r.ask_zygote
                    &&& string_views(r.files@) == seq![
                        path_push(
                            legacy_group_dir(
                                d.cgroupfs_path@,
                                string_views(d.cgroup_prefix@),
                                "cpuacct"@,
                                group_id@,
                            ),
                            "cpuacct.usage"@,
                        ),
                        path_push(
                            legacy_group_dir(
                                d.cgroupfs_path@,
                                string_views(d.cgroup_prefix@),
                                "memory"@,
                                group_id@,
                            ),
                            "memory.max_usage_in_bytes"@,
                        ),
                    ]
                },
                Inner::CgroupV2(d) => {
                    &&& !r.ask_zygote
                    &&& string_views(r.files@) == seq![
                        path_push(
                            unified_group_dir(
                                d.cgroupfs_path@,
                                string_views(d.cgroup_prefix@),
                                group_id@,
                            ),
                            "cpu.stat"@,
                        ),
                    ]
                },
                Inner::Prlimit(_) => r.ask_zygote && r.files@.len() == 0,
            },
    {
        match &self.inner {
            Inner::CgroupV1(inner) => {
                let mut files: Vec<String> = Vec::new();
                files.push(inner.cpu_usage_file(group_id));
                files.push(inner.memory_usage_file(group_id));
                assert(string_views(files@) =~= seq![files@[0]@, files@[1]@]);
                UsageRequest { files, ask_zygote: false }
            },
            Inner::CgroupV2(inner) => {
                let mut files: Vec<String> = Vec::new();
                files.push(inner.cpu_stat_file(group_id));
                assert(string_views(files@) =~= seq![files@[0]@]);
                UsageRequest { files, ask_zygote: false }
            },
            Inner::Prlimit(_) => UsageRequest { files: Vec::new(), ask_zygote: true },
        }
    }

    /// Tells what a group used, from what was read for it. Without
    /// cgroups, a zygote that did not answer means that the sandbox is
    /// gone. A reading that cannot be understood is reported as a file
    /// that could not be read.
    pub fn resource_usage(&self, reading: &UsageReading) -> (r: Result<
        InternalResourceUsageData,
        DriverError,
    >)
        ensures
            match usage_of(*self, *reading) {
                Some(usage) => r == Ok::<InternalResourceUsageData, DriverError>(usage),
                None => if self.inner is Prlimit {
                    r matches Err(DriverError::Prlimit(PrlimitError::SandboxGone))
                } else {
                    r matches Err(DriverError::Cgroup(CgroupError::Read { .. }))
                },
            },
    {
        let usage = match &self.inner {
            Inner::CgroupV1(_) => {
                if reading.files.len() == 2 {
                    CgroupV1::resource_usage(
                        reading.files[0].as_str(),
                        reading.files[1].as_str(),
                    )
                } else {
                    None
                }
            },
            Inner::CgroupV2(_) => {
                if reading.files.len() == 1 {
                    Some(CgroupV2::resource_usage(reading.files[0].as_str()))
                } else {
                    None
                }
            },
            Inner::Prlimit(_) => {
                return match Prlimit::resource_usage(reading.zygote) {
                    Ok(usage) => Ok(usage),
                    Err(e) => Err(DriverError::Prlimit(e)),
                };
            },
        };
        match usage {
            Some(usage) => Ok(usage),
            None => Err(
                DriverError::Cgroup(
                    CgroupError::Read {
                        path: "resource usage".to_owned(),
                        cause: "not a number".to_owned(),
                    },
                ),
            ),
        }
    }
}

} // verus!
