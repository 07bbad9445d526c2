//! The sandbox as its owner sees it: its limits, whether it still lives,
//! and what the watchdog reported.
use crate::linux::error::Error;
use crate::linux::jail_common::{
    gen_jail_id, is_jail_id, linux_item_views, GetExitCodeQuery, JailOptions, JobQuery,
    LinuxSharedItem, LinuxSharedItemView, Query, SharedItemFlags,
};
use crate::linux::limits::{InternalResourceUsageData, ResourceLimits};
use crate::linux::uid_alloc::{lowest_free, UidAllocator};
use crate::linux::{child_gets, IoPlan, Settings, SpawnPlan};
use crate::text::string_views;
use crate::{
    shared_item_views, ExitCode, ResourceUsageData, SandboxOptions, SharedItem, SharedItemView,
    EXIT_KILLED,
};
use vstd::prelude::*;

pub mod watchdog;

use watchdog::Event;

verus! {

/// What the watchdog reported so far.
#[derive(Debug, Clone, Copy, PartialEq, Eq, Structural)]
pub struct SandboxState {
    /// The CPU time limit was exceeded.
    pub was_cpu_tle: bool,
    /// The wall-clock time limit was exceeded.
    pub was_wall_tle: bool,
}

/// The state after one event: a report of a limit sets its flag for
/// good, a heartbeat changes nothing.
pub open spec fn state_after(state: SandboxState, ev: Event) -> SandboxState {
    match ev {
        Event::CpuTle => SandboxState { was_cpu_tle: true, ..state },
        Event::RealTle => SandboxState { was_wall_tle: true, ..state },
        Event::Heartbeat => state,
    }
}

/// The state after each of `events`, in order.
pub open spec fn state_after_all(state: SandboxState, events: Seq<Event>) -> SandboxState
    decreases events.len(),
{
    if events.len() == 0 {
        state
    } else {
        state_after(state_after_all(state, events.drop_last()), events.last())
    }
}

/// A flag is set exactly when it was set before or its event is among
/// those that came: no event clears a flag, and no other event sets it.
pub proof fn lemma_flags_after_all(state: SandboxState, events: Seq<Event>)
    ensures
        state_after_all(state, events).was_cpu_tle == (state.was_cpu_tle || events.contains(
            Event::CpuTle,
        )),
        state_after_all(state, events).was_wall_tle == (state.was_wall_tle || events.contains(
            Event::RealTle,
        )),
    decreases events.len(),
{
    if events.len() > 0 {
        let init = events.drop_last();
        lemma_flags_after_all(state, init);
        assert forall|e: Event| events.contains(e) <==> (init.contains(e) || events.last()
            == e) by {
            if events.contains(e) {
                let i = choose|i: int| 0 <= i < events.len() && events[i] == e;
                if i < init.len() {
                    assert(init[i] == e);
                }
            }
            if init.contains(e) {
                let i = choose|i: int| 0 <= i < init.len() && init[i] == e;
                assert(events[i] == e);
            }
            if events.last() == e {
                assert(events[events.len() - 1] == e);
            }
        }
    }
}

impl SandboxState {
    /// The state of a sandbox of which nothing was reported.
    pub fn new() -> (r: SandboxState)
        ensures
            r == (SandboxState { was_cpu_tle: false, was_wall_tle: false }),
    {
        SandboxState { was_cpu_tle: false, was_wall_tle: false }
    }

    /// Notes one event of the watchdog.
    pub fn process_flag(&mut self, ev: Event)
        ensures
            *final(self) == state_after(*old(self), ev),
    {
        match ev {
            Event::CpuTle => {
                self.was_cpu_tle = true;
            },
            Event::RealTle => {
                self.was_wall_tle = true;
            },
            Event::Heartbeat => {},
        }
    }
}

/// The first flag of a shared item that is not known, if there is one.
/// The only flag known is `recursive`.
pub open spec fn first_unknown_flag(flags: Seq<Seq<char>>) -> Option<Seq<char>>
    decreases flags.len(),
{
    if flags.len() == 0 {
        None
    } else if flags[0] != "recursive"@ {
        Some(flags[0])
    } else {
        first_unknown_flag(flags.skip(1))
    }
}

/// A shared item whose flags are all known, with its flags understood:
/// it is recursive if it carries the flag at least once.
pub open spec fn converted_item(item: SharedItemView) -> LinuxSharedItemView {
    LinuxSharedItemView {
        src: item.src,
        dest: item.dest,
        kind: item.kind,
        flags: SharedItemFlags { recursive: item.flags.len() > 0 },
    }
}

/// Checks the flags of a shared item. An item with a flag that is not
/// known is refused, with the first such flag.
pub fn convert_shared_item(item: SharedItem) -> (r: Result<LinuxSharedItem, Error>)
    ensures
        match first_unknown_flag(item@.flags) {
            Some(unknown) => r matches Err(Error::InvalidSharedItemFlag { flag }) && flag@
                == unknown,
            None => r matches Ok(converted) && converted@ == converted_item(item@),
        },
{
    let known = "recursive".to_owned();
    let mut recursive = false;
    let mut i: usize = 0;
    assert(string_views(item.flags@).skip(0) == string_views(item.flags@));
    while i < item.flags.len()
        invariant
            i <= item.flags.len(),
            known@ == "recursive"@,
            recursive == (i > 0),
            first_unknown_flag(string_views(item.flags@)) == first_unknown_flag(
                string_views(item.flags@).skip(i as int),
            ),
        decreases item.flags.len() - i,
    {
        assert(string_views(item.flags@).skip(i as int)[0] == item.flags@[i as int]@);
        if item.flags[i] == known {
            recursive = true;
        } else {
            return Err(Error::InvalidSharedItemFlag { flag: item.flags[i].clone() });
        }
        assert(string_views(item.flags@).skip(i as int).skip(1) == string_views(item.flags@).skip(
            i + 1,
        ));
        i += 1;
    }
    Ok(
        LinuxSharedItem {
            src: item.src,
            dest: item.dest,
            kind: item.kind,
            flags: SharedItemFlags { recursive },
        },
    )
}

/// The first flag that is not known among the flags of `items`, taken in
/// order.
pub open spec fn first_unknown_flag_of_items(items: Seq<SharedItemView>) -> Option<Seq<char>>
    decreases items.len(),
{
    if items.len() == 0 {
        None
    } else {
        match first_unknown_flag(items[0].flags) {
            Some(flag) => Some(flag),
            None => first_unknown_flag_of_items(items.skip(1)),
        }
    }
}

/// A request to start a job, with the descriptors that the job gets as
/// its standard input, output and error, and its extra descriptors. An
/// absent standard descriptor leaves the slot of the job empty.
#[derive(Debug)]
pub struct ExtendedJobQuery {
    pub job_query: JobQuery,
    pub stdin: Option<i32>,
    pub stdout: Option<i32>,
    pub stderr: Option<i32>,
    /// The extra descriptors, in the order of the slots that the
    /// request names for them.
    pub extra: Vec<i32>,
}

/// The number of streams among three that the child gets a descriptor
/// for.
pub open spec fn streams_given(stdin: IoPlan, stdout: IoPlan, stderr: IoPlan) -> nat {
    (if child_gets(stdin) {
        1nat
    } else {
        0nat
    }) + (if child_gets(stdout) {
        1nat
    } else {
        0nat
    }) + (if child_gets(stderr) {
        1nat
    } else {
        0nat
    })
}

impl ExtendedJobQuery {
    /// The request to start the child that `plan` describes, once its
    /// streams are provided: `child_fds` holds the descriptor made for
    /// each stream that the child gets one for, in the order stdin,
    /// stdout, stderr, and `extra` the extra descriptors. Nothing where
    /// the number of descriptors is not the number of such streams.
    pub fn new(plan: SpawnPlan, child_fds: &Vec<i32>, extra: Vec<i32>) -> (r: Option<
        ExtendedJobQuery,
    >)
        ensures
            match r {
                Some(query) => {
                    &&& child_fds@.len() == streams_given(plan.stdin, plan.stdout, plan.stderr)
                    &&& query.job_query == plan.query
                    &&& query.extra == extra
                    &&& (query.stdin is Some) == child_gets(plan.stdin)
                    &&& (query.stdout is Some) == child_gets(plan.stdout)
                    &&& (query.stderr is Some) == child_gets(plan.stderr)
                    &&& present_fds(query.stdin, query.stdout, query.stderr) == child_fds@
                },
                None => child_fds@.len() != streams_given(plan.stdin, plan.stdout, plan.stderr),
            },
    {
        let wants_stdin = !matches!(plan.stdin, IoPlan::Null);
        let wants_stdout = !matches!(plan.stdout, IoPlan::Null);
        let wants_stderr = !matches!(plan.stderr, IoPlan::Null);
        let mut next: usize = 0;
        let mut needed: usize = 0;
        if wants_stdin {
            needed += 1;
        }
        if wants_stdout {
            needed += 1;
        }
        if wants_stderr {
            needed += 1;
        }
        if child_fds.len() != needed {
            return None;
        }
        let stdin = if wants_stdin {
            next += 1;
            Some(child_fds[next - 1])
        } else {
            None
        };
        let stdout = if wants_stdout {
            next += 1;
            Some(child_fds[next - 1])
        } else {
            None
        };
        let stderr = if wants_stderr {
            next += 1;
            Some(child_fds[next - 1])
        } else {
            None
        };
        assert(present_fds(stdin, stdout, stderr) =~= child_fds@);
        Some(ExtendedJobQuery { job_query: plan.query, stdin, stdout, stderr, extra })
    }
}

/// The descriptors among `stdin`, `stdout`, `stderr` that are there, in
/// this order.
pub open spec fn present_fds(stdin: Option<i32>, stdout: Option<i32>, stderr: Option<i32>) -> Seq<
    i32,
> {
    let a = match stdin {
        Some(fd) => seq![fd],
        None => Seq::<i32>::empty(),
    };
    let b = match stdout {
        Some(fd) => seq![fd],
        None => Seq::<i32>::empty(),
    };
    let c = match stderr {
        Some(fd) => seq![fd],
        None => Seq::<i32>::empty(),
    };
    a + b + c
}

/// What is needed to set up a sandbox whose options were accepted.
#[derive(Debug)]
pub struct SandboxSetup {
    /// What the zygote is started with.
    pub jail_options: JailOptions,
    /// The limits of the resource group to make, under the identifier of
    /// the sandbox.
    pub limits: ResourceLimits,
}

/// A sandbox, as the one who holds it sees it.
#[derive(Debug)]
pub struct LinuxSandbox {
    id: String,
    options: SandboxOptions,
    /// The pid of the zygote on the host. Absent once the sandbox was
    /// killed.
    zygote: Option<i32>,
    state: SandboxState,
    /// The user to give back when the sandbox is dropped.
    dealloc_uid: Option<u32>,
}

/// What a `LinuxSandbox` holds, as mathematical values.
pub ghost struct LinuxSandboxView {
    pub id: Seq<char>,
    pub options: crate::SandboxOptionsView,
    /// The pid of the zygote on the host, while the sandbox lives.
    pub zygote: Option<i32>,
    pub state: SandboxState,
    /// The host user that the sandbox holds.
    pub uid: Option<u32>,
}

impl View for LinuxSandbox {
    type V = LinuxSandboxView;

    closed spec fn view(&self) -> LinuxSandboxView {
        LinuxSandboxView {
            id: self.id@,
            options: self.options@,
            zygote: self.zygote,
            state: self.state,
            uid: self.dealloc_uid,
        }
    }
}

/// The sandbox after it was killed: it has no zygote, and is otherwise
/// as it was.
pub open spec fn after_kill(sandbox: LinuxSandboxView) -> LinuxSandboxView {
    LinuxSandboxView { zygote: None, ..sandbox }
}

/// One step of the end of a sandbox.
#[derive(Debug)]
pub enum TeardownStep {
    /// Give the user back to the allocator.
    ReleaseUid { uid: u32 },
    /// Send the terminating signals to the zygote.
    Kill { pid: i32 },
    /// Delete the resource group.
    DeleteGroup { group_id: String },
}

/// What a `TeardownStep` holds, as mathematical values.
pub ghost enum TeardownStepView {
    ReleaseUid { uid: u32 },
    Kill { pid: i32 },
    DeleteGroup { group_id: Seq<char> },
}

impl View for TeardownStep {
    type V = TeardownStepView;

    open spec fn view(&self) -> TeardownStepView {
        match self {
            TeardownStep::ReleaseUid { uid } => TeardownStepView::ReleaseUid { uid: *uid },
            TeardownStep::Kill { pid } => TeardownStepView::Kill { pid: *pid },
            TeardownStep::DeleteGroup { group_id } => TeardownStepView::DeleteGroup {
                group_id: group_id@,
            },
        }
    }
}

/// The views of a list of steps.
pub open spec fn teardown_views(steps: Seq<TeardownStep>) -> Seq<TeardownStepView> {
    steps.map_values(|s: TeardownStep| s@)
}

/// What ends `sandbox` for good, in order: its user goes back, if it
/// holds one; its zygote is killed, if it still has one; and its
/// resource group is deleted, unless the groups are to be kept.
pub open spec fn teardown_of(sandbox: LinuxSandboxView, keep_cgroups: bool) -> Seq<
    TeardownStepView,
> {
    (match sandbox.uid {
        Some(uid) => seq![TeardownStepView::ReleaseUid { uid }],
        None => Seq::<TeardownStepView>::empty(),
    }) + (match sandbox.zygote {
        Some(pid) => seq![TeardownStepView::Kill { pid }],
        None => Seq::<TeardownStepView>::empty(),
    }) + (if keep_cgroups {
        Seq::<TeardownStepView>::empty()
    } else {
        seq![TeardownStepView::DeleteGroup { group_id: sandbox.id }]
    })
}

/// A sandbox that was killed can be dropped, and killed again.
///
/// Killing a sandbox twice is the same as killing it once. Dropping a
/// killed sandbox kills nothing; it gives the user back and deletes the
/// group as the drop of a living sandbox does.
pub proof fn lemma_drop_after_kill(sandbox: LinuxSandboxView, keep_cgroups: bool)
    ensures
        after_kill(after_kill(sandbox)) == after_kill(sandbox),
        forall|i: int|
            0 <= i < teardown_of(after_kill(sandbox), keep_cgroups).len() ==> !(
            #[trigger] teardown_of(after_kill(sandbox), keep_cgroups)[i] is Kill),
        teardown_of(after_kill(sandbox), keep_cgroups) == teardown_of(sandbox, keep_cgroups).filter(
            |step: TeardownStepView| !(step is Kill),
        ),
{
    reveal_with_fuel(Seq::filter, 4);
    let keep = |step: TeardownStepView| !(step is Kill);
    let uid_part = match sandbox.uid {
        Some(uid) => seq![TeardownStepView::ReleaseUid { uid }],
        None => Seq::<TeardownStepView>::empty(),
    };
    let kill_part = match sandbox.zygote {
        Some(pid) => seq![TeardownStepView::Kill { pid }],
        None => Seq::<TeardownStepView>::empty(),
    };
    let group_part = if keep_cgroups {
        Seq::<TeardownStepView>::empty()
    } else {
        seq![TeardownStepView::DeleteGroup { group_id: sandbox.id }]
    };
    let all = uid_part + kill_part + group_part;
    let killed = uid_part + Seq::<TeardownStepView>::empty() + group_part;
    assert(teardown_of(sandbox, keep_cgroups) == all);
    assert(teardown_of(after_kill(sandbox), keep_cgroups) == killed);
    Seq::filter_distributes_over_add(uid_part + kill_part, group_part, keep);
    Seq::filter_distributes_over_add(uid_part, kill_part, keep);
    assert(uid_part.filter(keep) =~= uid_part) by {
        if uid_part.len() > 0 {
            assert(uid_part.drop_last() =~= Seq::<TeardownStepView>::empty());
        }
    }
    assert(kill_part.filter(keep) =~= Seq::<TeardownStepView>::empty()) by {
        if kill_part.len() > 0 {
            assert(kill_part.drop_last() =~= Seq::<TeardownStepView>::empty());
        }
    }
    assert(group_part.filter(keep) =~= group_part) by {
        if group_part.len() > 0 {
            assert(group_part.drop_last() =~= Seq::<TeardownStepView>::empty());
        }
    }
    assert(all.filter(keep) =~= killed);
}

/// A sandbox over its CPU time is killed and flagged.
///
/// Where the watchdog measures more CPU time than the limit allows, or
/// cannot measure, it reports the CPU time limit and kills the sandbox.
/// Once the sandbox has noted that report, with whatever came before and
/// after it, its flag for CPU time is set.
pub proof fn lemma_cpu_limit_enforced(
    cpu_usage: Option<u64>,
    elapsed: u64,
    cpu_time_limit: u64,
    real_time_limit: u64,
    state: SandboxState,
    before: Seq<Event>,
    after: Seq<Event>,
)
    requires
        watchdog::cpu_exceeded(cpu_usage, cpu_time_limit),
    ensures
        watchdog::verdict(cpu_usage, elapsed, cpu_time_limit, real_time_limit)
            == watchdog::Verdict::Kill(Event::CpuTle),
        state_after_all(state, before + seq![Event::CpuTle] + after).was_cpu_tle,
{
    let events = before + seq![Event::CpuTle] + after;
    lemma_flags_after_all(state, events);
    assert(events[before.len() as int] == Event::CpuTle);
}

/// A sandbox over its wall-clock time is killed and flagged.
///
/// Where the watchdog finds the sandbox within its CPU time and older
/// than its wall-clock limit allows, it reports the wall-clock limit and
/// kills the sandbox. Once the sandbox has noted that report, with
/// whatever came before and after it, its flag for wall-clock time is
/// set.
pub proof fn lemma_wall_limit_enforced(
    cpu_usage: Option<u64>,
    elapsed: u64,
    cpu_time_limit: u64,
    real_time_limit: u64,
    state: SandboxState,
    before: Seq<Event>,
    after: Seq<Event>,
)
    requires
        !watchdog::cpu_exceeded(cpu_usage, cpu_time_limit),
        elapsed > real_time_limit,
    ensures
        watchdog::verdict(cpu_usage, elapsed, cpu_time_limit, real_time_limit)
            == watchdog::Verdict::Kill(Event::RealTle),
        state_after_all(state, before + seq![Event::RealTle] + after).was_wall_tle,
{
    let events = before + seq![Event::RealTle] + after;
    lemma_flags_after_all(state, events);
    assert(events[before.len() as int] == Event::RealTle);
}

impl LinuxSandbox {
    /// Accepts the options of a new sandbox and prepares what sets it
    /// up: an identifier, the shared items with their flags checked, a
    /// host user where the settings ask for one, and the limits of its
    /// resource group.
    ///
    /// The options are refused where a shared item carries a flag that
    /// is not known; nothing is allocated then. They are refused too
    /// where a user is needed and none is free.
    pub fn create(
        options: &SandboxOptions,
        settings: &Settings,
        enable_watchdog: bool,
        uid_alloc: &mut UidAllocator,
    ) -> (r: Result<SandboxSetup, Error>)
        ensures
            final(uid_alloc).low() == old(uid_alloc).low(),
            final(uid_alloc).high() == old(uid_alloc).high(),
            match first_unknown_flag_of_items(options@.shared_items) {
                Some(unknown) => {
                    &&& r matches Err(Error::InvalidSharedItemFlag { flag })
                    &&& flag@ == unknown
                    &&& final(uid_alloc).used() == old(uid_alloc).used()
                },
                None => if settings.rootless {
                    &&& r matches Ok(setup)
                    &&& is_setup_for(setup, options@, *settings, enable_watchdog, None)
                    &&& final(uid_alloc).used() == old(uid_alloc).used()
                } else {
                    match lowest_free(
                        old(uid_alloc).low(),
                        old(uid_alloc).high(),
                        old(uid_alloc).used(),
                    ) {
                        Some(uid) => {
                            &&& r matches Ok(setup)
                            &&& is_setup_for(setup, options@, *settings, enable_watchdog, Some(uid))
                            &&& final(uid_alloc).used() == old(uid_alloc).used().insert(uid)
                        },
                        None => {
                            &&& r matches Err(Error::UidExhausted)
                            &&& final(uid_alloc).used() == old(uid_alloc).used()
                        },
                    }
                },
            },
    {
        let jail_id = gen_jail_id();
        let mut shared_items: Vec<LinuxSharedItem> = Vec::new();
        let ghost items = options@.shared_items;
        let mut i: usize = 0;
        assert(items.skip(0) == items);
        while i < options.shared_items.len()
            invariant
                i <= options.shared_items.len(),
                items == shared_item_views(options.shared_items@),
                shared_items@.len() == i,
                first_unknown_flag_of_items(items) == first_unknown_flag_of_items(
                    items.skip(i as int),
                ),
                forall|j: int|
                    0 <= j < i ==> (#[trigger] shared_items@[j])@ == converted_item(items[j]),
            decreases options.shared_items.len() - i,
        {
            let item = options.shared_items[i].clone_item();
            assert(items.skip(i as int)[0] == item@);
            match convert_shared_item(item) {
                Ok(converted) => {
                    shared_items.push(converted);
                },
                Err(e) => {
                    return Err(e);
                },
            }
            assert(items.skip(i as int).skip(1) == items.skip(i + 1));
            i += 1;
        }
        let sandbox_uid = if settings.rootless {
            None
        } else {
            match uid_alloc.allocate() {
                Some(uid) => Some(uid),
                None => {
                    return Err(Error::UidExhausted);
                },
            }
        };
        let jail_options = JailOptions {
            max_alive_process_count: options.max_alive_process_count,
            memory_limit: options.memory_limit,
            cpu_time_limit: options.cpu_time_limit,
            real_time_limit: options.real_time_limit,
            isolation_root: options.isolation_root.clone(),
            shared_items,
            jail_id,
            allow_mount_ns_failure: settings.allow_unsupported_mount_namespace,
            sandbox_uid,
            enable_watchdog,
        };
        let limits = ResourceLimits {
            pids_max: options.max_alive_process_count,
            memory_max: options.memory_limit,
            cpu_usage: options.cpu_time_limit,
        };
        let setup = SandboxSetup { jail_options, limits };
        assert(linux_item_views(setup.jail_options.shared_items@) =~= items.map_values(
            |item: SharedItemView| converted_item(item),
        ));
        Ok(setup)
    }

    /// The sandbox whose zygote was started as the process `zygote_pid`.
    /// Nothing was reported of it yet.
    pub fn start(setup: &SandboxSetup, options: SandboxOptions, zygote_pid: i32) -> (r:
        LinuxSandbox)
        ensures
            r@ == (LinuxSandboxView {
                id: setup.jail_options.jail_id@,
                options: options@,
                zygote: Some(zygote_pid),
                state: SandboxState { was_cpu_tle: false, was_wall_tle: false },
                uid: setup.jail_options.sandbox_uid,
            }),
    {
        LinuxSandbox {
            id: setup.jail_options.jail_id.clone(),
            options,
            zygote: Some(zygote_pid),
            state: SandboxState::new(),
            dealloc_uid: setup.jail_options.sandbox_uid,
        }
    }

    /// The identifier of the sandbox.
    pub fn id(&self) -> (r: String)
        ensures
            r@ == self@.id,
    {
        self.id.clone()
    }

    /// Notes the events that the watchdog sent since the last look.
    pub fn poll_state(&mut self, events: &Vec<Event>)
        ensures
            final(self)@ == (LinuxSandboxView {
                state: state_after_all(old(self)@.state, events@),
                ..old(self)@
            }),
    {
        let mut i: usize = 0;
        assert(events@.take(0) == Seq::<Event>::empty());
        while i < events.len()
            invariant
                i <= events.len(),
                self.state == state_after_all(old(self).state, events@.take(i as int)),
                self.id == old(self).id,
                self.zygote == old(self).zygote,
                self.dealloc_uid == old(self).dealloc_uid,
                self.options == old(self).options,
            decreases events.len() - i,
        {
            assert(events@.take(i + 1).drop_last() == events@.take(i as int));
            self.state.process_flag(events[i]);
            i += 1;
        }
        assert(events@.take(events.len() as int) == events@);
    }

    /// Whether the sandbox exceeded its CPU time limit, the events that
    /// the watchdog sent since the last look taken into account.
    pub fn check_cpu_tle(&mut self, events: &Vec<Event>) -> (r: Result<bool, Error>)
        ensures
            final(self)@ == (LinuxSandboxView {
                state: state_after_all(old(self)@.state, events@),
                ..old(self)@
            }),
            r matches Ok(flag) && flag == final(self)@.state.was_cpu_tle,
    {
        self.poll_state(events);
        Ok(self.state.was_cpu_tle)
    }

    /// Whether the sandbox exceeded its wall-clock time limit, the
    /// events that the watchdog sent since the last look taken into
    /// account.
    pub fn check_real_tle(&mut self, events: &Vec<Event>) -> (r: Result<bool, Error>)
        ensures
            final(self)@ == (LinuxSandboxView {
                state: state_after_all(old(self)@.state, events@),
                ..old(self)@
            }),
            r matches Ok(flag) && flag == final(self)@.state.was_wall_tle,
    {
        self.poll_state(events);
        Ok(self.state.was_wall_tle)
    }

    /// Kills the sandbox: the zygote is given up, and handed out to be
    /// sent the terminating signals. Killing a sandbox that is gone does
    /// nothing.
    pub fn kill(&mut self) -> (r: Option<i32>)
        ensures
            r == old(self)@.zygote,
            final(self)@ == after_kill(old(self)@),
    {
        self.zygote.take()
    }

    /// Whether the sandbox was not killed yet.
    pub fn is_alive(&self) -> (r: bool)
        ensures
            r == (self@.zygote is Some),
    {
        self.zygote.is_some()
    }

    /// What is sent to the zygote to start a job: the request, then the
    /// standard descriptors of the job that are there, then its extra
    /// descriptors. Refused once the sandbox is gone.
    pub fn spawn_job(&self, query: ExtendedJobQuery) -> (r: Result<(Query, Vec<i32>), Error>)
        ensures
            match self@.zygote {
                Some(_) => {
                    &&& r matches Ok((Query::Spawn(q), fds))
                    &&& q == query.job_query
                    &&& fds@ == present_fds(query.stdin, query.stdout, query.stderr)
                        + query.extra@
                },
                None => r matches Err(Error::SandboxGone),
            },
    {
        if self.zygote.is_none() {
            return Err(Error::SandboxGone);
        }
        let mut fds: Vec<i32> = Vec::new();
        match query.stdin {
            Some(fd) => {
                fds.push(fd);
            },
            None => {},
        }
        match query.stdout {
            Some(fd) => {
                fds.push(fd);
            },
            None => {},
        }
        match query.stderr {
            Some(fd) => {
                fds.push(fd);
            },
            None => {},
        }
        let ghost standard = fds@;
        assert(standard =~= present_fds(query.stdin, query.stdout, query.stderr));
        let mut i: usize = 0;
        while i < query.extra.len()
            invariant
                i <= query.extra.len(),
                fds@ == standard + query.extra@.take(i as int),
            decreases query.extra.len() - i,
        {
            fds.push(query.extra[i]);
            assert(query.extra@.take(i + 1) == query.extra@.take(i as int).push(
                query.extra@[i as int],
            ));
            i += 1;
        }
        assert(query.extra@.take(query.extra.len() as int) == query.extra@);
        Ok((Query::Spawn(query.job_query), fds))
    }

    /// What is sent to the zygote to learn how the job `pid` ended.
    /// Nothing once the sandbox is gone.
    pub fn exit_code_query(&self, pid: i32) -> (r: Option<Query>)
        ensures
            match self@.zygote {
                Some(_) => r == Some(Query::GetExitCode(GetExitCodeQuery { pid })),
                None => r is None,
            },
    {
        if self.zygote.is_none() {
            return None;
        }
        Some(Query::GetExitCode(GetExitCodeQuery { pid }))
    }

    /// The exit code of a job, from what the zygote answered. A job
    /// whose sandbox is gone, or whose zygote did not answer, counts as
    /// killed.
    pub fn get_exit_code(&self, answer: Option<i64>) -> (r: ExitCode)
        ensures
            r == exit_code_from(self@.zygote, answer),
    {
        if self.zygote.is_none() {
            return ExitCode::killed();
        }
        match answer {
            Some(ec) => ExitCode(ec),
            None => ExitCode::killed(),
        }
    }

    /// What the sandbox used, as the caller is told.
    pub fn resource_usage(usage: InternalResourceUsageData) -> (r: Result<ResourceUsageData, Error>)
        ensures
            r matches Ok(data) && data == (ResourceUsageData {
                time: Some(usage.time),
                memory: usage.memory,
            }),
    {
        Ok(ResourceUsageData { time: Some(usage.time), memory: usage.memory })
    }

    /// Ends the sandbox for good, and tells what is left to do, in
    /// order: its user goes back, its zygote is killed if that was not
    /// done before, and its resource group is deleted unless the groups
    /// are to be kept.
    pub fn drop(self, keep_cgroups: bool) -> (r: Vec<TeardownStep>)
        ensures
            teardown_views(r@) == teardown_of(self@, keep_cgroups),
    {
        let mut r: Vec<TeardownStep> = Vec::new();
        match self.dealloc_uid {
            Some(uid) => {
                r.push(TeardownStep::ReleaseUid { uid });
            },
            None => {},
        }
        match self.zygote {
            Some(pid) => {
                r.push(TeardownStep::Kill { pid });
            },
            None => {},
        }
        if !keep_cgroups {
            r.push(TeardownStep::DeleteGroup { group_id: self.id });
        }
        assert(teardown_views(r@) =~= teardown_of(self@, keep_cgroups));
        r
    }
}

/// The exit code of a job as the caller sees it: the one that the zygote
/// answered, or the code for a killed job where there was no zygote or
/// no answer.
pub open spec fn exit_code_from(zygote: Option<i32>, answer: Option<i64>) -> ExitCode {
    match (zygote, answer) {
        (Some(_), Some(code)) => ExitCode(code),
        _ => ExitCode(EXIT_KILLED),
    }
}

/// Whether `setup` is what sets up a sandbox with the given options,
/// under the given settings, run as the host user `uid`.
pub open spec fn is_setup_for(
    setup: SandboxSetup,
    options: crate::SandboxOptionsView,
    settings: Settings,
    enable_watchdog: bool,
    uid: Option<u32>,
) -> bool {
    let jail = setup.jail_options;
    &&& jail.max_alive_process_count == options.max_alive_process_count
    &&& jail.memory_limit == options.memory_limit
    &&& jail.cpu_time_limit == options.cpu_time_limit
    &&& jail.real_time_limit == options.real_time_limit
    &&& jail.isolation_root@ == options.isolation_root
    &&& linux_item_views(jail.shared_items@) == options.shared_items.map_values(
        |item: SharedItemView| converted_item(item),
    )
    &&& is_jail_id(jail.jail_id@)
    &&& jail.allow_mount_ns_failure == settings.allow_unsupported_mount_namespace
    &&& jail.sandbox_uid == uid
    &&& jail.enable_watchdog == enable_watchdog
    &&& setup.limits == (ResourceLimits {
        pids_max: options.max_alive_process_count,
        memory_max: options.memory_limit,
        cpu_usage: options.cpu_time_limit,
    })
}

} // verus!
