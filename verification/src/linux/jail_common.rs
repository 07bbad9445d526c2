//! What the caller and the zygote tell each other, and the identifier of
//! a sandbox.
use crate::text::{chars_of, string_of};
use crate::SharedItemKind;
use rand::seq::SliceRandom;
use vstd::prelude::*;

verus! {

/// The mount flags of a shared item, understood.
#[derive(Debug, Clone, Copy, PartialEq, Eq, Structural)]
pub struct SharedItemFlags {
    /// Mounts below the source are shared too.
    pub recursive: bool,
}

/// A shared item whose flags were checked.
#[derive(Debug, Clone)]
pub struct LinuxSharedItem {
    pub src: String,
    pub dest: String,
    pub kind: SharedItemKind,
    pub flags: SharedItemFlags,
}

/// What a `LinuxSharedItem` holds, as mathematical values.
pub ghost struct LinuxSharedItemView {
    pub src: Seq<char>,
    pub dest: Seq<char>,
    pub kind: SharedItemKind,
    pub flags: SharedItemFlags,
}

impl View for LinuxSharedItem {
    type V = LinuxSharedItemView;

    open spec fn view(&self) -> LinuxSharedItemView {
        LinuxSharedItemView {
            src: self.src@,
            dest: self.dest@,
            kind: self.kind,
            flags: self.flags,
        }
    }
}

/// The views of a list of checked shared items.
pub open spec fn linux_item_views(items: Seq<LinuxSharedItem>) -> Seq<LinuxSharedItemView> {
    items.map_values(|item: LinuxSharedItem| item@)
}

/// Everything the zygote needs to set a sandbox up.
#[derive(Debug, Clone)]
pub struct JailOptions {
    pub max_alive_process_count: u32,
    pub memory_limit: u64,
    /// Total CPU time for the whole sandbox, in nanoseconds.
    pub cpu_time_limit: u64,
    /// Wall-clock time limit for the whole sandbox, in nanoseconds.
    pub real_time_limit: u64,
    pub isolation_root: String,
    pub shared_items: Vec<LinuxSharedItem>,
    pub jail_id: String,
    pub allow_mount_ns_failure: bool,
    /// The host user that the job runs as, where it gets one of its own.
    pub sandbox_uid: Option<u32>,
    pub enable_watchdog: bool,
}

/// A request to start a job.
#[derive(Debug, Clone)]
pub struct JobQuery {
    pub image_path: String,
    pub argv: Vec<String>,
    pub environment: Vec<String>,
    pub pwd: String,
    /// The slots that the extra descriptors are to take in the job. The
    /// descriptors themselves follow the standard three.
    pub extra_fds: Vec<i32>,
}

/// Asks the zygote for the exit code of a completed job.
#[derive(Debug, Clone, Copy, PartialEq, Eq, Structural)]
pub struct GetExitCodeQuery {
    pub pid: i32,
}

/// What the zygote measured of its children.
#[derive(Debug, Clone, Copy, PartialEq, Eq, Structural)]
pub struct ResourceUsageInformation {
    pub memory: u64,
    /// CPU time, in nanoseconds.
    pub cpu: u64,
}

/// The answer to a request to start a job.
#[derive(Debug, Clone, Copy, PartialEq, Eq, Structural)]
pub struct JobStartupInfo {
    pub pid: i32,
}

/// A request to the zygote.
#[derive(Debug)]
pub enum Query {
    Spawn(JobQuery),
    GetExitCode(GetExitCodeQuery),
    GetResourceUsage,
}

/// Number of characters of a sandbox identifier.
pub const ID_SIZE: usize = 8;

/// The characters that a sandbox identifier is made of.
pub open spec fn id_chars() -> Seq<char> {
    "qwertyuiopasdfghjklzxcvbnm1234567890"@
}

/// Whether `id` can be the identifier of a sandbox: eight characters,
/// each a lower-case letter or a digit.
pub open spec fn is_jail_id(id: Seq<char>) -> bool {
    &&& id.len() == ID_SIZE
    &&& forall|i: int| 0 <= i < id.len() ==> id_chars().contains(#[trigger] id[i])
}

/// One of `choices`, picked at random.
///
/// Wraps `rand::seq::SliceRandom::choose` on the generator of the thread.
/// It returns `None` for an empty slice and otherwise an element of the
/// slice; which one is not known.
#[verifier::external_body]
fn choose_char(choices: &Vec<char>) -> (r: Option<char>)
    ensures
        choices@.len() == 0 ==> r is None,
        choices@.len() > 0 ==> r is Some && choices@.contains(r->0),
{
    let mut rng = rand::thread_rng();
    choices.as_slice().choose(&mut rng).copied()
}

/// Makes the identifier of a new sandbox.
pub fn gen_jail_id() -> (id: String)
    ensures
        is_jail_id(id@),
{
    let alphabet = chars_of("qwertyuiopasdfghjklzxcvbnm1234567890");
    proof {
        reveal_strlit("qwertyuiopasdfghjklzxcvbnm1234567890");
    }
    let mut out: Vec<char> = Vec::new();
    let mut i: usize = 0;
    while i < ID_SIZE
        invariant
            i <= ID_SIZE,
            out@.len() == i,
            alphabet@ == id_chars(),
            alphabet@.len() == 36,
            forall|j: int| 0 <= j < out@.len() ==> id_chars().contains(#[trigger] out@[j]),
        decreases ID_SIZE - i,
    {
        match choose_char(&alphabet) {
            Some(c) => {
                out.push(c);
            },
            None => {
                assert(false);
            },
        }
        i += 1;
    }
    string_of(&out)
}

/// The signal that ends a process at once.
pub const SIGKILL: i32 = 9;

/// The signal that asks a process to end.
pub const SIGTERM: i32 = 15;

/// The signal of an abort.
pub const SIGABRT: i32 = 6;

/// The signals sent to the zygote of a sandbox that is killed, in order.
/// The first one is enough; the others are sent for good measure.
pub fn term_signals() -> (r: Vec<i32>)
    ensures
        r@ == seq![SIGKILL, SIGTERM, SIGABRT],
{
    let mut r: Vec<i32> = Vec::new();
    r.push(SIGKILL);
    r.push(SIGTERM);
    r.push(SIGABRT);
    r
}

} // verus!
