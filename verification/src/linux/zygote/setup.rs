//! How the zygote prepares the file system of its sandbox.
//!
//! The preparation is planned here, as a list of steps; the zygote
//! carries the steps out in order.
use crate::linux::jail_common::{
    linux_item_views, JailOptions, LinuxSharedItem, LinuxSharedItemView, SharedItemFlags,
};
use crate::linux::zygote::SANDBOX_INTERNAL_UID;
use crate::path::{path_push, push_component, strip_root, strip_root_of};
use crate::text::{chars_of, string_of};
use crate::SharedItemKind;
use vstd::prelude::*;

verus! {

/// Mount flag: read-only.
pub const MS_RDONLY: u64 = 1;

/// Mount flag: change an existing mount.
pub const MS_REMOUNT: u64 = 32;

/// Mount flag: bind mount.
pub const MS_BIND: u64 = 4096;

/// Mount flag: apply to the whole subtree.
pub const MS_REC: u64 = 16384;

/// The permissions given to the isolation root: everything to everyone.
pub const ISOLATION_ROOT_MODE: u32 = 0o777;

/// The flags of the bind mount of a shared item.
pub open spec fn bind_flags(flags: SharedItemFlags) -> u64 {
    if flags.recursive {
        MS_BIND | MS_REC
    } else {
        MS_BIND
    }
}

/// The flags of the second mount call of a read-only item, which takes
/// the right to write away.
pub open spec fn readonly_flags() -> u64 {
    MS_BIND | MS_REMOUNT | MS_RDONLY
}

/// The numbers behind the flags: a bind mount is 4096, a recursive one
/// 20480, and the read-only remount 4129.
pub proof fn lemma_mount_flag_values()
    ensures
        bind_flags(SharedItemFlags { recursive: false }) == 4096,
        bind_flags(SharedItemFlags { recursive: true }) == 20480,
        readonly_flags() == 4129,
{
    assert(4096u64 | 16384u64 == 20480u64) by (bit_vector);
    assert(4096u64 | 32u64 | 1u64 == 4129u64) by (bit_vector);
}

/// One step of the preparation of the file system of a sandbox.
#[derive(Debug)]
pub enum SetupStep {
    /// Set the permissions of `path`.
    SetMode { path: String, mode: u32 },
    /// Give `path` to a user and a group.
    SetOwner { path: String, uid: u32, gid: u32 },
    /// Create the directory `path`, with its parents.
    CreateDirAll { path: String },
    /// Remove the directory `path` and put an empty file in its place.
    ReplaceWithFile { path: String },
    /// Mount `source` on `target` with `flags`.
    Mount { source: String, target: String, flags: u64 },
    /// Mount what is mounted on `target` again, with `flags`.
    Remount { target: String, flags: u64 },
    /// Create the directory `path`; it may be there already.
    CreateDir { path: String },
    /// Mount the process file system on `target`.
    MountProc { target: String },
    /// Make `path` the root of the file system.
    Chroot { path: String },
    /// Change the working directory to `path`.
    Chdir { path: String },
}

/// What a `SetupStep` holds, as mathematical values.
pub ghost enum SetupStepView {
    SetMode { path: Seq<char>, mode: u32 },
    SetOwner { path: Seq<char>, uid: u32, gid: u32 },
    CreateDirAll { path: Seq<char> },
    ReplaceWithFile { path: Seq<char> },
    Mount { source: Seq<char>, target: Seq<char>, flags: u64 },
    Remount { target: Seq<char>, flags: u64 },
    CreateDir { path: Seq<char> },
    MountProc { target: Seq<char> },
    Chroot { path: Seq<char> },
    Chdir { path: Seq<char> },
}

impl View for SetupStep {
    type V = SetupStepView;

    open spec fn view(&self) -> SetupStepView {
        match self {
            SetupStep::SetMode { path, mode } => SetupStepView::SetMode {
                path: path@,
                mode: *mode,
            },
            SetupStep::SetOwner { path, uid, gid } => SetupStepView::SetOwner {
                path: path@,
                uid: *uid,
                gid: *gid,
            },
            SetupStep::CreateDirAll { path } => SetupStepView::CreateDirAll { path: path@ },
            SetupStep::ReplaceWithFile { path } => SetupStepView::ReplaceWithFile { path: path@ },
            SetupStep::Mount { source, target, flags } => SetupStepView::Mount {
                source: source@,
                target: target@,
                flags: *flags,
            },
            SetupStep::Remount { target, flags } => SetupStepView::Remount {
                target: target@,
                flags: *flags,
            },
            SetupStep::CreateDir { path } => SetupStepView::CreateDir { path: path@ },
            SetupStep::MountProc { target } => SetupStepView::MountProc { target: target@ },
            SetupStep::Chroot { path } => SetupStepView::Chroot { path: path@ },
            SetupStep::Chdir { path } => SetupStepView::Chdir { path: path@ },
        }
    }
}

/// The views of a list of steps.
pub open spec fn step_views(steps: Seq<SetupStep>) -> Seq<SetupStepView> {
    steps.map_values(|s: SetupStep| s@)
}

/// Where a shared item appears in the sandbox: at its destination, taken
/// below the root of the sandbox.
pub open spec fn bind_target(jail_root: Seq<char>, item: LinuxSharedItemView) -> Seq<char> {
    path_push(jail_root, strip_root(item.dest))
}

/// The steps that make one shared item visible in a sandbox rooted at
/// `jail_root`.
///
/// The target is created as a directory; where the source is a regular
/// file, that directory is replaced by an empty file. The source is then
/// bound to the target, and a read-only item is mounted once more to
/// take the right to write away.
pub open spec fn item_steps(
    jail_root: Seq<char>,
    item: LinuxSharedItemView,
    source_is_file: bool,
) -> Seq<SetupStepView> {
    let target = bind_target(jail_root, item);
    seq![SetupStepView::CreateDirAll { path: target }] + (if source_is_file {
        seq![SetupStepView::ReplaceWithFile { path: target }]
    } else {
        Seq::<SetupStepView>::empty()
    }) + seq![
        SetupStepView::Mount { source: item.src, target, flags: bind_flags(item.flags) },
    ] + (match item.kind {
        SharedItemKind::Readonly => seq![
            SetupStepView::Remount { target, flags: readonly_flags() },
        ],
        SharedItemKind::Full => Seq::<SetupStepView>::empty(),
    })
}

/// The steps that make each of `items` visible, in the order of the
/// items. `source_is_file` tells of each item whether its source is a
/// regular file.
pub open spec fn items_steps(
    jail_root: Seq<char>,
    items: Seq<LinuxSharedItemView>,
    source_is_file: Seq<bool>,
) -> Seq<SetupStepView>
    recommends
        items.len() == source_is_file.len(),
    decreases items.len(),
{
    if items.len() == 0 {
        Seq::<SetupStepView>::empty()
    } else {
        items_steps(jail_root, items.drop_last(), source_is_file.drop_last()) + item_steps(
            jail_root,
            items.last(),
            source_is_file.last(),
        )
    }
}

/// Where the process file system of a sandbox is mounted.
pub open spec fn procfs_target(isolation_root: Seq<char>) -> Seq<char> {
    path_push(isolation_root, "proc"@)
}

/// The whole preparation of the file system of a sandbox: the root is
/// opened to everyone and given to the internal user, the shared items
/// are made visible, the process file system is mounted, and the root of
/// the sandbox becomes the root of the file system.
pub open spec fn setup_steps(
    isolation_root: Seq<char>,
    items: Seq<LinuxSharedItemView>,
    source_is_file: Seq<bool>,
) -> Seq<SetupStepView> {
    seq![
        SetupStepView::SetMode { path: isolation_root, mode: ISOLATION_ROOT_MODE },
        SetupStepView::SetOwner {
            path: isolation_root,
            uid: SANDBOX_INTERNAL_UID,
            gid: SANDBOX_INTERNAL_UID,
        },
    ] + items_steps(isolation_root, items, source_is_file) + seq![
        SetupStepView::CreateDir { path: procfs_target(isolation_root) },
        SetupStepView::MountProc { target: procfs_target(isolation_root) },
        SetupStepView::Chroot { path: isolation_root },
        SetupStepView::Chdir { path: "/"@ },
    ]
}

fn push_step(steps: &mut Vec<SetupStep>, step: SetupStep)
    ensures
        step_views(final(steps)@) == step_views(old(steps)@).push(step@),
{
    steps.push(step);
    assert(step_views(steps@) =~= step_views(old(steps)@).push(step@));
}

/// Adds to `steps` the steps that make `item` visible below `jail_root`.
pub fn expose_item(
    steps: &mut Vec<SetupStep>,
    jail_root: &str,
    item: &LinuxSharedItem,
    source_is_file: bool,
)
    ensures
        step_views(final(steps)@) == step_views(old(steps)@) + item_steps(
            jail_root@,
            item@,
            source_is_file,
        ),
{
    let mut target = chars_of(jail_root);
    let dest = strip_root_of(&chars_of(item.dest.as_str()));
    push_component(&mut target, &dest);
    let target = string_of(&target);
    push_step(steps, SetupStep::CreateDirAll { path: target.clone() });
    if source_is_file {
        push_step(steps, SetupStep::ReplaceWithFile { path: target.clone() });
    }
    let flags = if item.flags.recursive {
        MS_BIND | MS_REC
    } else {
        MS_BIND
    };
    push_step(steps, SetupStep::Mount { source: item.src.clone(), target: target.clone(), flags });
    match item.kind {
        SharedItemKind::Readonly => {
            push_step(
                steps,
                SetupStep::Remount { target, flags: MS_BIND | MS_REMOUNT | MS_RDONLY },
            );
        },
        SharedItemKind::Full => {},
    }
    assert(step_views(steps@) =~= step_views(old(steps)@) + item_steps(
        jail_root@,
        item@,
        source_is_file,
    ));
}

/// Adds to `steps` the steps that make each of `expose` visible below
/// `jail_root`, in the order given.
pub fn expose_items(
    steps: &mut Vec<SetupStep>,
    expose: &Vec<LinuxSharedItem>,
    source_is_file: &Vec<bool>,
    jail_root: &str,
)
    requires
        expose@.len() == source_is_file@.len(),
    ensures
        step_views(final(steps)@) == step_views(old(steps)@) + items_steps(
            jail_root@,
            linux_item_views(expose@),
            source_is_file@,
        ),
{
    let ghost items = linux_item_views(expose@);
    let mut i: usize = 0;
    proof {
        assert(items.take(0) == Seq::<LinuxSharedItemView>::empty());
        assert(step_views(steps@) + Seq::<SetupStepView>::empty() =~= step_views(steps@));
    }
    while i < expose.len()
        invariant
            i <= expose.len(),
            expose@.len() == source_is_file@.len(),
            items == linux_item_views(expose@),
            step_views(steps@) == step_views(old(steps)@) + items_steps(
                jail_root@,
                items.take(i as int),
                source_is_file@.take(i as int),
            ),
        decreases expose.len() - i,
    {
        let ghost before = step_views(steps@);
        proof {
            assert(items.take(i + 1).drop_last() == items.take(i as int));
            assert(source_is_file@.take(i + 1).drop_last() == source_is_file@.take(i as int));
            assert(items.take(i + 1).last() == expose@[i as int]@);
        }
        expose_item(steps, jail_root, &expose[i], source_is_file[i]);
        assert(step_views(steps@) =~= step_views(old(steps)@) + items_steps(
            jail_root@,
            items.take(i + 1),
            source_is_file@.take(i + 1),
        ));
        i += 1;
    }
    assert(items.take(expose.len() as int) == items);
    assert(source_is_file@.take(expose.len() as int) == source_is_file@);
}

/// The directory below `isolation_root` on which `proc` is mounted.
pub fn procfs_path(isolation_root: &str) -> (r: String)
    ensures
        r@ == procfs_target(isolation_root@),
{
    let mut target = chars_of(isolation_root);
    push_component(&mut target, &chars_of("proc"));
    string_of(&target)
}

/// Plans the preparation of the file system of a sandbox.
/// `source_is_file` tells of each shared item whether its source is a
/// regular file.
pub fn setup(jail_params: &JailOptions, source_is_file: &Vec<bool>) -> (steps: Vec<SetupStep>)
    requires
        jail_params.shared_items@.len() == source_is_file@.len(),
    ensures
        step_views(steps@) == setup_steps(
            jail_params.isolation_root@,
            linux_item_views(jail_params.shared_items@),
            source_is_file@,
        ),
{
    let root = jail_params.isolation_root.as_str();
    let mut steps: Vec<SetupStep> = Vec::new();
    assert(step_views(steps@) =~= Seq::<SetupStepView>::empty());
    push_step(&mut steps, SetupStep::SetMode { path: root.to_owned(), mode: ISOLATION_ROOT_MODE });
    push_step(
        &mut steps,
        SetupStep::SetOwner {
            path: root.to_owned(),
            uid: SANDBOX_INTERNAL_UID,
            gid: SANDBOX_INTERNAL_UID,
        },
    );
    expose_items(&mut steps, &jail_params.shared_items, source_is_file, root);
    push_step(&mut steps, SetupStep::CreateDir { path: procfs_path(root) });
    push_step(&mut steps, SetupStep::MountProc { target: procfs_path(root) });
    push_step(&mut steps, SetupStep::Chroot { path: root.to_owned() });
    push_step(&mut steps, SetupStep::Chdir { path: "/".to_owned() });
    assert(step_views(steps@) =~= setup_steps(
        jail_params.isolation_root@,
        linux_item_views(jail_params.shared_items@),
        source_is_file@,
    ));
    steps
}

} // verus!
