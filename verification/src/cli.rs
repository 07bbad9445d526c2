//! The arguments of the command line front end, read.
use crate::decimal::{decimal, format_u64};
use crate::text::{
    chars_of, same_chars, slice_chars, split, split_chars, string_of, string_views, strings_of,
};
use crate::{
    ChildProcessOptions, ExitCode, Handle, InputSpecification, InputSpecificationData,
    OutputSpecification, OutputSpecificationData, SandboxOptions, SharedItem, SharedItemKind,
    SharedItemView, StdioSpecification,
};
use vstd::prelude::*;
use vstd::string::*;

verus! {

/// A variable of the environment of the child.
#[derive(Debug)]
pub struct EnvItem {
    pub name: String,
    pub value: String,
}

/// The place of the first `c` in `s`, or the length of `s` if there is
/// none.
pub open spec fn first_index_of(s: Seq<char>, c: char) -> int
    decreases s.len(),
{
    if s.len() == 0 {
        0
    } else if s[0] == c {
        0
    } else {
        1 + first_index_of(s.skip(1), c)
    }
}

/// The place that `first_index_of` gives holds `c`, and no place before
/// it does.
pub proof fn lemma_first_index_of(s: Seq<char>, c: char)
    ensures
        0 <= first_index_of(s, c) <= s.len(),
        first_index_of(s, c) < s.len() ==> s[first_index_of(s, c)] == c,
        forall|i: int| 0 <= i < first_index_of(s, c) ==> s[i] != c,
    decreases s.len(),
{
    if s.len() > 0 && s[0] != c {
        let rest = s.skip(1);
        lemma_first_index_of(rest, c);
        assert forall|i: int| 0 <= i < first_index_of(s, c) implies s[i] != c by {
            if i > 0 {
                assert(s[i] == rest[i - 1]);
            }
        }
    }
}

/// Finds the first `c` in `s`.
fn find_char(s: &Vec<char>, c: char) -> (r: usize)
    ensures
        r == first_index_of(s@, c),
{
    let mut i: usize = 0;
    assert(s@.skip(0) == s@);
    while i < s.len()
        invariant
            i <= s.len(),
            first_index_of(s@, c) == i + first_index_of(s@.skip(i as int), c),
        decreases s.len() - i,
    {
        if s[i] == c {
            return i;
        }
        assert(s@.skip(i as int).skip(1) == s@.skip(i + 1));
        i += 1;
    }
    i
}

/// The text up to the first `c`, and the text after it, where there is
/// a `c`.
pub open spec fn cut_at_first(s: Seq<char>, c: char) -> Option<(Seq<char>, Seq<char>)> {
    let p = first_index_of(s, c);
    if p < s.len() {
        Some((s.take(p), s.skip(p + 1)))
    } else {
        None
    }
}

fn cut(s: &Vec<char>, c: char) -> (r: Option<(Vec<char>, Vec<char>)>)
    ensures
        match cut_at_first(s@, c) {
            Some((head, tail)) => r matches Some((h, t)) && h@ == head && t@ == tail,
            None => r is None,
        },
{
    let p = find_char(s, c);
    proof {
        lemma_first_index_of(s@, c);
    }
    if p < s.len() {
        let head = slice_chars(s, 0, p);
        let tail = slice_chars(s, p + 1, s.len());
        assert(s@.subrange(0, p as int) == s@.take(p as int));
        assert(s@.subrange(p + 1, s.len() as int) == s@.skip(p + 1));
        Some((head, tail))
    } else {
        None
    }
}

/// Reads a variable written as `KEY=VAL`: the name is what stands before
/// the first `=`, the value all that follows it.
pub fn parse_env_item(src: &str) -> (r: Result<EnvItem, String>)
    ensures
        match cut_at_first(src@, '=') {
            Some((name, value)) => r matches Ok(item) && item.name@ == name && item.value@
                == value,
            None => r matches Err(message) && message@
                == "Env item doesn't look like KEY=VAL"@,
        },
{
    match cut(&chars_of(src), '=') {
        Some((name, value)) => Ok(EnvItem { name: string_of(&name), value: string_of(&value) }),
        None => Err("Env item doesn't look like KEY=VAL".to_owned()),
    }
}

/// A variable as it is handed to the child: `KEY=VAL`.
pub fn environment_entry(item: &EnvItem) -> (r: String)
    ensures
        r@ == item.name@ + "="@ + item.value@,
{
    let mut r = item.name.clone();
    r.append("=");
    r.append(item.value.as_str());
    r
}

/// A variable that is written out and read again is the same, where its
/// name holds no `=`.
pub proof fn lemma_env_item_round_trip(name: Seq<char>, value: Seq<char>)
    requires
        !name.contains('='),
    ensures
        cut_at_first(name + seq!['='] + value, '=') == Some((name, value)),
{
    let s = name + seq!['='] + value;
    lemma_first_index_of(s, '=');
    let p = first_index_of(s, '=');
    if p < name.len() {
        assert(s[p] == name[p]);
        assert(name.contains('='));
    }
    if p > name.len() {
        assert(s[name.len() as int] == '=');
    }
    assert(s.take(p) =~= name);
    assert(s.skip(p + 1) =~= value);
}

/// What went wrong in an `--expose` item.
pub open spec fn parts_message(parts: nat) -> Seq<char> {
    "--expose item must look like `src:mode:dest` (3 parts) or `src:mode:dest:flags` (4 parts), but "@
        + decimal(parts) + " parts was provided"@
}

/// What went wrong in an access mask of the wrong length.
pub open spec fn mask_length_message(len: nat) -> Seq<char> {
    "access mask must contain 3 chars (R, W, X flags), but "@ + decimal(len) + " provided"@
}

/// What went wrong in an access mask that is not known.
pub open spec fn mask_message(mask: Seq<char>) -> Seq<char> {
    "unknown access mask "@ + mask + ". rwx or r-x expected"@
}

/// The kind of sharing that an access mask stands for.
pub open spec fn kind_of_mask(mask: Seq<char>) -> Option<SharedItemKind> {
    if mask == "rwx"@ {
        Some(SharedItemKind::Full)
    } else if mask == "r-x"@ {
        Some(SharedItemKind::Readonly)
    } else {
        None
    }
}

/// What an `--expose` item says, or the message that tells what is wrong
/// with it.
///
/// An item is `src:MASK:dst` or `src:MASK:dst:flags`. The mask is `rwx`
/// for full access and `r-x` for read-only access; the flags are
/// separated by commas.
pub open spec fn exposition(src: Seq<char>) -> Result<SharedItemView, Seq<char>> {
    match cut_at_first(src, ':') {
        None => Err(parts_message(1)),
        Some((source, rest)) => match cut_at_first(rest, ':') {
            None => Err(parts_message(2)),
            Some((mask, tail)) => {
                let (dest, flags) = match cut_at_first(tail, ':') {
                    Some((dest, flags)) => (dest, split(flags, ',')),
                    None => (tail, Seq::<Seq<char>>::empty()),
                };
                if mask.len() != 3 {
                    Err(mask_length_message(mask.len()))
                } else {
                    match kind_of_mask(mask) {
                        Some(kind) => Ok(
                            SharedItemView { id: None, src: source, dest, kind, flags },
                        ),
                        None => Err(mask_message(mask)),
                    }
                }
            },
        },
    }
}

fn parts_error(parts: u64) -> (r: String)
    ensures
        r@ == parts_message(parts as nat),
{
    let mut message =
        "--expose item must look like `src:mode:dest` (3 parts) or `src:mode:dest:flags` (4 parts), but ".to_owned();
    message.append(format_u64(parts).as_str());
    message.append(" parts was provided");
    message
}

/// Reads an `--expose` item.
pub fn parse_path_exposition_item(src: &str) -> (r: Result<SharedItem, String>)
    ensures
        match exposition(src@) {
            Ok(item) => r matches Ok(parsed) && parsed@ == item,
            Err(message) => r matches Err(m) && m@ == message,
        },
{
    let chars = chars_of(src);
    let (source, rest) = match cut(&chars, ':') {
        Some(pair) => pair,
        None => {
            return Err(parts_error(1));
        },
    };
    let (mask, tail) = match cut(&rest, ':') {
        Some(pair) => pair,
        None => {
            return Err(parts_error(2));
        },
    };
    let (dest, flags) = match cut(&tail, ':') {
        Some((dest, flags_text)) => {
            let pieces = split_chars(&flags_text, ',');
            (dest, strings_of(&pieces))
        },
        None => {
            let none: Vec<String> = Vec::new();
            assert(string_views(none@) =~= Seq::<Seq<char>>::empty());
            (tail, none)
        },
    };
    if mask.len() != 3 {
        let mut message = "access mask must contain 3 chars (R, W, X flags), but ".to_owned();
        message.append(format_u64(mask.len() as u64).as_str());
        message.append(" provided");
        return Err(message);
    }
    let kind = if same_chars(&mask, &chars_of("rwx")) {
        SharedItemKind::Full
    } else if same_chars(&mask, &chars_of("r-x")) {
        SharedItemKind::Readonly
    } else {
        let mut message = "unknown access mask ".to_owned();
        message.append(string_of(&mask).as_str());
        message.append(". rwx or r-x expected");
        return Err(message);
    };
    Ok(SharedItem { id: None, src: string_of(&source), dest: string_of(&dest), kind, flags })
}

/// The status that the front end exits with: that of a success where
/// the child succeeded, that of a failure otherwise.
pub fn exit_status(code: ExitCode) -> (r: i32)
    ensures
        r == if code.0 == 0 {
            0i32
        } else {
            1i32
        },
{
    if code.is_success() {
        0
    } else {
        1
    }
}

/// The options of the child that the command line asks for: it runs
/// `executable` with the arguments and the variables given, in the
/// working directory `pwd`, on the three descriptors given as its
/// standard streams, and gets no other descriptor.
pub fn child_options(
    executable: String,
    argv: Vec<String>,
    env: &Vec<EnvItem>,
    stdio: (u64, u64, u64),
    pwd: String,
) -> (r: ChildProcessOptions)
    ensures
        r.path == executable,
        r.arguments == argv,
        r.environment@.len() == env@.len(),
        forall|i: int|
            0 <= i < env@.len() ==> (#[trigger] r.environment@[i])@ == env@[i].name@ + "="@
                + env@[i].value@,
        r.stdio.stdin.data() matches InputSpecificationData::Handle(h) && h.value() == stdio.0,
        r.stdio.stdout.data() matches OutputSpecificationData::Handle(h) && h.value() == stdio.1,
        r.stdio.stderr.data() matches OutputSpecificationData::Handle(h) && h.value() == stdio.2,
        r.extra_inherit@.len() == 0,
        r.pwd == pwd,
{
    let mut environment: Vec<String> = Vec::new();
    let mut i: usize = 0;
    while i < env.len()
        invariant
            i <= env.len(),
            environment@.len() == i,
            forall|j: int|
                0 <= j < i ==> (#[trigger] environment@[j])@ == env@[j].name@ + "="@
                    + env@[j].value@,
        decreases env.len() - i,
    {
        environment.push(environment_entry(&env[i]));
        i += 1;
    }
    ChildProcessOptions {
        path: executable,
        arguments: argv,
        environment,
        stdio: StdioSpecification {
            stdin: InputSpecification::handle(Handle::new(stdio.0)),
            stdout: OutputSpecification::handle(Handle::new(stdio.1)),
            stderr: OutputSpecification::handle(Handle::new(stdio.2)),
        },
        extra_inherit: Vec::new(),
        pwd,
    }
}

/// Nanoseconds in a millisecond.
pub const NANOS_PER_MILLI: u64 = 1_000_000;

/// The options of the sandbox that the command line asks for: the CPU
/// time limit is given in milliseconds, and the wall-clock limit is three
/// times the CPU time limit. A number of processes beyond what the
/// options can hold stands for the largest number.
pub fn sandbox_options(
    num_processes: usize,
    memory_limit: usize,
    time_limit: u32,
    isolation_root: String,
    exposed_paths: Vec<SharedItem>,
) -> (r: SandboxOptions)
    ensures
        r.max_alive_process_count == if num_processes <= u32::MAX {
            num_processes as u32
        } else {
            u32::MAX
        },
        r.memory_limit == memory_limit,
        r.cpu_time_limit == time_limit * 1_000_000,
        r.real_time_limit == 3 * (time_limit * 1_000_000),
        r.isolation_root == isolation_root,
        r.shared_items == exposed_paths,
{
    let max_alive_process_count: u32 = if num_processes <= 0xffff_ffff {
        num_processes as u32
    } else {
        0xffff_ffff
    };
    let cpu_time_limit: u64 = time_limit as u64 * NANOS_PER_MILLI;
    SandboxOptions {
        max_alive_process_count,
        memory_limit: memory_limit as u64,
        cpu_time_limit,
        real_time_limit: 3 * cpu_time_limit,
        isolation_root,
        shared_items: exposed_paths,
    }
}

} // verus!
