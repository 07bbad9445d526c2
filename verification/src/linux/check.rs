//! Checking a Linux system for what the backend needs.
//!
//! The caller finds out what there is to know about the system and hands
//! it over as a probe; the rules of the check are here.
use crate::check::CheckResult;
use crate::decimal::{decimal, format_u64, parse_u32, parse_u32_spec};
use crate::linux::{Settings, UidRange};
use crate::text::{chars_of, lines, lines_of, views, words, words_of};
use vstd::prelude::*;
use vstd::string::*;

verus! {

/// The capability to set the group of a process, as a bit of the
/// effective set.
pub const CAP_SETGID: u64 = 0x40;

/// The capability to set the user of a process, as a bit of the
/// effective set.
pub const CAP_SETUID: u64 = 0x80;

/// What was found of a mapping of identifiers of the process.
#[derive(Debug)]
pub enum IdMap {
    /// The mapping could not be read, for this reason.
    Unreadable(String),
    /// The text of the mapping.
    Text(String),
}

/// What was found of the identity of the process.
#[derive(Debug)]
pub enum UidProbe {
    /// The process file system is not there, for this reason.
    NoProcfs(String),
    /// The status of the process could not be read, for this reason.
    NoStatus(String),
    /// The effective capabilities, and the mappings of users and groups.
    Status { capeff: u64, uid_map: IdMap, gid_map: IdMap },
}

/// What was found out about the system.
#[derive(Debug)]
pub struct SystemProbe {
    /// Whether the kernel has descriptors for processes.
    pub pidfd_supported: bool,
    /// Why no resource driver could be chosen, if none could.
    pub driver_failure: Option<String>,
    pub uid: UidProbe,
}

/// What a line of a mapping says: the first identifier mapped and how
/// many follow it. A line says something only if it has three fields,
/// the first and the last of which are numbers.
pub open spec fn entry_of_line(line: Seq<char>) -> Option<(u32, u32)> {
    let fields = words(line);
    if fields.len() == 3 {
        match (parse_u32_spec(fields[0]), parse_u32_spec(fields[2])) {
            (Some(start), Some(len)) => Some((start, len)),
            _ => None,
        }
    } else {
        None
    }
}

/// How many identifiers of `low..high` a line maps that maps `len`
/// identifiers from `start` on.
pub open spec fn overlap(start: u32, len: u32, low: u32, high: u32) -> nat {
    let end = start + len;
    let from = if start >= low {
        start as int
    } else {
        low as int
    };
    let to = if end <= high {
        end
    } else {
        high as int
    };
    if from <= to {
        (to - from) as nat
    } else {
        0
    }
}

/// How many identifiers of `low..high` the lines map together.
pub open spec fn covered(map_lines: Seq<Seq<char>>, low: u32, high: u32) -> nat
    decreases map_lines.len(),
{
    if map_lines.len() == 0 {
        0
    } else {
        covered(map_lines.drop_last(), low, high) + match entry_of_line(map_lines.last()) {
            Some((start, len)) => overlap(start, len, low, high),
            None => 0,
        }
    }
}

/// How many of the lines say nothing.
pub open spec fn malformed(map_lines: Seq<Seq<char>>) -> nat
    decreases map_lines.len(),
{
    if map_lines.len() == 0 {
        0
    } else {
        malformed(map_lines.drop_last()) + if entry_of_line(map_lines.last()) is None {
            1nat
        } else {
            0nat
        }
    }
}

/// The number of identifiers of a range.
pub open spec fn range_size(uid: UidRange) -> nat {
    if uid.high >= uid.low {
        (uid.high - uid.low) as nat
    } else {
        0
    }
}

/// A count as it is printed: the largest number stands for all that are
/// larger.
pub open spec fn capped(n: nat) -> u64 {
    if n > u64::MAX {
        u64::MAX
    } else {
        n as u64
    }
}

/// The error for a mapping that does not map the whole range.
pub open spec fn coverage_message(path: Seq<char>, uid: UidRange, count: nat) -> Seq<char> {
    "Settings specify a range ["@ + decimal(uid.low as nat) + "; "@ + decimal(uid.high as nat)
        + "), but "@ + path + " only maps "@ + decimal(capped(count) as nat) + " identifiers"@
}

/// The warning for a line of a mapping that says nothing.
pub open spec fn malformed_message(path: Seq<char>) -> Seq<char> {
    "failed to parse a line in "@ + path
        + ", this can lead to false positives: line did not contain three fields"@
}

/// The warning for a mapping that could not be read.
pub open spec fn unreadable_message(path: Seq<char>, reason: Seq<char>) -> Seq<char> {
    "failed to read "@ + path + ", unable to perform some checks: "@ + reason
}

/// The errors that a mapping gives rise to: one, where it can be read
/// and does not map exactly the range.
pub open spec fn map_errors(path: Seq<char>, map: IdMap, uid: UidRange) -> Seq<Seq<char>> {
    match map {
        IdMap::Unreadable(_) => Seq::<Seq<char>>::empty(),
        IdMap::Text(text) => {
            let count = covered(lines(text@), uid.low, uid.high);
            if count != range_size(uid) {
                seq![coverage_message(path, uid, count)]
            } else {
                Seq::<Seq<char>>::empty()
            }
        },
    }
}

/// The warnings that a mapping gives rise to: one where it cannot be
/// read, else one for each line that says nothing.
pub open spec fn map_warnings(path: Seq<char>, map: IdMap) -> Seq<Seq<char>> {
    match map {
        IdMap::Unreadable(reason) => seq![unreadable_message(path, reason@)],
        IdMap::Text(text) => Seq::new(
            malformed(lines(text@)),
            |i: int| malformed_message(path),
        ),
    }
}

/// The errors for capabilities that are missing.
pub open spec fn caps_errors(capeff: u64) -> Seq<Seq<char>> {
    (if capeff & CAP_SETUID == 0 {
        seq!["CAP_SETUID missing"@]
    } else {
        Seq::<Seq<char>>::empty()
    }) + (if capeff & CAP_SETGID == 0 {
        seq!["CAP_SETGID missing"@]
    } else {
        Seq::<Seq<char>>::empty()
    })
}

/// The errors of the check of the identity of the process.
pub open spec fn uid_errors(uid: UidRange, probe: UidProbe) -> Seq<Seq<char>> {
    match probe {
        UidProbe::NoProcfs(_) => Seq::<Seq<char>>::empty(),
        UidProbe::NoStatus(_) => Seq::<Seq<char>>::empty(),
        UidProbe::Status { capeff, uid_map, gid_map } => caps_errors(capeff) + map_errors(
            "/proc/self/uid_map"@,
            uid_map,
            uid,
        ) + map_errors("/proc/self/gid_map"@, gid_map, uid),
    }
}

/// The warnings of the check of the identity of the process.
pub open spec fn uid_warnings(probe: UidProbe) -> Seq<Seq<char>> {
    match probe {
        UidProbe::NoProcfs(reason) => seq![
            "procfs not accessible, unable to perform some checks: "@ + reason@,
        ],
        UidProbe::NoStatus(reason) => seq![
            "failed to parse /proc/self/status, unable to perform some checks: "@ + reason@,
        ],
        UidProbe::Status { capeff, uid_map, gid_map } => map_warnings(
            "/proc/self/uid_map"@,
            uid_map,
        ) + map_warnings("/proc/self/gid_map"@, gid_map),
    }
}

/// The errors that the check reports: that no resource driver could be
/// chosen, and, unless the backend works without root, those of the
/// identity of the process.
pub open spec fn found_errors(rootless: bool, uid: UidRange, probe: SystemProbe) -> Seq<Seq<char>> {
    (match probe.driver_failure {
        Some(reason) => seq!["Resource limits failure: "@ + reason@],
        None => Seq::<Seq<char>>::empty(),
    }) + (if rootless {
        Seq::<Seq<char>>::empty()
    } else {
        uid_errors(uid, probe.uid)
    })
}

/// The warnings that the check reports: that the kernel has no
/// descriptors for processes, and, unless the backend works without
/// root, those of the identity of the process.
pub open spec fn found_warnings(rootless: bool, probe: SystemProbe) -> Seq<Seq<char>> {
    (if probe.pidfd_supported {
        Seq::<Seq<char>>::empty()
    } else {
        seq!["PID file descriptors not supported"@]
    }) + (if rootless {
        Seq::<Seq<char>>::empty()
    } else {
        uid_warnings(probe.uid)
    })
}

/// Reads one line of a mapping.
fn read_entry(line: &Vec<char>) -> (r: Option<(u32, u32)>)
    ensures
        r == entry_of_line(line@),
{
    let fields = words_of(line);
    if fields.len() != 3 {
        return None;
    }
    assert(views(fields@)[0] == fields@[0]@);
    assert(views(fields@)[2] == fields@[2]@);
    match (parse_u32(&fields[0]), parse_u32(&fields[2])) {
        (Some(start), Some(len)) => Some((start, len)),
        _ => None,
    }
}

/// Counts the identifiers of `low..high` among `len` from `start` on.
fn count_overlap(start: u32, len: u32, low: u32, high: u32) -> (r: u64)
    ensures
        r == overlap(start, len, low, high),
{
    let end: u64 = start as u64 + len as u64;
    let from: u64 = if start >= low {
        start as u64
    } else {
        low as u64
    };
    let to: u64 = if end <= high as u64 {
        end
    } else {
        high as u64
    };
    if from <= to {
        to - from
    } else {
        0
    }
}

/// Checks one mapping against the range of the settings.
fn check_map(path: &str, map: &IdMap, uid: UidRange, res: &mut CheckResult)
    ensures
        final(res).errors() == old(res).errors() + map_errors(path@, *map, uid),
        final(res).warnings() == old(res).warnings() + map_warnings(path@, *map),
{
    match map {
        IdMap::Unreadable(reason) => {
            let mut message = "failed to read ".to_owned();
            message.append(path);
            message.append(", unable to perform some checks: ");
            message.append(reason.as_str());
            res.warning(message.as_str());
            assert(res.errors() =~= old(res).errors() + map_errors(path@, *map, uid));
            assert(res.warnings() =~= old(res).warnings() + map_warnings(path@, *map));
        },
        IdMap::Text(text) => {
            let map_lines = lines_of(&chars_of(text.as_str()));
            let mut malformed_message = "failed to parse a line in ".to_owned();
            malformed_message.append(path);
            malformed_message.append(
                ", this can lead to false positives: line did not contain three fields",
            );
            let ghost all = views(map_lines@);
            let ghost note = malformed_message@;
            let mut count: u64 = 0;
            let mut i: usize = 0;
            assert(all.take(0) == Seq::<Seq<char>>::empty());
            assert(res.warnings() =~= old(res).warnings() + Seq::new(
                malformed(all.take(0)),
                |k: int| note,
            ));
            while i < map_lines.len()
                invariant
                    i <= map_lines.len(),
                    all == views(map_lines@),
                    note == malformed_message@,
                    count == capped(covered(all.take(i as int), uid.low, uid.high)),
                    res.errors() == old(res).errors(),
                    res.warnings() == old(res).warnings() + Seq::new(
                        malformed(all.take(i as int)),
                        |k: int| note,
                    ),
                decreases map_lines.len() - i,
            {
                proof {
                    let next = all.take(i + 1);
                    assert(next.drop_last() == all.take(i as int));
                    assert(next.last() == map_lines@[i as int]@);
                }
                match read_entry(&map_lines[i]) {
                    Some((start, len)) => {
                        let more = count_overlap(start, len, uid.low, uid.high);
                        count = if count > u64::MAX - more {
                            u64::MAX
                        } else {
                            count + more
                        };
                    },
                    None => {
                        res.warning(malformed_message.as_str());
                        assert(res.warnings() =~= old(res).warnings() + Seq::new(
                            malformed(all.take(i + 1)),
                            |k: int| note,
                        ));
                    },
                }
                i += 1;
            }
            assert(all.take(map_lines.len() as int) == all);
            let range: u64 = if uid.high >= uid.low {
                (uid.high - uid.low) as u64
            } else {
                0
            };
            if count != range {
                let mut message = "Settings specify a range [".to_owned();
                message.append(format_u64(uid.low as u64).as_str());
                message.append("; ");
                message.append(format_u64(uid.high as u64).as_str());
                message.append("), but ");
                message.append(path);
                message.append(" only maps ");
                message.append(format_u64(count).as_str());
                message.append(" identifiers");
                res.error(message.as_str());
            }
            assert(res.errors() =~= old(res).errors() + map_errors(path@, *map, uid));
        },
    }
}

/// Checks the identity of the process: the capabilities to change user
/// and group, and that the whole range of users of the settings is
/// mapped for users and for groups.
pub fn check_uid(uid: UidRange, probe: &UidProbe, res: &mut CheckResult)
    ensures
        final(res).errors() == old(res).errors() + uid_errors(uid, *probe),
        final(res).warnings() == old(res).warnings() + uid_warnings(*probe),
{
    match probe {
        UidProbe::NoProcfs(reason) => {
            let mut message = "procfs not accessible, unable to perform some checks: ".to_owned();
            message.append(reason.as_str());
            res.warning(message.as_str());
            assert(res.errors() =~= old(res).errors() + uid_errors(uid, *probe));
            assert(res.warnings() =~= old(res).warnings() + uid_warnings(*probe));
        },
        UidProbe::NoStatus(reason) => {
            let mut message =
                "failed to parse /proc/self/status, unable to perform some checks: ".to_owned();
            message.append(reason.as_str());
            res.warning(message.as_str());
            assert(res.errors() =~= old(res).errors() + uid_errors(uid, *probe));
            assert(res.warnings() =~= old(res).warnings() + uid_warnings(*probe));
        },
        UidProbe::Status { capeff, uid_map, gid_map } => {
            if *capeff & CAP_SETUID == 0 {
                res.error("CAP_SETUID missing");
            }
            if *capeff & CAP_SETGID == 0 {
                res.error("CAP_SETGID missing");
            }
            assert(res.errors() =~= old(res).errors() + caps_errors(*capeff));
            check_map("/proc/self/uid_map", uid_map, uid, res);
            check_map("/proc/self/gid_map", gid_map, uid, res);
            assert(res.errors() =~= old(res).errors() + uid_errors(uid, *probe));
            assert(res.warnings() =~= old(res).warnings() + uid_warnings(*probe));
        },
    }
}

/// Checks what was found out about the system against `settings`.
pub fn check(settings: &Settings, probe: &SystemProbe, res: &mut CheckResult)
    ensures
        final(res).errors() == old(res).errors() + found_errors(
            settings.rootless,
            settings.uid,
            *probe,
        ),
        final(res).warnings() == old(res).warnings() + found_warnings(settings.rootless, *probe),
{
    if !probe.pidfd_supported {
        res.warning("PID file descriptors not supported");
    }
    match &probe.driver_failure {
        Some(reason) => {
            let mut message = "Resource limits failure: ".to_owned();
            message.append(reason.as_str());
            res.error(message.as_str());
        },
        None => {},
    }
    let ghost e1 = res.errors();
    let ghost w1 = res.warnings();
    assert(e1 =~= old(res).errors() + match probe.driver_failure {
        Some(reason) => seq!["Resource limits failure: "@ + reason@],
        None => Seq::<Seq<char>>::empty(),
    });
    assert(w1 =~= old(res).warnings() + if probe.pidfd_supported {
        Seq::<Seq<char>>::empty()
    } else {
        seq!["PID file descriptors not supported"@]
    });
    if !settings.rootless {
        check_uid(settings.uid, &probe.uid, res);
    }
    assert(res.errors() =~= old(res).errors() + found_errors(
        settings.rootless,
        settings.uid,
        *probe,
    ));
    assert(res.warnings() =~= old(res).warnings() + found_warnings(settings.rootless, *probe));
}

} // verus!
