//! The pool of host users that sandboxes run as.
use std::collections::HashSet;
use vstd::prelude::*;

verus! {

broadcast use vstd::std_specs::hash::group_hash_axioms;

/// Hands out the users of a range, each to one sandbox at a time.
#[derive(Debug)]
pub struct UidAllocator {
    low: u32,
    high: u32,
    used: HashSet<u32>,
}

/// The lowest user of `low..high` that is not in `used`, if there is one.
pub open spec fn lowest_free(low: u32, high: u32, used: Set<u32>) -> Option<u32>
    decreases high - low,
{
    if low >= high {
        None
    } else if !used.contains(low) {
        Some(low)
    } else {
        lowest_free((low + 1) as u32, high, used)
    }
}

/// What `lowest_free` gives is free, lies in the range, and has only
/// users in use below it; it gives nothing only where the whole range is
/// in use.
pub proof fn lemma_lowest_free(low: u32, high: u32, used: Set<u32>)
    ensures
        match lowest_free(low, high, used) {
            Some(uid) => {
                &&& low <= uid < high
                &&& !used.contains(uid)
                &&& forall|v: u32| low <= v < uid ==> used.contains(v)
            },
            None => forall|v: u32| low <= v < high ==> used.contains(v),
        },
    decreases high - low,
{
    if low < high && used.contains(low) {
        lemma_lowest_free((low + 1) as u32, high, used);
    }
}

impl UidAllocator {
    /// The first user of the range.
    pub closed spec fn low(&self) -> u32 {
        self.low
    }

    /// The end of the range: the first user above it.
    pub closed spec fn high(&self) -> u32 {
        self.high
    }

    /// The users that are handed out.
    pub closed spec fn used(&self) -> Set<u32> {
        self.used@
    }

    /// An allocator for the users from `low` up to, but not including,
    /// `high`, none of which is handed out.
    pub fn new(low: u32, high: u32) -> (r: Self)
        requires
            low <= high,
        ensures
            r.low() == low,
            r.high() == high,
            r.used() == Set::<u32>::empty(),
    {
        UidAllocator { low, high, used: HashSet::new() }
    }

    /// Hands out the lowest user that is free, and notes that it is in
    /// use. Gives nothing, and changes nothing, where the whole range is
    /// in use.
    pub fn allocate(&mut self) -> (r: Option<u32>)
        ensures
            r == lowest_free(old(self).low(), old(self).high(), old(self).used()),
            final(self).low() == old(self).low(),
            final(self).high() == old(self).high(),
            final(self).used() == match r {
                Some(uid) => old(self).used().insert(uid),
                None => old(self).used(),
            },
    {
        let mut uid = self.low;
        while uid < self.high
            invariant
                self.low <= uid,
                self.low == old(self).low,
                self.high == old(self).high,
                self.used@ == old(self).used@,
                lowest_free(self.low, self.high, self.used@) == lowest_free(
                    uid,
                    self.high,
                    self.used@,
                ),
            decreases self.high - uid,
        {
            if self.used.insert(uid) {
                return Some(uid);
            }
            assert(self.used@ =~= old(self).used@);
            uid += 1;
        }
        None
    }

    /// Takes a user back.
    pub fn deallocate(&mut self, uid: u32)
        requires
            old(self).used().contains(uid),
        ensures
            final(self).low() == old(self).low(),
            final(self).high() == old(self).high(),
            final(self).used() == old(self).used().remove(uid),
    {
        self.used.remove(&uid);
    }

    /// Whether `uid` is handed out.
    pub fn is_used(&self, uid: u32) -> (r: bool)
        ensures
            r == self.used().contains(uid),
    {
        self.used.contains(&uid)
    }
}

/// A user that is handed out is not handed out again before it is taken
/// back.
///
/// Whatever the range and whatever is in use: the user that an
/// allocation gives is none of those in use, and a second allocation
/// right after it gives another user.
pub proof fn lemma_uid_never_shared(low: u32, high: u32, used: Set<u32>)
    ensures
        match lowest_free(low, high, used) {
            Some(first) => {
                &&& !used.contains(first)
                &&& lowest_free(low, high, used.insert(first)) != Some(first)
            },
            None => true,
        },
{
    lemma_lowest_free(low, high, used);
    match lowest_free(low, high, used) {
        Some(first) => {
            lemma_lowest_free(low, high, used.insert(first));
        },
        None => {},
    }
}

/// A user stays in use until it is taken back: handing out another user
/// does not free it, and taking back another user does not either.
pub proof fn lemma_uid_stays_used(low: u32, high: u32, used: Set<u32>, uid: u32, other: u32)
    requires
        used.contains(uid),
        other != uid,
    ensures
        lowest_free(low, high, used) matches Some(next) ==> used.insert(next).contains(uid),
        used.remove(other).contains(uid),
        lowest_free(low, high, used.remove(other)) != Some(uid),
{
    lemma_lowest_free(low, high, used.remove(other));
}

} // verus!
