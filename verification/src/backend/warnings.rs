//! Keeping a repeated warning from flooding the log.

use vstd::prelude::*;

use crate::text;

verus! {

/// How long a warning is held back after it was logged, in nanoseconds.
pub const QUIET_NANOS: u64 = 10_000_000_000;

/// When the warning about each backend was last logged. Times are nanoseconds of a clock that
/// never goes back.
pub struct ModelEnumWarnings {
    entries: Vec<(String, u64)>,
}

/// The times by key.
pub open spec fn times_of(entries: Seq<(String, u64)>) -> Map<Seq<char>, u64>
    decreases entries.len(),
{
    if entries.len() == 0 {
        Map::empty()
    } else {
        times_of(entries.drop_last()).insert(entries.last().0@, entries.last().1)
    }
}

/// Whether a warning under `key` may be logged at `now`.
pub open spec fn may_warn(times: Map<Seq<char>, u64>, key: Seq<char>, now: u64) -> bool {
    !times.contains_key(key) || now - times[key] >= QUIET_NANOS
}

impl ModelEnumWarnings {
    /// No key is there twice.
    pub closed spec fn wf(self) -> bool {
        forall|i: int, j: int|
            0 <= i < j < self.entries@.len() ==> (#[trigger] self.entries@[i]).0@ != (
            #[trigger] self.entries@[j]).0@
    }

    /// The times by key.
    pub closed spec fn times(self) -> Map<Seq<char>, u64> {
        times_of(self.entries@)
    }

    /// No warning was logged yet.
    pub fn new() -> (r: Self)
        ensures
            r.wf(),
            r.times() == Map::<Seq<char>, u64>::empty(),
    {
        ModelEnumWarnings { entries: Vec::new() }
    }

    /// Tells whether the warning under `key` may be logged at `now`, and takes note of the time if
    /// so. Under one key that is at most once in ten seconds.
    pub fn static_last_model_enum_warning_check(&mut self, key: &str, now: u64) -> (r: bool)
        requires
            old(self).wf(),
        ensures
            final(self).wf(),
            r == may_warn(old(self).times(), key@, now),
            r ==> final(self).times() == old(self).times().insert(key@, now),
            !r ==> final(self).times() == old(self).times(),
    {
        let mut i: usize = 0;
        while i < self.entries.len()
            invariant
                i <= self.entries@.len(),
                *self == *old(self),
                self.wf(),
                forall|j: int| 0 <= j < i ==> (#[trigger] self.entries@[j]).0@ != key@,
            decreases self.entries@.len() - i,
        {
            if text::same(self.entries[i].0.as_str(), key) {
                let last: u64 = self.entries[i].1;
                proof {
                    lemma_times_at(self.entries@, i as int);
                }
                if now < last || now - last < QUIET_NANOS {
                    return false;
                }
                let ghost before = self.entries@;
                let again: String = key.to_owned();
                self.entries.set(i, (again, now));
                proof {
                    lemma_times_updated(before, i as int, self.entries@[i as int]);
                }
                return true;
            }
            i = i + 1;
        }
        proof {
            lemma_times_absent(self.entries@, key@);
        }
        let ghost before = self.entries@;
        self.entries.push((key.to_owned(), now));
        proof {
            assert(self.entries@.drop_last() == before);
        }
        true
    }
}

proof fn lemma_times_absent(entries: Seq<(String, u64)>, key: Seq<char>)
    requires
        forall|j: int| 0 <= j < entries.len() ==> (#[trigger] entries[j]).0@ != key,
    ensures
        !times_of(entries).contains_key(key),
    decreases entries.len(),
{
    if entries.len() > 0 {
        assert(entries.last() == entries[entries.len() - 1]);
        lemma_times_absent(entries.drop_last(), key);
    }
}

proof fn lemma_times_at(entries: Seq<(String, u64)>, i: int)
    requires
        0 <= i < entries.len(),
        forall|a: int, b: int|
            0 <= a < b < entries.len() ==> (#[trigger] entries[a]).0@ != (#[trigger] entries[b]).0@,
    ensures
        times_of(entries).contains_key(entries[i].0@),
        times_of(entries)[entries[i].0@] == entries[i].1,
    decreases entries.len(),
{
    if i < entries.len() - 1 {
        let rest = entries.drop_last();
        assert(rest[i] == entries[i]);
        lemma_times_at(rest, i);
        assert(entries.last() == entries[entries.len() - 1]);
    }
}

proof fn lemma_times_updated(entries: Seq<(String, u64)>, i: int, entry: (String, u64))
    requires
        0 <= i < entries.len(),
        entry.0@ == entries[i].0@,
        forall|a: int, b: int|
            0 <= a < b < entries.len() ==> (#[trigger] entries[a]).0@ != (#[trigger] entries[b]).0@,
    ensures
        times_of(entries.update(i, entry)) == times_of(entries).insert(entry.0@, entry.1),
    decreases entries.len(),
{
    let updated = entries.update(i, entry);
    let rest = entries.drop_last();
    if i < entries.len() - 1 {
        assert(rest[i] == entries[i]);
        lemma_times_updated(rest, i, entry);
        assert(updated.drop_last() == rest.update(i, entry));
        assert(entries.last() == entries[entries.len() - 1]);
        assert(updated.last() == entries.last());
        assert(times_of(updated) =~= times_of(entries).insert(entry.0@, entry.1));
    } else {
        assert(updated.drop_last() == rest);
        assert(times_of(updated) =~= times_of(entries).insert(entry.0@, entry.1));
    }
}

/// After a warning was logged it is held back for ten seconds, and then may be logged again; other
/// keys are not affected.
pub proof fn law_at_most_one_warning_in_ten_seconds(
    times: Map<Seq<char>, u64>,
    key: Seq<char>,
    other: Seq<char>,
    logged: u64,
    now: u64,
)
    ensures
        may_warn(times.insert(key, logged), key, now) <==> now >= logged + 10_000_000_000,
        other != key ==> may_warn(times.insert(key, logged), other, now) == may_warn(
            times,
            other,
            now,
        ),
{
}

} // verus!
