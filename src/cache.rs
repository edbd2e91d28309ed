//! The cache that the fetcher consults: one text per puzzle key, behind a
//! trait with interchangeable backends.

use vstd::prelude::*;

use std::collections::HashMap;

use crate::day::{lemma_day_view_injective, AocDay};
use crate::year::{lemma_year_view_injective, AocYear};

verus! {

/// The optional text that an optional `String` holds.
pub open spec fn text_of(r: Option<String>) -> Option<Seq<char>> {
    match r {
        Some(s) => Some(s@),
        None => None,
    }
}

/// A store of one text per (year, day).
///
/// `read` never fails and never changes the store: whatever cannot be read
/// counts as absent. `write` reports its failures as a typed error.
///
/// The two spec functions say what a backend guarantees. Their defaults
/// promise nothing, which fits a backend whose contents live outside the
/// program (files on disk); the in-memory backends state exactly what they
/// hold.
pub trait Cache: Sized {
    type WriteCacheError;

    /// Whether `read` may report `found` for the key.
    open spec fn reads_as(&self, year: AocYear, day: AocDay, found: Option<Seq<char>>) -> bool {
        true
    }

    /// Whether `after`, with `ok` telling success, may be what writing
    /// `input` under the key into `self` leaves.
    open spec fn written(&self, year: AocYear, day: AocDay, input: Seq<char>, after: Self, ok: bool) -> bool {
        true
    }

    fn read(&self, year: AocYear, day: AocDay) -> (r: Option<String>)
        ensures
            self.reads_as(year, day, text_of(r)),
    ;

    fn write(&mut self, year: AocYear, day: AocDay, input: &str) -> (r: Result<
        (),
        Self::WriteCacheError,
    >)
        ensures
            old(self).written(year, day, input@, *final(self), r is Ok),
    ;
}

/// The cache that keeps nothing.
#[derive(Debug, PartialEq, Eq, Structural, Clone, Copy)]
pub struct NoCache;

impl NoCache {
    pub fn new() -> (r: NoCache) {
        NoCache
    }
}

impl Cache for NoCache {
    /// Writes never fail here.
    type WriteCacheError = ();

    open spec fn reads_as(&self, year: AocYear, day: AocDay, found: Option<Seq<char>>) -> bool {
        found is None
    }

    open spec fn written(&self, year: AocYear, day: AocDay, input: Seq<char>, after: Self, ok: bool) -> bool {
        ok
    }

    /// Nothing is ever found, whatever was written before.
    fn read(&self, year: AocYear, day: AocDay) -> (r: Option<String>)
        ensures
            r is None,
    {
        None
    }

    /// Discards `input` and succeeds.
    fn write(&mut self, year: AocYear, day: AocDay, input: &str) -> (r: Result<(), ()>)
        ensures
            r is Ok,
    {
        Ok(())
    }
}

/// What a write does to a key that is already stored.
#[derive(Debug, PartialEq, Eq, Structural, Clone, Copy)]
pub enum CacheConflictPolicy {
    /// Replace the stored text.
    Overwrite,
    /// Keep the stored text and report the conflict.
    RejectWithError,
    /// Keep the stored text and report success.
    SkipSilently,
}

/// The map key of a (year, day): the year in the high 64 bits, the day in
/// the low ones.
pub open spec fn key_code(year: AocYear, day: AocDay) -> u128 {
    (year@ * 0x1_0000_0000_0000_0000 + day@) as u128
}

/// Different (year, day) keys have different key codes.
pub proof fn lemma_key_code_injective(y1: AocYear, d1: AocDay, y2: AocYear, d2: AocDay)
    ensures
        (key_code(y1, d1) == key_code(y2, d2)) == (y1 == y2 && d1 == d2),
{
    lemma_year_view_injective(y1, y2);
    lemma_day_view_injective(d1, d2);
    let a1 = y1@ as int;
    let b1 = d1@ as int;
    let a2 = y2@ as int;
    let b2 = d2@ as int;
    assert(usize::MAX < 0x1_0000_0000_0000_0000);
    assert(a1 * 0x1_0000_0000_0000_0000 + b1 == a2 * 0x1_0000_0000_0000_0000 + b2 ==> a1 == a2
        && b1 == b2) by (nonlinear_arith)
        requires
            0 <= b1 < 0x1_0000_0000_0000_0000,
            0 <= b2 < 0x1_0000_0000_0000_0000,
            0 <= a1,
            0 <= a2,
    ;
    assert(a1 * 0x1_0000_0000_0000_0000 + b1 < 0x1_0000_0000_0000_0000_0000_0000_0000_0000)
        by (nonlinear_arith)
        requires
            0 <= b1 < 0x1_0000_0000_0000_0000,
            0 <= a1 <= 0xffff_ffff,
    ;
    assert(a2 * 0x1_0000_0000_0000_0000 + b2 < 0x1_0000_0000_0000_0000_0000_0000_0000_0000)
        by (nonlinear_arith)
        requires
            0 <= b2 < 0x1_0000_0000_0000_0000,
            0 <= a2 <= 0xffff_ffff,
    ;
}

/// The entries after writing `input` under `key` with `policy`.
pub open spec fn entries_after_write(
    entries: Map<u128, Seq<char>>,
    policy: CacheConflictPolicy,
    key: u128,
    input: Seq<char>,
) -> Map<u128, Seq<char>> {
    if entries.contains_key(key) && policy != CacheConflictPolicy::Overwrite {
        entries
    } else {
        entries.insert(key, input)
    }
}

/// A write under `key` with `policy` is refused.
pub open spec fn write_rejected(
    entries: Map<u128, Seq<char>>,
    policy: CacheConflictPolicy,
    key: u128,
) -> bool {
    entries.contains_key(key) && policy == CacheConflictPolicy::RejectWithError
}

/// The cache held in memory for the life of the value.
pub struct MemoryCache {
    cache_map: HashMap<u128, String>,
    policy: CacheConflictPolicy,
}

/// Why the in-memory cache refused a write.
#[derive(Debug, PartialEq, Eq, Structural, Clone, Copy)]
pub enum MemoryWriteCacheError {
    /// The key already holds a text, and the policy rejects conflicts.
    AlreadyExists(AocYear, AocDay),
}

impl MemoryCache {
    /// The stored texts, by `key_code`.
    pub closed spec fn entries(&self) -> Map<u128, Seq<char>> {
        self.cache_map@.map_values(|s: String| s@)
    }

    /// The text stored under (year, day), if any.
    pub open spec fn stored(&self, year: AocYear, day: AocDay) -> Option<Seq<char>> {
        let key = key_code(year, day);
        if self.entries().contains_key(key) {
            Some(self.entries()[key])
        } else {
            None
        }
    }

    /// The policy for writes to keys already stored.
    pub closed spec fn conflict_policy(&self) -> CacheConflictPolicy {
        self.policy
    }

    /// An empty cache whose writes overwrite.
    pub fn new() -> (r: MemoryCache)
        ensures
            r.entries() == Map::<u128, Seq<char>>::empty(),
            r.conflict_policy() == CacheConflictPolicy::Overwrite,
    {
        MemoryCache::with_conflict_policy(CacheConflictPolicy::Overwrite)
    }

    /// An empty cache with the given policy for conflicting writes.
    pub fn with_conflict_policy(policy: CacheConflictPolicy) -> (r: MemoryCache)
        ensures
            r.entries() == Map::<u128, Seq<char>>::empty(),
            r.conflict_policy() == policy,
    {
        let r = MemoryCache { cache_map: HashMap::new(), policy };
        assert(r.entries() =~= Map::<u128, Seq<char>>::empty());
        r
    }

    /// The policy for writes to keys already stored.
    pub fn policy(&self) -> (r: CacheConflictPolicy)
        ensures
            r == self.conflict_policy(),
    {
        self.policy
    }
}

fn key_of(year: AocYear, day: AocDay) -> (r: u128)
    ensures
        r == key_code(year, day),
{
    let y = year.number();
    let d = day.number();
    (y as u128) * 0x1_0000_0000_0000_0000 + (d as u128)
}

impl Cache for MemoryCache {
    type WriteCacheError = MemoryWriteCacheError;

    open spec fn reads_as(&self, year: AocYear, day: AocDay, found: Option<Seq<char>>) -> bool {
        found == self.stored(year, day)
    }

    open spec fn written(&self, year: AocYear, day: AocDay, input: Seq<char>, after: Self, ok: bool) -> bool {
        let key = key_code(year, day);
        &&& after.conflict_policy() == self.conflict_policy()
        &&& after.entries() == entries_after_write(self.entries(), self.conflict_policy(), key, input)
        &&& ok == !write_rejected(self.entries(), self.conflict_policy(), key)
    }

    fn read(&self, year: AocYear, day: AocDay) -> (r: Option<String>) {
        let key = key_of(year, day);
        match self.cache_map.get(&key) {
            Some(text) => Some(text.clone()),
            None => None,
        }
    }

    fn write(&mut self, year: AocYear, day: AocDay, input: &str) -> (r: Result<
        (),
        MemoryWriteCacheError,
    >)
        ensures
            r matches Err(MemoryWriteCacheError::AlreadyExists(y, d)) ==> y == year && d == day,
            forall|y: AocYear, d: AocDay|
                !(y == year && d == day) ==> #[trigger] final(self).stored(y, d) == old(
                    self,
                ).stored(y, d),
    {
        proof {
            assert forall|y: AocYear, d: AocDay| !(y == year && d == day) implies key_code(y, d)
                != key_code(year, day) by {
                lemma_key_code_injective(y, d, year, day);
            }
        }
        let key = key_of(year, day);
        let ghost before = self.entries();
        if self.cache_map.contains_key(&key) {
            match self.policy {
                CacheConflictPolicy::Overwrite => {},
                CacheConflictPolicy::RejectWithError => {
                    return Err(MemoryWriteCacheError::AlreadyExists(year, day));
                },
                CacheConflictPolicy::SkipSilently => {
                    return Ok(());
                },
            }
        }
        self.cache_map.insert(key, input.to_string());
        assert(self.entries() =~= before.insert(key, input@));
        Ok(())
    }
}

/// Writing a text into the in-memory cache and then reading the same key
/// (`read` reports exactly what `stored` gives) gives that text back, unless the key was already stored and the policy
/// keeps the stored text.
pub proof fn lemma_write_then_read(
    before: MemoryCache,
    after: MemoryCache,
    year: AocYear,
    day: AocDay,
    input: Seq<char>,
    ok: bool,
)
    requires
        before.written(year, day, input, after, ok),
        before.stored(year, day) is None || before.conflict_policy()
            == CacheConflictPolicy::Overwrite,
    ensures
        ok,
        after.stored(year, day) == Some(input),
{
}

/// A write to one (year, day) of the in-memory cache leaves every other
/// key as it was, whatever the policy and the result.
pub proof fn lemma_write_keeps_other_keys(
    before: MemoryCache,
    after: MemoryCache,
    year: AocYear,
    day: AocDay,
    input: Seq<char>,
    ok: bool,
    other_year: AocYear,
    other_day: AocDay,
)
    requires
        before.written(year, day, input, after, ok),
        !(other_year == year && other_day == day),
    ensures
        after.stored(other_year, other_day) == before.stored(other_year, other_day),
{
    lemma_key_code_injective(other_year, other_day, year, day);
}

/// A second write to a stored key: with `RejectWithError` it fails and the
/// stored text stays; with `Overwrite` it succeeds and replaces the text;
/// with `SkipSilently` it succeeds and the stored text stays.
pub proof fn lemma_second_write(
    first: MemoryCache,
    second: MemoryCache,
    year: AocYear,
    day: AocDay,
    input: Seq<char>,
    ok: bool,
)
    requires
        first.stored(year, day) is Some,
        first.written(year, day, input, second, ok),
    ensures
        first.conflict_policy() == CacheConflictPolicy::RejectWithError ==> !ok
            && second.stored(year, day) == first.stored(year, day),
        first.conflict_policy() == CacheConflictPolicy::Overwrite ==> ok && second.stored(
            year,
            day,
        ) == Some(input),
        first.conflict_policy() == CacheConflictPolicy::SkipSilently ==> ok && second.stored(
            year,
            day,
        ) == first.stored(year, day),
{
}

} // verus!
