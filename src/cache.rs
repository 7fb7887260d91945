//! Single-flight discipline of the artifact cache. A lookup either finds the
//! stored artifact, or is told to compute it (the first caller for that
//! fingerprint), or is told to wait for the computation already under way.
//! A stored artifact is never replaced.

use vstd::prelude::*;
use std::collections::HashMap;

verus! {

broadcast use vstd::std_specs::hash::group_hash_axioms;

/// What the cache holds for one fingerprint.
pub enum Slot {
    /// A caller is computing the artifact.
    InFlight,
    /// The artifact's bytes.
    Ready(Seq<u8>),
}

/// What a lookup tells its caller to do.
pub enum Outcome {
    Hit(Seq<u8>),
    Compute,
    Wait,
}

/// The entry stored for one fingerprint.
pub enum CacheEntry {
    InFlight,
    Ready(Vec<u8>),
}

impl View for CacheEntry {
    type V = Slot;

    open spec fn view(&self) -> Slot {
        match self {
            CacheEntry::InFlight => Slot::InFlight,
            CacheEntry::Ready(b) => Slot::Ready(b@),
        }
    }
}

/// The answer to a lookup.
pub enum Lookup {
    /// The stored artifact.
    Hit(Vec<u8>),
    /// The caller is the one to compute the artifact, then `complete` it.
    Compute,
    /// Another caller is computing the artifact.
    Wait,
}

impl View for Lookup {
    type V = Outcome;

    open spec fn view(&self) -> Outcome {
        match self {
            Lookup::Hit(b) => Outcome::Hit(b@),
            Lookup::Compute => Outcome::Compute,
            Lookup::Wait => Outcome::Wait,
        }
    }
}

/// The cache after a lookup of `key`, and the lookup's answer.
pub open spec fn begin_spec(m: Map<u64, Slot>, key: u64) -> (Map<u64, Slot>, Outcome) {
    if !m.contains_key(key) {
        (m.insert(key, Slot::InFlight), Outcome::Compute)
    } else {
        match m[key] {
            Slot::Ready(b) => (m, Outcome::Hit(b)),
            Slot::InFlight => (m, Outcome::Wait),
        }
    }
}

/// The cache after a computation of `key` delivered `bytes`. An artifact
/// already stored stays.
pub open spec fn complete_spec(m: Map<u64, Slot>, key: u64, bytes: Seq<u8>) -> Map<u64, Slot> {
    if m.contains_key(key) && m[key] is Ready {
        m
    } else {
        m.insert(key, Slot::Ready(bytes))
    }
}

/// The cache after a computation of `key` failed: the claim is dropped so
/// that a later caller computes again.
pub open spec fn abort_spec(m: Map<u64, Slot>, key: u64) -> Map<u64, Slot> {
    if m.contains_key(key) && m[key] is InFlight {
        m.remove(key)
    } else {
        m
    }
}

/// Artifacts by fingerprint.
pub struct ArtifactCache {
    entries: HashMap<u64, CacheEntry>,
}

impl View for ArtifactCache {
    type V = Map<u64, Slot>;

    closed spec fn view(&self) -> Map<u64, Slot> {
        self.entries@.map_values(|e: CacheEntry| e@)
    }
}

impl ArtifactCache {
    /// An empty cache.
    pub fn new() -> (r: ArtifactCache)
        ensures
            r@ == Map::<u64, Slot>::empty(),
    {
        let r = ArtifactCache { entries: HashMap::new() };
        assert(r@ =~= Map::<u64, Slot>::empty());
        r
    }

    /// Looks `key` up; the first caller of a key that is not stored claims
    /// its computation.
    pub fn begin(&mut self, key: u64) -> (r: Lookup)
        ensures
            (final(self)@, r@) == begin_spec(old(self)@, key),
    {
        let answer = match self.entries.get(&key) {
            Some(CacheEntry::Ready(bytes)) => Lookup::Hit(bytes.clone()),
            Some(CacheEntry::InFlight) => Lookup::Wait,
            None => Lookup::Compute,
        };
        if let Lookup::Compute = answer {
            self.entries.insert(key, CacheEntry::InFlight);
            assert(self@ =~= old(self)@.insert(key, Slot::InFlight));
        }
        answer
    }

    /// Records the artifact computed for `key` and returns the bytes the
    /// cache now holds for it.
    pub fn complete(&mut self, key: u64, bytes: Vec<u8>) -> (r: Vec<u8>)
        ensures
            final(self)@ == complete_spec(old(self)@, key, bytes@),
            final(self)@[key] == Slot::Ready(r@),
            final(self)@.contains_key(key),
    {
        match self.entries.get(&key) {
            Some(CacheEntry::Ready(stored)) => {
                return stored.clone();
            },
            _ => {},
        }
        let reply = bytes.clone();
        self.entries.insert(key, CacheEntry::Ready(bytes));
        assert(self@ =~= old(self)@.insert(key, Slot::Ready(reply@)));
        reply
    }

    /// Drops the claim on `key` after its computation failed.
    pub fn abort(&mut self, key: u64)
        ensures
            final(self)@ == abort_spec(old(self)@, key),
    {
        let in_flight = match self.entries.get(&key) {
            Some(CacheEntry::InFlight) => true,
            _ => false,
        };
        if in_flight {
            self.entries.remove(&key);
            assert(self@ =~= old(self)@.remove(key));
        }
    }
}

/// Once an artifact is stored for a fingerprint, every later lookup returns
/// exactly those bytes and leaves the cache unchanged, so nothing is
/// computed again.
pub proof fn lemma_cache_coherent(m: Map<u64, Slot>, key: u64, bytes: Seq<u8>)
    requires
        m.contains_key(key),
        m[key] == Slot::Ready(bytes),
    ensures
        begin_spec(m, key) == (m, Outcome::Hit(bytes)),
{
}

/// The bytes a computation stores are what the next lookup of the same
/// fingerprint returns.
pub proof fn lemma_complete_then_hit(m: Map<u64, Slot>, key: u64, bytes: Seq<u8>)
    requires
        m.contains_key(key),
        m[key] == Slot::InFlight,
    ensures
        begin_spec(complete_spec(m, key, bytes), key) == (complete_spec(m, key, bytes), Outcome::Hit(
            bytes,
        )),
{
}

/// The cache after `n` successive lookups of `key`.
pub open spec fn after_lookups(m: Map<u64, Slot>, key: u64, n: nat) -> Map<u64, Slot>
    decreases n,
{
    if n == 0 {
        m
    } else {
        begin_spec(after_lookups(m, key, (n - 1) as nat), key).0
    }
}

/// How many of `n` successive lookups of `key` are told to compute.
pub open spec fn computations(m: Map<u64, Slot>, key: u64, n: nat) -> nat
    decreases n,
{
    if n == 0 {
        0
    } else {
        computations(m, key, (n - 1) as nat) + if begin_spec(
            after_lookups(m, key, (n - 1) as nat),
            key,
        ).1 is Compute {
            1nat
        } else {
            0nat
        }
    }
}

/// Among any number of lookups of one fingerprint with no completion in
/// between, at most one is told to compute; none is when the fingerprint is
/// already stored or claimed.
pub proof fn lemma_single_flight(m: Map<u64, Slot>, key: u64, n: nat)
    ensures
        computations(m, key, n) <= 1,
        m.contains_key(key) ==> computations(m, key, n) == 0,
        n > 0 ==> after_lookups(m, key, n).contains_key(key),
    decreases n,
{
    if n > 0 {
        lemma_single_flight(m, key, (n - 1) as nat);
        lemma_lookups_keep_slot(m, key, (n - 1) as nat);
    }
}

proof fn lemma_lookups_keep_slot(m: Map<u64, Slot>, key: u64, n: nat)
    ensures
        m.contains_key(key) ==> after_lookups(m, key, n) == m,
        n > 0 ==> after_lookups(m, key, n).contains_key(key),
        n > 0 && !m.contains_key(key) ==> after_lookups(m, key, n) == m.insert(key, Slot::InFlight),
    decreases n,
{
    if n > 0 {
        lemma_lookups_keep_slot(m, key, (n - 1) as nat);
        let prev = after_lookups(m, key, (n - 1) as nat);
        assert(after_lookups(m, key, n) == begin_spec(prev, key).0);
        if !m.contains_key(key) {
            let m1 = m.insert(key, Slot::InFlight);
            if n == 1 {
                assert(prev == m);
            } else {
                assert(prev == m1);
                assert(m1.contains_key(key) && m1[key] == Slot::InFlight);
                assert(begin_spec(m1, key).0 == m1);
            }
        }
    }
}

} // verus!
