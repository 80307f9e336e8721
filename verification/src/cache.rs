//! The cache of film counts: a mapping from planet names to counts in which
//! an entry lives for a limited time, and the lock under which the workers
//! share it.

use crate::errors::ErrorKind;
use lru_time_cache::LruCache;
use std::sync::Arc;
use std::sync::Mutex;
use std::sync::MutexGuard;
use std::time::Duration;
use vstd::prelude::*;

verus! {

/// `lru_time_cache::LruCache`: a map whose entries expire and are dropped in
/// order of their last use.
#[verifier::external_type_specification]
#[verifier::external_body]
#[verifier::reject_recursive_types(Key)]
#[verifier::reject_recursive_types(Value)]
pub struct ExLruCache<Key, Value>(LruCache<Key, Value>);

/// `std::sync::Mutex`.
#[verifier::external_type_specification]
#[verifier::external_body]
#[verifier::reject_recursive_types(T)]
pub struct ExMutex<T: ?Sized>(Mutex<T>);

/// `std::sync::MutexGuard`: the lock, held.
#[verifier::external_type_specification]
#[verifier::external_body]
#[verifier::reject_recursive_types(T)]
pub struct ExMutexGuard<'a, T: ?Sized + 'a>(MutexGuard<'a, T>);

/// The entries that an `LruCache` holds: each key with its value.
pub uninterp spec fn cache_entries(cache: LruCache<String, i64>) -> Map<Seq<char>, i64>;

/// The time, in seconds, for which an `LruCache` keeps an entry: the one it
/// was made with.
pub uninterp spec fn cache_expire(cache: LruCache<String, i64>) -> u64;

/// The longest time, in seconds, for which entries may be kept. The cache
/// adds this time to the reading of a monotonic clock, and the sum has to be
/// a time that the clock can show.
pub const MAX_EXPIRE: u64 = 0xFFFF_FFFF;

/// The cache that holds no count.
pub open spec fn nothing() -> Map<Seq<char>, i64> {
    Map::empty()
}

/// The count that is held for a name, if one is.
pub open spec fn held(entries: Map<Seq<char>, i64>, name: Seq<char>) -> Option<i64> {
    if entries.contains_key(name) {
        Some(entries[name])
    } else {
        None
    }
}

/// Whether every entry is a count: none is negative.
pub open spec fn counts(entries: Map<Seq<char>, i64>) -> bool {
    forall|name: Seq<char>| #[trigger] entries.contains_key(name) ==> entries[name] >= 0
}

/// Whether every count of `after` is a count of `before`: counts may have
/// expired in between, but none was added and none was changed.
pub open spec fn dwindled(before: Map<Seq<char>, i64>, after: Map<Seq<char>, i64>) -> bool {
    forall|name: Seq<char>| #[trigger]
        after.contains_key(name) ==> before.contains_key(name) && before[name] == after[name]
}

/// Whether every count of `after`, but for the one of `name`, is a count of
/// `before`.
pub open spec fn dwindled_but(
    before: Map<Seq<char>, i64>,
    after: Map<Seq<char>, i64>,
    name: Seq<char>,
) -> bool {
    forall|other: Seq<char>|
        other != name && #[trigger] after.contains_key(other) ==> before.contains_key(other)
            && before[other] == after[other]
}

/// Whether `after` is what is left of `before` once some counts have
/// expired, and `found` is what `after` holds for `name`.
pub open spec fn looked_up(
    before: Map<Seq<char>, i64>,
    after: Map<Seq<char>, i64>,
    name: Seq<char>,
    found: Option<i64>,
) -> bool {
    &&& dwindled(before, after)
    &&& found == held(after, name)
}

/// Whether `after` holds `films` for `name` and, for every other name,
/// nothing that `before` did not hold.
pub open spec fn stored(
    before: Map<Seq<char>, i64>,
    after: Map<Seq<char>, i64>,
    name: Seq<char>,
    films: i64,
) -> bool {
    &&& held(after, name) == Some(films)
    &&& dwindled_but(before, after, name)
}

/// Calls `LruCache::with_expiry_duration`. Trusted: the cache it makes is
/// empty and keeps entries for the time given.
#[verifier::external_body]
fn lru_with_expiry(expire: u64) -> (cache: LruCache<String, i64>)
    ensures
        cache_entries(cache) == nothing(),
        cache_expire(cache) == expire,
{
    LruCache::with_expiry_duration(Duration::from_secs(expire))
}

/// Calls `LruCache::get`. Trusted: the call first drops the entries that
/// have expired and changes no other; it then returns the value that is left
/// for the key, if one is.
#[verifier::external_body]
fn lru_get(cache: &mut LruCache<String, i64>, key: &str) -> (found: Option<i64>)
    requires
        cache_expire(*old(cache)) <= MAX_EXPIRE,
    ensures
        cache_expire(*final(cache)) == cache_expire(*old(cache)),
        looked_up(cache_entries(*old(cache)), cache_entries(*final(cache)), key@, found),
    no_unwind
{
    cache.get(key).copied()
}

/// Calls `LruCache::insert`. Trusted: the call first drops the entries that
/// have expired, then sets the value of the key, and changes no other entry.
#[verifier::external_body]
fn lru_insert(cache: &mut LruCache<String, i64>, key: String, value: i64)
    requires
        cache_expire(*old(cache)) <= MAX_EXPIRE,
    ensures
        cache_expire(*final(cache)) == cache_expire(*old(cache)),
        stored(cache_entries(*old(cache)), cache_entries(*final(cache)), key@, value),
    no_unwind
{
    let _ = cache.insert(key, value);
}

/// The film counts that are remembered, by planet name. A count is kept for
/// a limited time after it was last stored or looked up. Only counts are
/// kept: no entry is negative.
pub struct MetricCache {
    inner: LruCache<String, i64>,
}

impl View for MetricCache {
    type V = Map<Seq<char>, i64>;

    closed spec fn view(&self) -> Map<Seq<char>, i64> {
        cache_entries(self.inner)
    }
}

impl MetricCache {
    #[verifier::type_invariant]
    spec fn well_formed(self) -> bool {
        &&& cache_expire(self.inner) <= MAX_EXPIRE
        &&& counts(cache_entries(self.inner))
    }

    /// The time, in seconds, for which a count is kept.
    pub closed spec fn expire(&self) -> u64 {
        cache_expire(self.inner)
    }

    /// An empty cache that keeps each count for `expire` seconds.
    pub fn new(expire: u64) -> (cache: MetricCache)
        requires
            expire <= MAX_EXPIRE,
        ensures
            cache@ == nothing(),
            cache.expire() == expire,
    {
        MetricCache { inner: lru_with_expiry(expire) }
    }

    /// Looks up the count of a planet. Counts that have been kept for too
    /// long are forgotten first, whatever their name; the others stay as
    /// they are. The answer is the count that is then held for `name`.
    pub fn get(&mut self, name: &str) -> (found: Option<i64>)
        ensures
            looked_up(old(self)@, final(self)@, name@, found),
            final(self).expire() == old(self).expire(),
            counts(old(self)@),
            counts(final(self)@),
    {
        proof {
            use_type_invariant(&*self);
        }
        lru_get(&mut self.inner, name)
    }

    /// Remembers the count of a planet, in place of any count held for the
    /// same name. Counts that have been kept for too long are forgotten
    /// first; nothing else changes. What is remembered is a count: it is
    /// not negative.
    pub fn put(&mut self, name: String, films: i64)
        requires
            films >= 0,
        ensures
            stored(old(self)@, final(self)@, name@, films),
            final(self).expire() == old(self).expire(),
            counts(old(self)@),
            counts(final(self)@),
    {
        proof {
            use_type_invariant(&*self);
        }
        lru_insert(&mut self.inner, name, films)
    }
}

/// Calls `Mutex::new`: a lock around the cache.
#[verifier::external_body]
fn guard_new(cache: MetricCache) -> (shared: Mutex<MetricCache>)
{
    Mutex::new(cache)
}

/// Calls `Arc::clone`. Trusted: the result points to the allocation that the
/// argument points to, and so to the same mutex: as values the two are
/// equal.
#[verifier::external_body]
fn guard_share(shared: &Arc<Mutex<MetricCache>>) -> (other: Arc<Mutex<MetricCache>>)
    ensures
        other == *shared,
{
    Arc::clone(shared)
}

/// Calls `Mutex::lock`, which blocks until the lock is free. Where the lock
/// is poisoned, the error is rendered as text. The calling thread must not
/// hold the lock already. Nothing is claimed of what is returned.
#[verifier::external_body]
fn guard_lock<'a>(shared: &'a Mutex<MetricCache>) -> (held: Result<
    MutexGuard<'a, MetricCache>,
    String,
>)
{
    shared.lock().map_err(|poisoned| format!("{}", poisoned))
}

/// Calls `MutexGuard::deref_mut`: the cache that the lock protects. Nothing
/// is claimed of what it holds.
#[verifier::external_body]
fn guard_cache<'a, 'b>(held: &'a mut MutexGuard<'b, MetricCache>) -> (cache: &'a mut MetricCache)
{
    &mut **held
}

/// A cache that several workers share. Every access takes the one lock, and
/// gives it back before it returns.
pub struct SharedCache {
    inner: Arc<Mutex<MetricCache>>,
    expire: u64,
}

impl SharedCache {
    /// The time, in seconds, for which this cache was made to keep a count.
    pub closed spec fn expire(&self) -> u64 {
        self.expire
    }

    /// A new, empty cache that keeps each count for `expire` seconds.
    pub fn new(expire: u64) -> (shared: SharedCache)
        requires
            expire <= MAX_EXPIRE,
        ensures
            shared.expire() == expire,
    {
        SharedCache { inner: Arc::new(guard_new(MetricCache::new(expire))), expire }
    }

    /// Another handle to the same cache: it holds the lock that this one
    /// holds, so that what is stored through either is found through both.
    pub fn share(&self) -> (other: SharedCache)
        ensures
            other == *self,
    {
        SharedCache { inner: guard_share(&self.inner), expire: self.expire }
    }

    /// Takes the lock. The one failure is a poisoned lock. The calling
    /// thread must not hold the lock already.
    pub(crate) fn lock(&self) -> (held: Result<MutexGuard<'_, MetricCache>, ErrorKind>)
        ensures
            held matches Err(e) ==> e is Poisoned,
    {
        match guard_lock(&self.inner) {
            Ok(held) => Ok(held),
            Err(poisoned) => Err(ErrorKind::Poisoned(poisoned)),
        }
    }

    /// The cache behind a held lock.
    pub(crate) fn cache<'a, 'b>(held: &'a mut MutexGuard<'b, MetricCache>) -> (cache:
        &'a mut MetricCache) {
        guard_cache(held)
    }

    /// Looks up the count of a planet under the lock. What the cache holds
    /// at that moment depends on the other workers and on the time, so of
    /// the result only this is stated: what is found is a count, and the
    /// one failure is a poisoned lock.
    pub fn get(&self, name: &str) -> (found: Result<Option<i64>, ErrorKind>)
        ensures
            found matches Ok(Some(films)) ==> films >= 0,
            found matches Err(e) ==> e is Poisoned,
    {
        match self.lock() {
            Ok(mut held) => {
                let cache = guard_cache(&mut held);
                Ok(cache.get(name))
            },
            Err(e) => Err(e),
        }
    }

    /// Remembers the count of a planet under the lock. The one failure is a
    /// poisoned lock, and then nothing was stored.
    pub fn put(&self, name: String, films: i64) -> (done: Result<(), ErrorKind>)
        requires
            films >= 0,
        ensures
            done matches Err(e) ==> e is Poisoned,
    {
        match self.lock() {
            Ok(mut held) => {
                let cache = guard_cache(&mut held);
                cache.put(name, films);
                Ok(())
            },
            Err(e) => Err(e),
        }
    }
}

/// A count that was stored is what the next lookup of its name finds,
/// unless the count has expired by then.
pub proof fn stored_count_is_found(
    before: Map<Seq<char>, i64>,
    between: Map<Seq<char>, i64>,
    after: Map<Seq<char>, i64>,
    name: Seq<char>,
    films: i64,
    found: Option<i64>,
)
    requires
        stored(before, between, name, films),
        looked_up(between, after, name, found),
    ensures
        found == Some(films) || (found is None && !after.contains_key(name)),
{
}

/// Two lookups of a name with nothing stored in between find the same
/// count, unless the count has expired before the second.
pub proof fn lookups_agree(
    before: Map<Seq<char>, i64>,
    between: Map<Seq<char>, i64>,
    after: Map<Seq<char>, i64>,
    name: Seq<char>,
    first: Option<i64>,
    second: Option<i64>,
)
    requires
        looked_up(before, between, name, first),
        looked_up(between, after, name, second),
    ensures
        second == first || second is None,
{
}

/// A lookup touches no count but to let it expire: what is held afterwards
/// was held before, with the same value.
pub proof fn lookup_invents_nothing(
    before: Map<Seq<char>, i64>,
    after: Map<Seq<char>, i64>,
    name: Seq<char>,
    found: Option<i64>,
    other: Seq<char>,
)
    requires
        looked_up(before, after, name, found),
        after.contains_key(other),
    ensures
        before.contains_key(other),
        before[other] == after[other],
{
}

} // verus!
