//! Time-bounded signing-key cache with single-flight coordination.
//!
//! The cache maps key ids to signing-key entries. A hit is served without
//! any fetch; a miss marks the id as in flight so that concurrent misses on
//! the same id collapse into one underlying fetch, whose outcome is then
//! installed for every waiter. A fetched set that lacks the requested id is
//! cached negatively for a short window, so stale or malicious tokens do
//! not trigger a fetch per request.

use vstd::prelude::*;
use crate::keys::SigningKey;
use crate::keys::jwks_of;
use crate::keys::jwks_parses;
use crate::keys::key_from_document;
use crate::keys::key_matches_selection;
use crate::keys::selected_key;
use crate::token::AuthError;

verus! {

/// Positive entries are served for 24 hours before a refetch.
pub const POSITIVE_TTL_SECS: u64 = 86400;

/// A lookup that found no key for the requested id is remembered for five
/// minutes: long enough to absorb a burst of bad tokens, short enough to
/// pick up a genuinely new key quickly.
pub const NEGATIVE_TTL_SECS: u64 = 300;

/// A failed fetch is remembered for a few seconds, so that every caller
/// concurrent with it — the waiters it leaves behind — receives that one
/// failure instead of issuing a fetch of its own. The window is kept
/// short: the failure is transient, and the first request after it
/// retries.
pub const FAILURE_TTL_SECS: u64 = 5;

/// The lifecycle of one cached key id.
pub enum EntryState {
    /// A key was fetched for this id at `fetched_at` (seconds).
    Fresh { key: SigningKey, fetched_at: u64 },
    /// A fetch at `fetched_at` succeeded but held no key for this id.
    Negative { fetched_at: u64 },
    /// A fetch for this id is under way; its outcome is shared.
    InFlight,
    /// The fetch for this id failed at `failed_at`; callers concurrent
    /// with it share the failure, and the first lookup after the short
    /// failure window retries.
    Failed { failed_at: u64 },
}

pub struct CacheEntry {
    pub kid: String,
    pub state: EntryState,
}

/// What one lookup tells its caller.
pub enum LookupDecision {
    /// A fresh entry holds this key; no fetch.
    UseKey(SigningKey),
    /// A fresh fetch already showed the provider has no such key; no fetch.
    UnknownKey,
    /// Another caller is fetching this id; await that fetch's outcome.
    Await,
    /// The one fetch for this id just failed; that failure is the shared
    /// outcome — reject without fetching.
    FetchFailed,
    /// The caller must fetch the key set; the id is now marked in flight.
    Fetch,
}

/// The key cache. Entries are keyed by id, one entry per id.
pub struct KeyCache {
    pub entries: Vec<CacheEntry>,
}

/// The entry filed under `kid`, if any.
pub open spec fn spec_find(entries: Seq<CacheEntry>, kid: Seq<char>) -> Option<EntryState>
    decreases entries.len(),
{
    if entries.len() == 0 {
        None
    } else if entries[0].kid@ == kid {
        Some(entries[0].state)
    } else {
        spec_find(entries.drop_first(), kid)
    }
}

/// An entry fetched at `fetched_at` is still fresh at `now` under `ttl`.
/// A timestamp ahead of `now` (a clock stepped backwards) counts as fresh:
/// the entry was installed at most one window ago by the clock that wrote
/// it, and treating it as expired would only trigger spurious refetches.
pub open spec fn fresh_at(fetched_at: u64, ttl: u64, now: u64) -> bool {
    now - fetched_at < ttl
}

/// What a lookup at `now` decides, given the cache contents.
pub open spec fn decision_of(entries: Seq<CacheEntry>, kid: Seq<char>, now: u64) -> LookupDecision {
    match spec_find(entries, kid) {
        Some(EntryState::Fresh { key, fetched_at }) => if fresh_at(
            fetched_at,
            POSITIVE_TTL_SECS,
            now,
        ) {
            LookupDecision::UseKey(key)
        } else {
            LookupDecision::Fetch
        },
        Some(EntryState::Negative { fetched_at }) => if fresh_at(
            fetched_at,
            NEGATIVE_TTL_SECS,
            now,
        ) {
            LookupDecision::UnknownKey
        } else {
            LookupDecision::Fetch
        },
        Some(EntryState::InFlight) => LookupDecision::Await,
        Some(EntryState::Failed { failed_at }) => if fresh_at(failed_at, FAILURE_TTL_SECS, now) {
            LookupDecision::FetchFailed
        } else {
            LookupDecision::Fetch
        },
        None => LookupDecision::Fetch,
    }
}

/// The entry state a finished fetch installs: the found key, or a negative
/// marker where the fetched set held no key for the id.
pub open spec fn installed_state(key: Option<SigningKey>, now: u64) -> EntryState {
    match key {
        Some(k) => EntryState::Fresh { key: k, fetched_at: now },
        None => EntryState::Negative { fetched_at: now },
    }
}

/// What recording a failed fetch for `kid` at `now` leaves behind: an
/// existing entry — normally the in-flight mark — now holds the shared
/// failure; where none existed the cache is unchanged.
pub open spec fn failure_recorded(pre: KeyCache, post: KeyCache, kid: Seq<char>, now: u64) -> bool {
    &&& (spec_find(pre.entries@, kid) is Some ==> spec_find(post.entries@, kid) == Some(
        EntryState::Failed { failed_at: now },
    ))
    &&& (spec_find(pre.entries@, kid) is None ==> post == pre)
}

impl KeyCache {
    /// One entry per key id.
    pub open spec fn wf(self) -> bool {
        forall|i: int, j: int|
            0 <= i < j < self.entries@.len() ==> self.entries@[i].kid@ != self.entries@[j].kid@
    }

    pub fn new() -> (r: KeyCache)
        ensures
            r.wf(),
            r.entries@.len() == 0,
    {
        KeyCache { entries: Vec::new() }
    }

    /// The index of the entry filed under `kid`, if any.
    fn find_index(&self, kid: &String) -> (r: Option<usize>)
        ensures
            match r {
                Some(i) => i < self.entries@.len() && self.entries@[i as int].kid@ == kid@
                    && forall|j: int| 0 <= j < i ==> self.entries@[j].kid@ != kid@,
                None => forall|j: int|
                    0 <= j < self.entries@.len() ==> self.entries@[j].kid@ != kid@,
            },
    {
        let n = self.entries.len();
        let mut i: usize = 0;
        while i < n
            invariant
                n == self.entries@.len(),
                0 <= i <= n,
                forall|j: int| 0 <= j < i ==> self.entries@[j].kid@ != kid@,
            decreases n - i,
        {
            if self.entries[i].kid == *kid {
                return Some(i);
            }
            i = i + 1;
        }
        None
    }

    /// Look up `kid` at time `now` and decide how to serve it. A fresh
    /// entry answers at once; a miss or expiry marks the id in flight and
    /// asks the caller to fetch; an id already in flight is awaited.
    pub fn begin_lookup(&mut self, kid: &String, now: u64) -> (d: LookupDecision)
        requires
            old(self).wf(),
        ensures
            final(self).wf(),
            d == decision_of(old(self).entries@, kid@, now),
            d is Fetch ==> spec_find(final(self).entries@, kid@) == Some(EntryState::InFlight),
            d is Fetch ==> forall|other: Seq<char>|
                other != kid@ ==> spec_find(final(self).entries@, other) == spec_find(
                    old(self).entries@,
                    other,
                ),
            !(d is Fetch) ==> *final(self) == *old(self),
    {
        match self.find_index(kid) {
            None => {
                proof {
                    lemma_find_at(self.entries@, kid@, self.entries@.len() as int);
                }
                self.mark_in_flight_new(kid);
                LookupDecision::Fetch
            },
            Some(i) => {
                proof {
                    lemma_find_at(self.entries@, kid@, i as int);
                }
                let hit = match &self.entries[i].state {
                    EntryState::Fresh { key, fetched_at } => {
                        if is_fresh(*fetched_at, POSITIVE_TTL_SECS, now) {
                            Some(LookupDecision::UseKey(key.clone()))
                        } else {
                            None
                        }
                    },
                    EntryState::Negative { fetched_at } => {
                        if is_fresh(*fetched_at, NEGATIVE_TTL_SECS, now) {
                            Some(LookupDecision::UnknownKey)
                        } else {
                            None
                        }
                    },
                    EntryState::InFlight => Some(LookupDecision::Await),
                    EntryState::Failed { failed_at } => {
                        if is_fresh(*failed_at, FAILURE_TTL_SECS, now) {
                            Some(LookupDecision::FetchFailed)
                        } else {
                            None
                        }
                    },
                };
                match hit {
                    Some(d) => d,
                    None => {
                        self.set_state(i, kid, EntryState::InFlight);
                        LookupDecision::Fetch
                    },
                }
            },
        }
    }

    /// Install the outcome of a successful fetch for `kid`: the selected
    /// key, or a negative marker where the fetched set held none.
    pub fn install(&mut self, kid: &String, key: Option<SigningKey>, now: u64)
        requires
            old(self).wf(),
        ensures
            final(self).wf(),
            spec_find(final(self).entries@, kid@) == Some(installed_state(key, now)),
            forall|other: Seq<char>|
                other != kid@ ==> spec_find(final(self).entries@, other) == spec_find(
                    old(self).entries@,
                    other,
                ),
    {
        let st = match key {
            Some(k) => EntryState::Fresh { key: k, fetched_at: now },
            None => EntryState::Negative { fetched_at: now },
        };
        match self.find_index(kid) {
            None => {
                proof {
                    lemma_find_at(self.entries@, kid@, self.entries@.len() as int);
                }
                let ghost pre = self.entries@;
                let entry = CacheEntry { kid: kid.clone(), state: st };
                self.entries.push(entry);
                proof {
                    lemma_find_push(pre, entry);
                }
            },
            Some(i) => {
                self.set_state(i, kid, st);
            },
        }
    }

    /// Record at `now` that the fetch for `kid` failed. The failure is the
    /// shared outcome for every caller concurrent with that fetch: within
    /// the short failure window their lookups are answered with it, and
    /// only after the window does a lookup retry.
    pub fn abort_fetch(&mut self, kid: &String, now: u64)
        requires
            old(self).wf(),
        ensures
            final(self).wf(),
            failure_recorded(*old(self), *final(self), kid@, now),
            forall|other: Seq<char>|
                other != kid@ ==> spec_find(final(self).entries@, other) == spec_find(
                    old(self).entries@,
                    other,
                ),
    {
        match self.find_index(kid) {
            None => {
                proof {
                    lemma_find_at(self.entries@, kid@, self.entries@.len() as int);
                }
            },
            Some(i) => {
                proof {
                    lemma_find_at(self.entries@, kid@, i as int);
                }
                self.set_state(i, kid, EntryState::Failed { failed_at: now });
            },
        }
    }

    /// Overwrite the state of the entry at `i`, which is filed under `kid`.
    fn set_state(&mut self, i: usize, kid: &String, st: EntryState)
        requires
            old(self).wf(),
            i < old(self).entries@.len(),
            old(self).entries@[i as int].kid@ == kid@,
            forall|j: int| 0 <= j < i ==> old(self).entries@[j].kid@ != kid@,
        ensures
            final(self).wf(),
            spec_find(final(self).entries@, kid@) == Some(st),
            forall|other: Seq<char>|
                other != kid@ ==> spec_find(final(self).entries@, other) == spec_find(
                    old(self).entries@,
                    other,
                ),
    {
        let ghost pre = self.entries@;
        let entry = CacheEntry { kid: kid.clone(), state: st };
        self.entries[i] = entry;
        proof {
            assert(self.entries@ =~= pre.update(i as int, self.entries@[i as int]));
            lemma_find_update(pre, i as int, self.entries@[i as int]);
            assert(forall|j: int|
                0 <= j < pre.len() ==> self.entries@[j].kid@ == pre[j].kid@);
        }
    }

    /// Complete the fetch this caller was told to perform. A parsed
    /// document installs its outcome for every waiter: the key selected
    /// for `kid`, or a negative entry where the provider publishes no
    /// usable key under `kid`. A failed fetch (`doc` absent) and an
    /// unparsable document reject with `KeySetFetchError` and record that
    /// failure as the shared outcome: lookups within the short failure
    /// window receive it too, and the first one after the window retries.
    pub fn finish_fetch(&mut self, kid: &String, doc: Option<&str>, now: u64) -> (r: Result<
        Option<SigningKey>,
        AuthError,
    >)
        requires
            old(self).wf(),
        ensures
            final(self).wf(),
            forall|other: Seq<char>|
                other != kid@ ==> spec_find(final(self).entries@, other) == spec_find(
                    old(self).entries@,
                    other,
                ),
            match doc {
                None => r == Err::<Option<SigningKey>, AuthError>(AuthError::KeySetFetchError)
                    && failure_recorded(*old(self), *final(self), kid@, now),
                Some(d) => match jwks_of(d@) {
                    None => r == Err::<Option<SigningKey>, AuthError>(
                        AuthError::KeySetFetchError,
                    ) && failure_recorded(*old(self), *final(self), kid@, now),
                    Some(entries) => r matches Ok(k) && key_matches_selection(
                        k,
                        selected_key(entries, kid@),
                        kid@,
                    ) && spec_find(final(self).entries@, kid@) == Some(installed_state(k, now)),
                },
            },
    {
        match doc {
            None => {
                self.abort_fetch(kid, now);
                Err(AuthError::KeySetFetchError)
            },
            Some(d) => {
                if !jwks_parses(d) {
                    self.abort_fetch(kid, now);
                    Err(AuthError::KeySetFetchError)
                } else {
                    let key = key_from_document(d, kid);
                    let out = match &key {
                        Some(k) => Some(k.clone()),
                        None => None,
                    };
                    self.install(kid, key, now);
                    Ok(out)
                }
            },
        }
    }

    /// Add a new in-flight entry for a `kid` the cache has never seen.
    fn mark_in_flight_new(&mut self, kid: &String)
        requires
            old(self).wf(),
            spec_find(old(self).entries@, kid@) is None,
        ensures
            final(self).wf(),
            spec_find(final(self).entries@, kid@) == Some(EntryState::InFlight),
            forall|other: Seq<char>|
                other != kid@ ==> spec_find(final(self).entries@, other) == spec_find(
                    old(self).entries@,
                    other,
                ),
    {
        let ghost pre = self.entries@;
        let entry = CacheEntry { kid: kid.clone(), state: EntryState::InFlight };
        self.entries.push(entry);
        proof {
            lemma_find_push(pre, entry);
        }
    }
}

/// Freshness of a timestamp, computed without overflow.
fn is_fresh(fetched_at: u64, ttl: u64, now: u64) -> (b: bool)
    ensures
        b == fresh_at(fetched_at, ttl, now),
{
    if now >= fetched_at {
        now - fetched_at < ttl
    } else {
        true
    }
}

proof fn lemma_find_at(entries: Seq<CacheEntry>, kid: Seq<char>, i: int)
    requires
        0 <= i <= entries.len(),
        forall|j: int| 0 <= j < i ==> entries[j].kid@ != kid,
    ensures
        i == entries.len() ==> spec_find(entries, kid) is None,
        i < entries.len() && entries[i].kid@ == kid ==> spec_find(entries, kid) == Some(
            entries[i].state,
        ),
    decreases i,
{
    if i > 0 {
        let rest = entries.drop_first();
        assert(forall|j: int| 0 <= j < i - 1 ==> rest[j] == entries[j + 1]);
        lemma_find_at(rest, kid, i - 1);
        if i < entries.len() {
            assert(rest[i - 1] == entries[i]);
        }
    }
}

proof fn lemma_find_update(entries: Seq<CacheEntry>, i: int, e: CacheEntry)
    requires
        0 <= i < entries.len(),
        entries[i].kid@ == e.kid@,
        forall|j: int| 0 <= j < i ==> entries[j].kid@ != e.kid@,
    ensures
        spec_find(entries.update(i, e), e.kid@) == Some(e.state),
        forall|other: Seq<char>|
            other != e.kid@ ==> spec_find(entries.update(i, e), other) == spec_find(
                entries,
                other,
            ),
    decreases i,
{
    let u = entries.update(i, e);
    if i == 0 {
        assert(u[0] == e);
        assert(u.drop_first() =~= entries.drop_first());
        assert(forall|other: Seq<char>|
            other != e.kid@ ==> spec_find(u, other) == spec_find(entries, other)) by {
            assert forall|other: Seq<char>| other != e.kid@ implies spec_find(u, other)
                == spec_find(entries, other) by {
                assert(u[0].kid@ == e.kid@);
                assert(entries[0].kid@ == e.kid@);
            }
        }
    } else {
        assert(u[0] == entries[0]);
        let rest = entries.drop_first();
        assert(u.drop_first() =~= rest.update(i - 1, e));
        assert(forall|j: int| 0 <= j < i - 1 ==> rest[j] == entries[j + 1]);
        assert(rest[i - 1] == entries[i]);
        lemma_find_update(rest, i - 1, e);
        assert(spec_find(u, e.kid@) == Some(e.state));
        assert forall|other: Seq<char>| other != e.kid@ implies spec_find(u, other) == spec_find(
            entries,
            other,
        ) by {
            if entries[0].kid@ != other {
                assert(spec_find(u, other) == spec_find(u.drop_first(), other));
                assert(spec_find(entries, other) == spec_find(rest, other));
            }
        }
    }
}

proof fn lemma_find_push(entries: Seq<CacheEntry>, e: CacheEntry)
    requires
        spec_find(entries, e.kid@) is None,
    ensures
        spec_find(entries.push(e), e.kid@) == Some(e.state),
        forall|other: Seq<char>|
            other != e.kid@ ==> spec_find(entries.push(e), other) == spec_find(entries, other),
        forall|j: int| 0 <= j < entries.len() ==> entries[j].kid@ != e.kid@,
    decreases entries.len(),
{
    let p = entries.push(e);
    if entries.len() == 0 {
        assert(p[0] == e);
        assert(p.drop_first() =~= Seq::<CacheEntry>::empty());
        assert forall|other: Seq<char>| other != e.kid@ implies spec_find(p, other) == spec_find(
            entries,
            other,
        ) by {
            assert(spec_find(p, other) == spec_find(p.drop_first(), other));
        }
    } else {
        assert(entries[0].kid@ != e.kid@);
        assert(p[0] == entries[0]);
        let rest = entries.drop_first();
        assert(p.drop_first() =~= rest.push(e));
        lemma_find_push(rest, e);
        assert(spec_find(p, e.kid@) == Some(e.state));
        assert forall|other: Seq<char>| other != e.kid@ implies spec_find(p, other) == spec_find(
            entries,
            other,
        ) by {
            if entries[0].kid@ != other {
                assert(spec_find(p, other) == spec_find(p.drop_first(), other));
                assert(spec_find(entries, other) == spec_find(rest, other));
            }
        }
        assert forall|j: int| 0 <= j < entries.len() implies entries[j].kid@ != e.kid@ by {
            if j > 0 {
                assert(rest[j - 1] == entries[j]);
            }
        }
    }
}

/// Single flight: while a fetch for `kid` is in flight, every lookup of
/// `kid` — at any time, by any concurrent caller — is told to await that
/// fetch, and none starts a second one. Together with the lookup contract
/// (a lookup answers `Fetch` only by marking the id in flight), N
/// simultaneous misses on one `kid` collapse into exactly one fetch whose
/// installed outcome serves them all.
pub proof fn lemma_single_flight(entries: Seq<CacheEntry>, kid: Seq<char>, now: u64)
    requires
        spec_find(entries, kid) == Some(EntryState::InFlight),
    ensures
        decision_of(entries, kid, now) == LookupDecision::Await,
{
}

/// A fresh positive entry is served directly: no fetch, and the key handed
/// out is exactly the cached one.
pub proof fn lemma_fresh_hit_serves_cached_key(
    entries: Seq<CacheEntry>,
    kid: Seq<char>,
    key: SigningKey,
    fetched_at: u64,
    now: u64,
)
    requires
        spec_find(entries, kid) == Some(EntryState::Fresh { key, fetched_at }),
        fresh_at(fetched_at, POSITIVE_TTL_SECS, now),
    ensures
        decision_of(entries, kid, now) == LookupDecision::UseKey(key),
{
}

/// N simultaneous misses, one fetch: once one lookup has been told to
/// fetch, its contract has marked the id in flight, and then every one of
/// the other callers' lookups — however many, at whatever times — is
/// answered `Await`. An awaited lookup leaves the cache unchanged (also
/// its contract), so the in-flight mark persists across the whole burst
/// until `finish_fetch` records the one fetch's outcome, which then
/// serves every one of them.
pub proof fn lemma_burst_shares_one_fetch(
    entries: Seq<CacheEntry>,
    kid: Seq<char>,
    times: Seq<u64>,
)
    requires
        spec_find(entries, kid) == Some(EntryState::InFlight),
    ensures
        forall|i: int|
            0 <= i < times.len() ==> decision_of(entries, kid, times[i])
                == LookupDecision::Await,
{
}

/// Failure is shared like success: while the recorded failure of the one
/// fetch is fresh, every lookup of `kid` is answered with that failure —
/// none issues a request of its own. After the short window, the next
/// lookup retries.
pub proof fn lemma_failure_shared(
    entries: Seq<CacheEntry>,
    kid: Seq<char>,
    failed_at: u64,
    now: u64,
)
    requires
        spec_find(entries, kid) == Some(EntryState::Failed { failed_at }),
    ensures
        decision_of(entries, kid, now) == if fresh_at(failed_at, FAILURE_TTL_SECS, now) {
            LookupDecision::FetchFailed
        } else {
            LookupDecision::Fetch
        },
{
}

/// Negative caching: within the short negative window, a `kid` the
/// provider does not publish is answered from the cache, so repeated bad
/// tokens trigger no fetch storm.
pub proof fn lemma_negative_window_no_fetch(
    entries: Seq<CacheEntry>,
    kid: Seq<char>,
    fetched_at: u64,
    now: u64,
)
    requires
        spec_find(entries, kid) == Some(EntryState::Negative { fetched_at }),
        fresh_at(fetched_at, NEGATIVE_TTL_SECS, now),
    ensures
        decision_of(entries, kid, now) == LookupDecision::UnknownKey,
{
}

} // verus!
