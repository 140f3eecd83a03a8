//! The lookup cache: ticker symbols resolved to CIKs.
//!
//! The in-memory layer is a `moka` cache, bounded in size and in the life of
//! its entries. It is a pure performance layer: it may drop any entry at any
//! time, and what it returns is always an entry of the dataset that it was
//! populated from.

use crate::errors::{FetchError, LookupError};
use crate::text::{chars_of, string_of, to_upper, upper};
use crate::tickers::{
    dataset, lemma_table_map, lookup_in, pairs_of, parse_ticker_data, table_lookup, table_map,
    TickerEntry,
};
use vstd::map_lib::lemma_submap_of_trans;
use vstd::prelude::*;
use vstd::string::StringExecFns;

verus! {

#[verifier::external_type_specification]
#[verifier::external_body]
#[verifier::reject_recursive_types(K)]
#[verifier::reject_recursive_types(V)]
#[verifier::reject_recursive_types(S)]
pub struct ExCache<K, V, S>(moka::sync::Cache<K, V, S>);

/// The entries that a `moka` cache would have returned when it was last
/// used: of what was inserted, the part that was neither evicted nor had
/// expired.
pub uninterp spec fn cached(cache: moka::sync::Cache<String, String>) -> Map<
    Seq<char>,
    Seq<char>,
>;

/// The map without entries.
pub open spec fn no_entries() -> Map<Seq<char>, Seq<char>> {
    Map::empty()
}

/// The longest time to live that `moka` accepts: a thousand years, in
/// seconds.
pub const MAX_TTL_SECS: u64 = 31_536_000_000;

/// Builds a cache with `CacheBuilder::max_capacity`, `time_to_live` and
/// `build`. The builder panics on a time to live of more than a thousand
/// years, which `requires` leaves out. A new cache holds nothing.
#[verifier::external_body]
fn cache_new(max_capacity: u64, ttl_secs: u64) -> (r: moka::sync::Cache<String, String>)
    requires
        ttl_secs <= MAX_TTL_SECS,
    ensures
        cached(r) == no_entries(),
{
    moka::sync::Cache::builder().max_capacity(max_capacity).time_to_live(
        std::time::Duration::from_secs(ttl_secs),
    ).build()
}

/// `Cache::get`: a clone of the value cached for the key, if the cache
/// returns one. A value that comes back is one that the cache held. The
/// cache may have dropped entries on the way, and holds no more than before;
/// where nothing comes back, it does not hold the key.
#[verifier::external_body]
fn cache_get(cache: &mut moka::sync::Cache<String, String>, key: &str) -> (r: Option<String>)
    ensures
        r matches Some(v) ==> cached(*old(cache)).contains_pair(key@, v@),
        r is None ==> !cached(*final(cache)).contains_key(key@),
        cached(*final(cache)).submap_of(cached(*old(cache))),
{
    cache.get(key)
}

/// `Cache::insert`: inserts the pair, replacing the value of a key that is
/// present. The cache may refuse or evict entries, the new one too: what it
/// holds afterwards is part of what it held plus the new pair.
#[verifier::external_body]
fn cache_insert(cache: &mut moka::sync::Cache<String, String>, key: String, value: String)
    ensures
        cached(*final(cache)).submap_of(cached(*old(cache)).insert(key@, value@)),
{
    cache.insert(key, value)
}

/// `Cache::invalidate_all`: marks the entries that were inserted before the
/// call as invalid. The cache compares the instants of its clock, so an entry
/// that was inserted at the very instant of the call may stay: the contract
/// says only that the cache holds no more than before.
#[verifier::external_body]
fn cache_clear(cache: &mut moka::sync::Cache<String, String>)
    ensures
        cached(*final(cache)).submap_of(cached(*old(cache))),
{
    cache.invalidate_all()
}

/// `Cache::entry_count`: an estimate of the number of entries. Nothing is
/// promised of it.
#[verifier::external_body]
fn cache_entry_count(cache: &moka::sync::Cache<String, String>) -> u64 {
    cache.entry_count()
}

/// A map that is part of another is still part of it when the same entry is
/// put into both.
proof fn lemma_insert_keeps_submap(
    a: Map<Seq<char>, Seq<char>>,
    b: Map<Seq<char>, Seq<char>>,
    key: Seq<char>,
    value: Seq<char>,
)
    requires
        a.submap_of(b),
    ensures
        a.insert(key, value).submap_of(b.insert(key, value)),
{
    assert forall|k: Seq<char>| #[trigger] a.insert(key, value).dom().contains(k) implies b.insert(
        key,
        value,
    ).dom().contains(k) && a.insert(key, value)[k] == b.insert(key, value)[k] by {
        if k != key {
            assert(a.dom().contains(k));
        }
    }
}

/// Whether `ticker` is one of `keys` in upper case.
pub open spec fn names_key(ticker: Seq<char>, keys: Seq<String>) -> bool {
    exists|j: int| 0 <= j < keys.len() && ticker == upper(#[trigger] keys[j]@)
}

/// Whether `r` is what resolving `key` gives where the cache was populated
/// with `before` and afterwards with `after`. A CIK that comes back is the
/// one that the cache is populated with for the ticker in upper case:
/// either the cache had it and nothing changed, or the dataset was fetched,
/// holds it, and was put into the cache. A ticker that the fetched dataset
/// does not hold is not found, the dataset being in the cache all the same.
/// A failure to fetch, and a dataset without entries, leave the cache as it
/// was.
pub open spec fn is_resolution<F: Fn() -> Result<String, FetchError>>(
    before: Map<Seq<char>, Seq<char>>,
    after: Map<Seq<char>, Seq<char>>,
    key: Seq<char>,
    fetch: F,
    r: Result<String, LookupError>,
) -> bool {
    match r {
        Ok(cik) => {
            &&& after.contains_pair(upper(key), cik@)
            &&& after == before || exists|text: String|
                {
                    &&& fetch.ensures((), Ok(text))
                    &&& table_lookup(dataset(text@), upper(key)) == Some(cik@)
                    &&& after == before.union_prefer_right(table_map(dataset(text@)))
                }
        },
        Err(LookupError::NotFound(m)) => {
            &&& m@ == "Ticker not found: "@ + upper(key)
            &&& exists|text: String|
                {
                    &&& fetch.ensures((), Ok(text))
                    &&& table_lookup(dataset(text@), upper(key)) is None
                    &&& after == before.union_prefer_right(table_map(dataset(text@)))
                }
        },
        Err(LookupError::Fetch(e)) => fetch.ensures((), Err(e)) && after == before,
        Err(LookupError::EmptyDataset) => {
            &&& after == before
            &&& exists|text: String| fetch.ensures((), Ok(text)) && dataset(text@).len() == 0
        },
    }
}

/// Whether `r` is what taking in the dataset `text` after a miss on `key`
/// gives, where the cache was populated with `before` and afterwards with
/// `after`. A dataset without entries is refused and changes nothing. Any
/// other dataset is put into the cache, and the result is the CIK that it
/// holds for the ticker in upper case, or a not-found error where it holds
/// none.
pub open spec fn is_absorption(
    before: Map<Seq<char>, Seq<char>>,
    after: Map<Seq<char>, Seq<char>>,
    key: Seq<char>,
    text: Seq<char>,
    r: Result<String, LookupError>,
) -> bool {
    if dataset(text).len() == 0 {
        r matches Err(LookupError::EmptyDataset) && after == before
    } else {
        &&& after == before.union_prefer_right(table_map(dataset(text)))
        &&& match table_lookup(dataset(text), upper(key)) {
            Some(cik) => r matches Ok(c) && c@ == cik,
            None => r matches Err(LookupError::NotFound(m)) && m@ == "Ticker not found: "@
                + upper(key),
        }
    }
}

/// The pairs of a list of pairs of strings.
pub open spec fn pair_views(pairs: Seq<(String, String)>) -> Seq<(Seq<char>, Seq<char>)> {
    Seq::new(pairs.len(), |i: int| (pairs[i].0@, pairs[i].1@))
}

/// The keys that were resolved, each in upper case with its CIK, in order:
/// `outcomes[i]` is what resolving `keys[i]` gave.
pub open spec fn resolved(keys: Seq<String>, outcomes: Seq<Result<String, LookupError>>) -> Seq<
    (Seq<char>, Seq<char>),
>
    decreases outcomes.len(),
{
    if outcomes.len() == 0 || keys.len() < outcomes.len() {
        Seq::empty()
    } else {
        match outcomes.last() {
            Ok(cik) => resolved(keys, outcomes.drop_last()).push(
                (upper(keys[outcomes.len() - 1]@), cik@),
            ),
            Err(_) => resolved(keys, outcomes.drop_last()),
        }
    }
}

/// Whether `pairs` is what resolving `keys` one after the other gives:
/// `outcomes[i]` is what resolving `keys[i]` gave, on a cache that was
/// populated with `states[i]` before and with `states[i + 1]` after; the
/// first state is `before` and the last is `after`; and `pairs` holds the
/// keys that were resolved.
pub open spec fn is_batch<F: Fn() -> Result<String, FetchError>>(
    before: Map<Seq<char>, Seq<char>>,
    after: Map<Seq<char>, Seq<char>>,
    keys: Seq<String>,
    fetch: F,
    states: Seq<Map<Seq<char>, Seq<char>>>,
    outcomes: Seq<Result<String, LookupError>>,
    pairs: Seq<(String, String)>,
) -> bool {
    &&& outcomes.len() == keys.len()
    &&& states.len() == keys.len() + 1
    &&& states[0] == before
    &&& states.last() == after
    &&& forall|i: int|
        0 <= i < keys.len() ==> is_resolution(
            states[i],
            states[i + 1],
            keys[i]@,
            fetch,
            #[trigger] outcomes[i],
        )
    &&& pair_views(pairs) == resolved(keys, outcomes)
}

/// The number of entries that the ticker cache holds at most.
pub const TICKER_CACHE_CAP: u64 = 10_000;

/// The time that an entry of the ticker cache lives: 24 hours, in seconds.
pub const TICKER_CACHE_TTL_SECS: u64 = 86_400;

/// Concurrent, capacity-bounded, TTL-evicting cache from ticker to CIK.
pub struct LookupCache {
    memory: moka::sync::Cache<String, String>,
    source: Ghost<Map<Seq<char>, Seq<char>>>,
}

impl LookupCache {
    /// The cache holds nothing but entries that it was populated with.
    pub closed spec fn wf(&self) -> bool {
        cached(self.memory).submap_of(self.source@)
    }

    /// The entries that the cache was populated with, a later one replacing
    /// an earlier one of the same ticker. What the cache returns is always
    /// one of these.
    pub closed spec fn known(&self) -> Map<Seq<char>, Seq<char>> {
        self.source@
    }

    /// The entries that the cache itself holds: of what it was populated
    /// with, the part that it has neither evicted nor let expire.
    pub closed spec fn held(&self) -> Map<Seq<char>, Seq<char>> {
        cached(self.memory)
    }

    /// An empty cache of at most `capacity` entries that each live for
    /// `ttl_secs` seconds, which must not be more than a thousand years.
    pub fn new(capacity: u64, ttl_secs: u64) -> (r: LookupCache)
        requires
            ttl_secs <= MAX_TTL_SECS,
        ensures
            r.wf(),
            r.known() == no_entries(),
    {
        LookupCache { memory: cache_new(capacity, ttl_secs), source: Ghost(Map::empty()) }
    }

    /// An empty cache of at most 10,000 entries that each live for 24 hours.
    pub fn with_defaults() -> (r: LookupCache)
        ensures
            r.wf(),
            r.known() == no_entries(),
    {
        LookupCache::new(TICKER_CACHE_CAP, TICKER_CACHE_TTL_SECS)
    }

    /// Puts one entry into the cache. The cache may refuse or evict
    /// entries, the new one too: what it holds afterwards is part of what it
    /// held plus the new entry.
    pub fn insert(&mut self, ticker: &str, cik: &str)
        requires
            old(self).wf(),
        ensures
            final(self).wf(),
            final(self).known() == old(self).known().insert(ticker@, cik@),
            final(self).held().submap_of(old(self).held().insert(ticker@, cik@)),
    {
        let ghost before = self.source@;
        let ghost held = cached(self.memory);
        cache_insert(&mut self.memory, String::from_str(ticker), String::from_str(cik));
        self.source = Ghost(before.insert(ticker@, cik@));
        proof {
            let now = cached(self.memory);
            assert forall|k: Seq<char>| #[trigger] now.dom().contains(k) implies self.source@.dom().contains(
                k,
            ) && now[k] == self.source@[k] by {
                assert(held.insert(ticker@, cik@).dom().contains(k));
                if k != ticker@ {
                    assert(held.dom().contains(k));
                }
            }
        }
    }

    /// Populates the cache with every entry of the dataset, in order. What
    /// the cache holds afterwards is part of what it held plus the dataset.
    pub fn populate(&mut self, entries: &Vec<TickerEntry>)
        requires
            old(self).wf(),
        ensures
            final(self).wf(),
            final(self).known() == old(self).known().union_prefer_right(
                table_map(pairs_of(entries@)),
            ),
            final(self).held().submap_of(
                old(self).held().union_prefer_right(table_map(pairs_of(entries@))),
            ),
    {
        let mut i: usize = 0;
        assert(pairs_of(entries@).take(0) =~= Seq::<(Seq<char>, Seq<char>)>::empty());
        assert(self.known() =~= old(self).known().union_prefer_right(
            table_map(pairs_of(entries@).take(0)),
        ));
        while i < entries.len()
            invariant
                i <= entries.len(),
                self.wf(),
                self.known() == old(self).known().union_prefer_right(
                    table_map(pairs_of(entries@).take(i as int)),
                ),
                self.held().submap_of(
                    old(self).held().union_prefer_right(
                        table_map(pairs_of(entries@).take(i as int)),
                    ),
                ),
            decreases entries.len() - i,
        {
            let ghost held_before = self.held();
            let ghost part = table_map(pairs_of(entries@).take(i as int));
            proof {
                let all = pairs_of(entries@);
                assert(all.take(i + 1).drop_last() == all.take(i as int));
                assert(all.take(i + 1).last() == (entries@[i as int].ticker@, entries@[i as int].cik@));
            }
            self.insert(entries[i].ticker.as_str(), entries[i].cik.as_str());
            assert(self.known() =~= old(self).known().union_prefer_right(
                table_map(pairs_of(entries@).take(i + 1)),
            ));
            proof {
                let t = entries@[i as int].ticker@;
                let c = entries@[i as int].cik@;
                let next = table_map(pairs_of(entries@).take(i + 1));
                assert(next == part.insert(t, c));
                let earlier = old(self).held().union_prefer_right(part);
                lemma_insert_keeps_submap(held_before, earlier, t, c);
                assert(earlier.insert(t, c) =~= old(self).held().union_prefer_right(next));
                lemma_submap_of_trans(
                    self.held(),
                    held_before.insert(t, c),
                    earlier.insert(t, c),
                );
            }
            i += 1;
        }
        assert(pairs_of(entries@).take(entries.len() as int) == pairs_of(entries@));
    }

    /// Looks `key` up in the cache alone, without regard to ASCII case. A
    /// value that comes back is the one that the cache held for the ticker in
    /// upper case, which is the one that it was populated with. Whether a
    /// value comes back is for the cache to decide: it may have dropped the
    /// entry, and afterwards it holds no more than before. Where nothing
    /// comes back, the cache does not hold the ticker.
    pub fn lookup(&mut self, key: &str) -> (r: Option<String>)
        requires
            old(self).wf(),
        ensures
            final(self).wf(),
            final(self).known() == old(self).known(),
            final(self).held().submap_of(old(self).held()),
            r matches Some(v) ==> old(self).held().contains_pair(upper(key@), v@),
            r matches Some(v) ==> old(self).known().contains_pair(upper(key@), v@),
            r is None ==> !final(self).held().contains_key(upper(key@)),
    {
        let ticker = string_of(&to_upper(&chars_of(key)));
        let ghost held = cached(self.memory);
        let r = cache_get(&mut self.memory, ticker.as_str());
        proof {
            lemma_submap_of_trans(cached(self.memory), held, self.source@);
            if r is Some {
                assert(held.dom().contains(upper(key@)));
            }
        }
        r
    }

    /// Takes in the text of the source dataset after a miss on `key`: parses
    /// it, populates the cache with all of its entries, and returns the entry
    /// for `key`, without regard to ASCII case, or a not-found error where
    /// the dataset has none. A dataset without entries is refused and leaves
    /// the cache as it was.
    pub fn absorb(&mut self, key: &str, text: &str) -> (r: Result<String, LookupError>)
        requires
            old(self).wf(),
        ensures
            final(self).wf(),
            is_absorption(old(self).known(), final(self).known(), key@, text@, r),
            final(self).held().submap_of(
                old(self).held().union_prefer_right(table_map(dataset(text@))),
            ),
    {
        let entries = match parse_ticker_data(text) {
            Ok(entries) => entries,
            Err(e) => {
                assert(self.held().submap_of(
                    self.held().union_prefer_right(table_map(dataset(text@))),
                )) by {
                    assert(table_map(dataset(text@)) =~= no_entries());
                    assert(self.held().union_prefer_right(no_entries()) =~= self.held());
                }
                return Err(e);
            },
        };
        self.populate(&entries);
        let ticker = string_of(&to_upper(&chars_of(key)));
        match lookup_in(&entries, ticker.as_str()) {
            Some(cik) => Ok(cik.clone()),
            None => {
                let mut message = String::from_str("Ticker not found: ");
                message.append(ticker.as_str());
                Err(LookupError::NotFound(message))
            },
        }
    }

    /// Resolves `key` to its CIK, without regard to ASCII case. The cache is
    /// asked first, and on a hit the cached value is returned and `fetch` is
    /// not called. On a miss the source dataset is fetched, once, and taken
    /// in as [`LookupCache::absorb`] does. Where resolving fails, the cache
    /// does not hold the key afterwards.
    pub fn resolve<F>(&mut self, key: &str, fetch: F) -> (r: Result<String, LookupError>) where
        F: Fn() -> Result<String, FetchError>,
        requires
            old(self).wf(),
            fetch.requires(()),
        ensures
            final(self).wf(),
            is_resolution(old(self).known(), final(self).known(), key@, fetch, r),
            r is Err ==> !final(self).held().contains_key(upper(key@)),
    {
        match self.lookup(key) {
            Some(cik) => {
                return Ok(cik);
            },
            None => {},
        }
        let ghost missed = self.held();
        let text = match fetch() {
            Ok(t) => t,
            Err(e) => {
                return Err(LookupError::Fetch(e));
            },
        };
        let r = self.absorb(key, text.as_str());
        proof {
            lemma_table_map(dataset(text@), upper(key@));
            if r is Err {
                let bound = missed.union_prefer_right(table_map(dataset(text@)));
                if dataset(text@).len() == 0 {
                    assert(table_map(dataset(text@)) =~= no_entries());
                }
                assert(!bound.dom().contains(upper(key@)));
                if self.held().dom().contains(upper(key@)) {
                    assert(bound.dom().contains(upper(key@)));
                }
            }
        }
        r
    }

    /// Resolves every key, one after the other, as [`LookupCache::resolve`]
    /// does, and returns the ones that were resolved, in the order of the
    /// keys: the ticker in upper case with its CIK. A key that cannot be
    /// resolved is left out.
    pub fn resolve_many<F>(&mut self, keys: &Vec<String>, fetch: F) -> (r: Vec<
        (String, String),
    >) where F: Fn() -> Result<String, FetchError>
        requires
            old(self).wf(),
            fetch.requires(()),
        ensures
            final(self).wf(),
            exists|states: Seq<Map<Seq<char>, Seq<char>>>, outcomes: Seq<Result<String, LookupError>>|
                is_batch(
                    old(self).known(),
                    final(self).known(),
                    keys@,
                    fetch,
                    states,
                    outcomes,
                    r@,
                ),
            r@.len() <= keys@.len(),
            forall|i: int| 0 <= i < r@.len() ==> names_key((#[trigger] r@[i]).0@, keys@),
    {
        let mut out: Vec<(String, String)> = Vec::new();
        let mut i: usize = 0;
        let ghost mut states: Seq<Map<Seq<char>, Seq<char>>> = seq![self.known()];
        let ghost mut outcomes: Seq<Result<String, LookupError>> = Seq::empty();
        assert(pair_views(out@) =~= Seq::<(Seq<char>, Seq<char>)>::empty());
        while i < keys.len()
            invariant
                i <= keys.len(),
                self.wf(),
                fetch.requires(()),
                out@.len() <= i,
                forall|k: int| 0 <= k < out@.len() ==> names_key((#[trigger] out@[k]).0@, keys@),
                outcomes.len() == i,
                states.len() == i + 1,
                states[0] == old(self).known(),
                states[i as int] == self.known(),
                forall|j: int|
                    0 <= j < i ==> is_resolution(
                        states[j],
                        states[j + 1],
                        keys@[j]@,
                        fetch,
                        #[trigger] outcomes[j],
                    ),
                pair_views(out@) == resolved(keys@, outcomes),
            decreases keys.len() - i,
        {
            let ghost earlier_states = states;
            let ghost earlier_outcomes = outcomes;
            let ghost listed = pair_views(out@);
            let result = self.resolve(keys[i].as_str(), &fetch);
            proof {
                states = earlier_states.push(self.known());
                outcomes = earlier_outcomes.push(result);
                assert(outcomes.drop_last() == earlier_outcomes);
                assert(is_resolution(
                    earlier_states[i as int],
                    self.known(),
                    keys@[i as int]@,
                    fetch,
                    result,
                ));
                assert forall|j: int| 0 <= j < i + 1 implies is_resolution(
                    states[j],
                    states[j + 1],
                    keys@[j]@,
                    fetch,
                    #[trigger] outcomes[j],
                ) by {
                    if j < i {
                        assert(outcomes[j] == earlier_outcomes[j]);
                        assert(states[j] == earlier_states[j]);
                        assert(states[j + 1] == earlier_states[j + 1]);
                    }
                }
            }
            match result {
                Ok(cik) => {
                    let ticker = string_of(&to_upper(&chars_of(keys[i].as_str())));
                    assert(names_key(ticker@, keys@)) by {
                        assert(ticker@ == upper(keys@[i as int]@));
                    }
                    let ghost pair = (ticker@, cik@);
                    out.push((ticker, cik));
                    assert(pair_views(out@) =~= listed.push(pair));
                },
                Err(_) => {},
            }
            i += 1;
        }
        assert(is_batch(old(self).known(), self.known(), keys@, fetch, states, outcomes, out@));
        out
    }

    /// An estimate of the number of entries in the cache.
    pub fn cache_size(&self) -> u64 {
        cache_entry_count(&self.memory)
    }

    /// Discards the entries that were put in before the call. The cache
    /// tells them by the instants of its clock, so an entry that was put in
    /// at the very instant of the call may stay: what is promised is that the
    /// cache holds no more than before. What the cache was populated with is
    /// still known.
    pub fn clear_cache(&mut self)
        requires
            old(self).wf(),
        ensures
            final(self).wf(),
            final(self).held().submap_of(old(self).held()),
            final(self).known() == old(self).known(),
    {
        let ghost held = cached(self.memory);
        cache_clear(&mut self.memory);
        proof {
            lemma_submap_of_trans(cached(self.memory), held, self.source@);
        }
    }
}

/// Cache hit equals fresh fetch. Whatever a cache holds that was populated
/// from a dataset, and from nothing else, is what a lookup in the freshly
/// parsed dataset gives for the same key.
pub proof fn lemma_hit_equals_fresh_parse(
    entries: Seq<(Seq<char>, Seq<char>)>,
    key: Seq<char>,
    value: Seq<char>,
)
    requires
        no_entries().union_prefer_right(table_map(entries)).contains_pair(key, value),
    ensures
        table_lookup(entries, key) == Some(value),
{
    lemma_table_map(entries, key);
}

} // verus!
