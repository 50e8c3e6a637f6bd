//! Read-through request cache logic. The durable key-to-bytes store and the
//! network fetch live with the caller; every decision of a cached fetch is
//! taken here, and the store is modelled as a map from keys to bytes.
use vstd::prelude::*;

verus! {

/// The first decision of a read-through fetch.
#[derive(Debug, Clone, PartialEq)]
pub enum FetchStep {
    /// The store holds a usable entry: it is the result, and the fetcher is
    /// not invoked.
    UseCached(Vec<u8>),
    /// No usable entry: invoke the fetcher.
    Fetch,
}

/// The decision after the fetcher returned.
#[derive(Debug, Clone, PartialEq)]
pub enum FetchOutcome {
    /// The fetch succeeded: write the bytes back under the key
    /// (best-effort) and return them.
    StoreAndReturn(Vec<u8>),
    /// The fetch failed: propagate the failure text; nothing is written.
    Fail(String),
}

/// Decide on a cache lookup. `entry` is what the store holds under the key
/// (`None` when absent); `decodes` reports whether the caller could decode
/// the entry into the shape it expects.
pub fn on_lookup(entry: Option<Vec<u8>>, decodes: bool) -> (r: FetchStep)
    ensures
        match entry {
            Some(v) => if decodes {
                r == FetchStep::UseCached(v)
            } else {
                r == FetchStep::Fetch
            },
            None => r == FetchStep::Fetch,
        },
{
    match entry {
        Some(v) => {
            if decodes {
                FetchStep::UseCached(v)
            } else {
                FetchStep::Fetch
            }
        },
        None => FetchStep::Fetch,
    }
}

/// Decide on the fetcher's result: success is returned and written back,
/// failure propagates and writes nothing.
pub fn on_fetched(result: Result<Vec<u8>, String>) -> (r: FetchOutcome)
    ensures
        match result {
            Ok(v) => r == FetchOutcome::StoreAndReturn(v),
            Err(e) => r == FetchOutcome::Fail(e),
        },
{
    match result {
        Ok(v) => FetchOutcome::StoreAndReturn(v),
        Err(e) => FetchOutcome::Fail(e),
    }
}

/// One whole read-through fetch over a store: the result handed to the
/// caller, the store afterwards, and how many times the fetcher ran.
/// `decodes` is whether a present entry decodes for the caller;
/// `fetched` is what the fetcher would return (`None`: it fails).
pub open spec fn spec_fetch(
    store: Map<Seq<char>, Seq<u8>>,
    key: Seq<char>,
    decodes: bool,
    fetched: Option<Seq<u8>>,
) -> (Option<Seq<u8>>, Map<Seq<char>, Seq<u8>>, nat) {
    if store.dom().contains(key) && decodes {
        (Some(store[key]), store, 0nat)
    } else {
        match fetched {
            Some(v) => (Some(v), store.insert(key, v), 1nat),
            None => (None, store, 1nat),
        }
    }
}

/// Law: a fetch whose key is already cached (and decodes) never invokes the
/// fetcher; it returns the cached bytes and leaves the store unchanged.
pub proof fn lemma_hit_never_fetches(
    store: Map<Seq<char>, Seq<u8>>,
    key: Seq<char>,
    fetched: Option<Seq<u8>>,
)
    requires
        store.dom().contains(key),
    ensures
        spec_fetch(store, key, true, fetched) == (Some(store[key]), store, 0nat),
{
}

/// Law: a fetch for an absent key invokes the fetcher exactly once; when the
/// fetch succeeds the bytes are cached, and a subsequent fetch for the same
/// key returns those bytes without invoking its fetcher — even one that
/// would fail.
pub proof fn lemma_miss_fetches_once_then_cached(
    store: Map<Seq<char>, Seq<u8>>,
    key: Seq<char>,
    decodes: bool,
    v: Seq<u8>,
    later: Option<Seq<u8>>,
)
    requires
        !store.dom().contains(key),
    ensures
        spec_fetch(store, key, decodes, Some(v)) == (
            Some(v),
            store.insert(key, v),
            1nat,
        ),
        spec_fetch(store.insert(key, v), key, true, later) == (
            Some(v),
            store.insert(key, v),
            0nat,
        ),
{
}

/// Law: a failed fetch caches nothing and propagates the failure.
pub proof fn lemma_failed_fetch_writes_nothing(
    store: Map<Seq<char>, Seq<u8>>,
    key: Seq<char>,
    decodes: bool,
)
    requires
        !store.dom().contains(key),
    ensures
        spec_fetch(store, key, decodes, None) == (None::<Seq<u8>>, store, 1nat),
{
}

/// Per-caller cancellation for image fetches. Each new request invalidates
/// the token of the previous in-flight fetch; a finished fetch may write its
/// bytes to the cache only while its token is still the current one.
pub struct ImageLoader {
    pub generation: u64,
}

impl ImageLoader {
    pub fn new() -> (r: ImageLoader)
        ensures
            r.generation == 0,
    {
        ImageLoader { generation: 0 }
    }

    /// Start a request for a new key: any earlier token goes stale, and the
    /// fresh token is handed to the new fetch.
    pub fn request(&mut self) -> (token: u64)
        requires
            old(self).generation < u64::MAX,
        ensures
            final(self).generation == old(self).generation + 1,
            token == final(self).generation,
    {
        self.generation = self.generation + 1;
        self.generation
    }

    /// Whether a finished fetch holding `token` may commit its result.
    pub fn may_commit(&self, token: u64) -> (r: bool)
        ensures
            r == (token == self.generation),
    {
        token == self.generation
    }
}

/// The store after a finished fetch tries to commit: unchanged unless the
/// commit was permitted.
pub open spec fn spec_commit(
    store: Map<Seq<char>, Seq<u8>>,
    key: Seq<char>,
    bytes: Seq<u8>,
    permitted: bool,
) -> Map<Seq<char>, Seq<u8>> {
    if permitted {
        store.insert(key, bytes)
    } else {
        store
    }
}

/// Law: a fetch for one key that was superseded by a request for another key
/// before it resolved cannot write to the cache: its token is stale, so the
/// commit leaves the store — in particular the superseded key — unchanged.
pub proof fn lemma_cancelled_fetch_writes_nothing(
    generation: u64,
    store: Map<Seq<char>, Seq<u8>>,
    key: Seq<char>,
    bytes: Seq<u8>,
)
    requires
        generation + 2 <= u64::MAX,
    ensures
        ({
            let stale_token = generation + 1;
            let current = (generation + 2) as u64;
            spec_commit(store, key, bytes, stale_token == current) == store
        }),
{
}

} // verus!
