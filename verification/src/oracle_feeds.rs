//! Freshness rules of the oracle feeds (energy price, adoption metric, Kaspa
//! network state) and of their cached indices. The feeds' values are binary64
//! numbers; the timing rules and the cache of computed indices are integer
//! logic over their bit patterns.
use vstd::prelude::*;

verus! {

/// Oldest acceptable feed data, in seconds, when all four indices are fetched.
pub const FEED_MAX_AGE_SECONDS: u64 = 86_400;

/// A feed updated at `last_updated_seconds` is fresh at `now` when it has been
/// updated at all (a zero time means never) and is at most `max_age_seconds`
/// old. The update may not be later than `now`.
pub fn feed_is_fresh(last_updated_seconds: u64, now_seconds: u64, max_age_seconds: u64) -> (r: bool)
    requires
        last_updated_seconds == 0 || last_updated_seconds <= now_seconds,
    ensures
        r == (last_updated_seconds != 0 && now_seconds - last_updated_seconds <= max_age_seconds),
{
    if last_updated_seconds == 0 {
        return false;
    }
    (now_seconds - last_updated_seconds) <= max_age_seconds
}

/// Cached indices computed at `cached_at_seconds` may be served at `now` while
/// they are younger than the cache's time to live. The cache time may not be
/// later than `now`.
pub fn cache_entry_is_live(cached_at_seconds: u64, now_seconds: u64, ttl_seconds: u64) -> (r: bool)
    requires
        cached_at_seconds <= now_seconds,
    ensures
        r == (now_seconds - cached_at_seconds < ttl_seconds),
{
    (now_seconds - cached_at_seconds) < ttl_seconds
}

/// The four peg indices as binary64 bit patterns, and when they were computed.
#[derive(Debug, Clone, Copy, PartialEq, Eq, Structural)]
pub struct CachedIndices {
    pub hashrate_bits: u64,
    pub energy_bits: u64,
    pub fees_bits: u64,
    pub adoption_bits: u64,
    pub cached_at_seconds: u64,
}

/// The cache of the last computed peg indices. It holds at most one entry, is
/// served while younger than its time to live, and is emptied whenever a feed
/// is updated.
pub struct IndicesCache {
    entry: Option<CachedIndices>,
}

impl IndicesCache {
    pub closed spec fn entry_spec(&self) -> Option<CachedIndices> {
        self.entry
    }

    /// An empty cache.
    pub fn new() -> (r: IndicesCache)
        ensures
            r.entry_spec() is None,
    {
        IndicesCache { entry: None }
    }

    /// The cached indices when an entry exists and is still live at `now`
    /// under `ttl_seconds`; `None` otherwise. The entry may not be later than
    /// `now`.
    pub fn lookup(&self, now_seconds: u64, ttl_seconds: u64) -> (r: Option<CachedIndices>)
        requires
            self.entry_spec() matches Some(e) ==> e.cached_at_seconds <= now_seconds,
        ensures
            r == match self.entry_spec() {
                Some(e) => if now_seconds - e.cached_at_seconds < ttl_seconds {
                    Some(e)
                } else {
                    None::<CachedIndices>
                },
                None => None::<CachedIndices>,
            },
    {
        match self.entry {
            Some(e) => {
                if cache_entry_is_live(e.cached_at_seconds, now_seconds, ttl_seconds) {
                    Some(e)
                } else {
                    None
                }
            },
            None => None,
        }
    }

    /// The entry, if any.
    pub fn entry(&self) -> (r: Option<CachedIndices>)
        ensures
            r == self.entry_spec(),
    {
        self.entry
    }

    /// Replaces the entry.
    pub fn store(&mut self, entry: CachedIndices)
        ensures
            final(self).entry_spec() == Some(entry),
    {
        self.entry = Some(entry);
    }

    /// Empties the cache.
    pub fn clear(&mut self)
        ensures
            final(self).entry_spec() is None,
    {
        self.entry = None;
    }

    /// Number of cached entries (0 or 1).
    pub fn size(&self) -> (r: usize)
        ensures
            r == if self.entry_spec() is Some {
                1usize
            } else {
                0usize
            },
    {
        if self.entry.is_some() {
            1
        } else {
            0
        }
    }
}

} // verus!
