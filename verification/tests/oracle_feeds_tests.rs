use igra::oracle_feeds::{cache_entry_is_live, feed_is_fresh, FEED_MAX_AGE_SECONDS};

#[test]
fn feed_freshness_window() {
    // Updated at 1000: fresh for an hour, inclusive.
    assert!(feed_is_fresh(1000, 1000 + 3600, 3600));
    assert!(!feed_is_fresh(1000, 1000 + 7200, 3600));
    assert!(feed_is_fresh(1000, 1000, 0));
}

#[test]
fn never_updated_feed_is_stale() {
    assert!(!feed_is_fresh(0, 0, 3600));
    assert!(!feed_is_fresh(0, 10, u64::MAX));
}

#[test]
fn cache_entries_expire_at_ttl() {
    assert!(cache_entry_is_live(1000, 1000 + 1800, 3600));
    assert!(!cache_entry_is_live(1000, 1000 + 3600, 3600));
    assert!(!cache_entry_is_live(1000, 1000, 0));
}

#[test]
fn feed_max_age_is_a_day() {
    assert_eq!(FEED_MAX_AGE_SECONDS, 86_400);
    assert!(feed_is_fresh(1, 1 + FEED_MAX_AGE_SECONDS, FEED_MAX_AGE_SECONDS));
}

use igra::oracle_feeds::{CachedIndices, IndicesCache};

fn entry(at: u64) -> CachedIndices {
    CachedIndices {
        hashrate_bits: 1.0f64.to_bits(),
        energy_bits: 1.5f64.to_bits(),
        fees_bits: 0.5f64.to_bits(),
        adoption_bits: 2.0f64.to_bits(),
        cached_at_seconds: at,
    }
}

#[test]
fn cache_serves_entry_within_ttl() {
    let mut cache = IndicesCache::new();
    assert_eq!(cache.size(), 0);
    assert_eq!(cache.lookup(1000, 3600), None);
    cache.store(entry(1000));
    assert_eq!(cache.size(), 1);
    assert_eq!(cache.lookup(1000 + 1800, 3600), Some(entry(1000)));
    assert_eq!(cache.lookup(1000 + 3600, 3600), None);
    let hit = cache.lookup(1001, 3600).unwrap();
    assert_eq!(f64::from_bits(hit.energy_bits), 1.5);
}

#[test]
fn cache_clear_empties_it() {
    let mut cache = IndicesCache::new();
    cache.store(entry(5));
    cache.store(entry(7));
    assert_eq!(cache.size(), 1);
    assert_eq!(cache.lookup(7, 10), Some(entry(7)));
    cache.clear();
    assert_eq!(cache.size(), 0);
    assert_eq!(cache.lookup(7, 10), None);
}
