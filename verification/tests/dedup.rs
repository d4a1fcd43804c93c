use ticker_hub::dedup::{CacheReply, DedupCache, DEDUP_TTL_SECONDS};

#[test]
fn window_is_twenty_seconds() {
    assert_eq!(DEDUP_TTL_SECONDS, 20);
}

#[test]
fn first_set_finds_nothing_and_writes() {
    let mut cache = DedupCache::new();
    assert_eq!(cache.check_and_set("k", "1", 100, 20), CacheReply::Absent);
    assert_eq!(cache.get("k", 100), CacheReply::Present("1".to_string()));
    assert_eq!(cache.expires_at("k"), Some(120));
}

#[test]
fn second_set_in_the_window_finds_the_first_value_and_writes_nothing() {
    let mut cache = DedupCache::new();
    cache.check_and_set("k", "1", 100, 20);
    assert_eq!(cache.check_and_set("k", "2", 105, 20), CacheReply::Present("1".to_string()));
    assert_eq!(cache.get("k", 105), CacheReply::Present("1".to_string()));
    assert_eq!(cache.expires_at("k"), Some(120));
}

#[test]
fn entry_lives_up_to_the_last_second_of_its_window() {
    let mut cache = DedupCache::new();
    cache.check_and_set("k", "1", 100, 20);
    assert_eq!(cache.get("k", 119), CacheReply::Present("1".to_string()));
    assert_eq!(cache.get("k", 120), CacheReply::Absent);
    assert_eq!(cache.check_and_set("k", "2", 119, 20), CacheReply::Present("1".to_string()));
    assert_eq!(cache.check_and_set("k", "2", 120, 20), CacheReply::Absent);
    assert_eq!(cache.get("k", 120), CacheReply::Present("2".to_string()));
    assert_eq!(cache.expires_at("k"), Some(140));
}

#[test]
fn keys_do_not_touch_each_other() {
    let mut cache = DedupCache::new();
    assert_eq!(cache.check_and_set("a", "1", 0, 20), CacheReply::Absent);
    assert_eq!(cache.check_and_set("b", "2", 5, 20), CacheReply::Absent);
    assert_eq!(cache.get("a", 10), CacheReply::Present("1".to_string()));
    assert_eq!(cache.get("b", 10), CacheReply::Present("2".to_string()));
    assert_eq!(cache.get("a", 20), CacheReply::Absent);
    assert_eq!(cache.get("b", 20), CacheReply::Present("2".to_string()));
    assert_eq!(cache.get("c", 10), CacheReply::Absent);
    assert_eq!(cache.expires_at("c"), None);
}

#[test]
fn read_writes_nothing() {
    let cache = DedupCache::new();
    assert_eq!(cache.get("k", 0), CacheReply::Absent);
    assert_eq!(cache.get("k", 0), CacheReply::Absent);
    assert_eq!(cache.expires_at("k"), None);
}

#[test]
fn zero_ttl_leaves_no_live_entry() {
    let mut cache = DedupCache::new();
    assert_eq!(cache.check_and_set("k", "1", 7, 0), CacheReply::Absent);
    assert_eq!(cache.get("k", 7), CacheReply::Absent);
    assert_eq!(cache.check_and_set("k", "1", 7, 0), CacheReply::Absent);
}

#[test]
fn expiry_may_reach_the_end_of_time() {
    let mut cache = DedupCache::new();
    assert_eq!(cache.check_and_set("k", "1", u64::MAX - 20, 20), CacheReply::Absent);
    assert_eq!(cache.expires_at("k"), Some(u64::MAX));
    assert_eq!(cache.get("k", u64::MAX - 1), CacheReply::Present("1".to_string()));
    assert_eq!(cache.get("k", u64::MAX), CacheReply::Absent);
}
