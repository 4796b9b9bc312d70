use saferoute::vault::clock::{is_live, is_overdue, Timestamp};
use saferoute::vault::record::EncryptedData;
use saferoute::vault::store::{cleanup_expired, TtlStore};

fn record(tag: u8, created_secs: u64, created_nanos: u32, ttl_seconds: u64) -> EncryptedData {
    EncryptedData {
        ciphertext: vec![tag; 20],
        nonce: vec![tag; 12],
        created_at: Timestamp { secs: created_secs, nanos: created_nanos },
        ttl_seconds,
    }
}

fn at(secs: u64, nanos: u32) -> Timestamp {
    Timestamp { secs, nanos }
}

#[test]
fn timestamp_in_nanoseconds() {
    assert_eq!(at(0, 0).as_nanos(), 0);
    assert_eq!(at(1, 5).as_nanos(), 1_000_000_005);
    assert_eq!(Timestamp::from_secs(7), at(7, 0));
    assert_eq!(at(u64::MAX, u32::MAX).as_nanos(), 18_446_744_073_709_551_615_000_000_000 + 4_294_967_295);
}

#[test]
fn live_until_the_time_to_live_has_passed() {
    let start = at(100, 500);
    assert!(is_live(start, 60, at(100, 500)));
    assert!(is_live(start, 60, at(160, 499)));
    assert!(!is_live(start, 60, at(160, 500)));
    assert!(!is_live(start, 60, at(161, 0)));
    assert!(is_live(start, 60, at(0, 0)));
    assert!(!is_live(start, 0, start));
    assert!(is_live(start, u64::MAX, at(u64::MAX, 0)));
    assert!(!is_live(at(0, 0), u64::MAX, at(u64::MAX, 0)));
}

#[test]
fn overdue_once_age_exceeds_the_time_to_live() {
    let start = at(100, 500);
    assert!(!is_overdue(start, 60, at(100, 500)));
    assert!(!is_overdue(start, 60, at(160, 499)));
    // Exactly as old as the time to live: expired, not yet overdue.
    assert!(!is_overdue(start, 60, at(160, 500)));
    assert!(is_overdue(start, 60, at(160, 501)));
    assert!(is_overdue(start, 60, at(161, 0)));
    assert!(!is_overdue(start, 0, start));
    assert!(is_overdue(start, 0, at(100, 501)));
    assert!(!is_overdue(start, 60, at(0, 0)));
    assert!(!is_overdue(at(0, 0), u64::MAX, at(u64::MAX, 0)));
    assert!(is_overdue(at(0, 0), u64::MAX, at(u64::MAX, 1)));
    // Half a second past the time to live.
    assert!(is_overdue(at(1000, 0), 60, at(1060, 500_000_000)));
}

#[test]
fn get_returns_what_put_stored() {
    let mut store = TtlStore::new();
    assert!(store.get("a", at(0, 0)).is_none());
    store.put("a".to_string(), record(1, 10, 0, 5));
    let got = store.get("a", at(12, 0)).unwrap();
    assert_eq!(got.ciphertext, vec![1u8; 20]);
    assert_eq!(got.nonce, vec![1u8; 12]);
    assert_eq!(got.created_at, at(10, 0));
    assert_eq!(got.ttl_seconds, 5);
    assert!(store.get("b", at(12, 0)).is_none());
    assert!(store.get("", at(12, 0)).is_none());
}

#[test]
fn get_hides_an_expired_record_that_is_still_held() {
    let mut store = TtlStore::new();
    store.put("a".to_string(), record(1, 10, 0, 5));
    assert!(store.get("a", at(14, 999_999_999)).is_some());
    assert!(store.get("a", at(15, 0)).is_none());
    assert_eq!(store.live_count(at(14, 0)), 1);
    assert_eq!(store.live_count(at(15, 0)), 0);
}

#[test]
fn put_overwrites() {
    let mut store = TtlStore::new();
    store.put("a".to_string(), record(1, 10, 0, 5));
    store.put("a".to_string(), record(2, 20, 0, 5));
    let got = store.get("a", at(21, 0)).unwrap();
    assert_eq!(got.ciphertext, vec![2u8; 20]);
    assert_eq!(got.created_at, at(20, 0));
    assert_eq!(store.live_count(at(21, 0)), 1);
}

#[test]
fn sweep_removes_exactly_the_overdue_records() {
    let mut store = TtlStore::new();
    store.put("old".to_string(), record(1, 0, 0, 5));
    store.put("edge".to_string(), record(2, 5, 0, 5));
    store.put("fresh".to_string(), record(3, 9, 0, 5));
    store.put("forever".to_string(), record(4, 0, 0, u64::MAX));

    // At 10 s: "old" is 10 s old, "edge" exactly 5 s, "fresh" 1 s.
    let mut purged = cleanup_expired(&mut store, at(10, 0));
    purged.sort();
    assert_eq!(purged, vec!["old".to_string()]);

    // "edge" is as old as its time to live: expired and hidden from reads,
    // but its age does not exceed the time to live yet.
    assert!(store.get("edge", at(10, 0)).is_none());
    assert!(store.get("fresh", at(10, 0)).is_some());
    assert!(store.get("forever", at(10, 0)).is_some());

    // One nanosecond later it does.
    let purged = cleanup_expired(&mut store, at(10, 1));
    assert_eq!(purged, vec!["edge".to_string()]);

    let purged = cleanup_expired(&mut store, at(14, 1));
    assert_eq!(purged, vec!["fresh".to_string()]);
    assert!(cleanup_expired(&mut store, at(15, 0)).is_empty());
    assert!(store.get("forever", at(u64::MAX - 1, 999_999_999)).is_some());
    assert!(store.get("forever", at(u64::MAX, 0)).is_none());
    assert_eq!(store.live_count(at(15, 0)), 1);
}

#[test]
fn sweep_removes_a_record_half_a_second_past_its_time_to_live() {
    let mut store = TtlStore::new();
    store.put("r".to_string(), record(1, 1000, 0, 60));
    assert!(cleanup_expired(&mut store, at(1060, 0)).is_empty());
    assert_eq!(cleanup_expired(&mut store, at(1060, 500_000_000)), vec!["r".to_string()]);
    assert!(cleanup_expired(&mut store, at(1060, 500_000_000)).is_empty());
}

#[test]
fn after_a_sweep_no_held_record_is_older_than_its_time_to_live() {
    let mut store = TtlStore::new();
    for (i, ttl) in [0u64, 1, 2, 3, 5, 8, 13].iter().enumerate() {
        store.put(format!("id-{}", i), record(i as u8, 100, 0, *ttl));
    }
    let now = at(103, 1);
    let mut purged = cleanup_expired(&mut store, now);
    purged.sort();
    assert_eq!(purged, vec!["id-0", "id-1", "id-2", "id-3"]);
    // What is left is live, and nothing live was removed.
    assert_eq!(store.live_count(now), 3);
    assert!(store.get("id-4", now).is_some());
    assert!(store.get("id-5", now).is_some());
    assert!(store.get("id-6", now).is_some());
}

#[test]
fn sweep_of_an_empty_store_removes_nothing() {
    let mut store = TtlStore::new();
    assert!(cleanup_expired(&mut store, at(1_000, 0)).is_empty());
    assert_eq!(store.live_count(at(1_000, 0)), 0);
}

#[test]
fn sweep_leaves_a_record_that_was_stored_again() {
    let mut store = TtlStore::new();
    store.put("a".to_string(), record(1, 0, 0, 5));
    store.put("a".to_string(), record(2, 100, 0, 5));
    assert!(cleanup_expired(&mut store, at(101, 0)).is_empty());
    assert_eq!(store.get("a", at(101, 0)).unwrap().ciphertext, vec![2u8; 20]);
}
