use rmqtt::quic_session_store::{ReplaySafeServerSessionStore, ZeroRttProfileFingerprint};
use rmqtt::time::{Duration, Instant};

fn profile(id: u8) -> ZeroRttProfileFingerprint {
    ZeroRttProfileFingerprint::from_bytes([id; 32])
}

fn at(secs: u64) -> Instant {
    Instant::from_nanos(secs as u128 * 1_000_000_000)
}

const EXACT_BYTES: [u8; 32] = [
    0x1b, 0xf3, 0x16, 0xde, 0xaa, 0x16, 0x89, 0x8c, 0x16, 0x41, 0x19, 0x24, 0xf3, 0xa7, 0xbf, 0x4e,
    0xc4, 0xb8, 0x93, 0xe2, 0x07, 0xac, 0xd7, 0x09, 0x62, 0x47, 0x14, 0x0a, 0x5b, 0x4d, 0x74, 0x4f,
];

fn protocols() -> [&'static [u8]; 2] {
    [b"mqtt".as_slice(), b"mqttv5"]
}

#[test]
fn fingerprint_is_derived_from_quic_zero_rtt_profile_inputs() {
    let base = ZeroRttProfileFingerprint::mqtt_quic(&protocols(), 64 * 1024, 7, "disabled");

    assert_eq!(
        base,
        ZeroRttProfileFingerprint::new(&protocols(), 1, 0, 64 * 1024, 7, "disabled")
    );
    assert_ne!(
        base,
        ZeroRttProfileFingerprint::new(&protocols(), 2, 0, 64 * 1024, 7, "disabled")
    );
    assert_ne!(base, ZeroRttProfileFingerprint::mqtt_quic(&protocols(), 64 * 1024, 8, "disabled"));
    assert_ne!(base, ZeroRttProfileFingerprint::mqtt_quic(&protocols(), 32 * 1024, 7, "disabled"));
    assert_ne!(base, ZeroRttProfileFingerprint::mqtt_quic(&protocols(), 64 * 1024, 7, "simple"));
}

#[test]
fn fingerprint_has_exact_bytes() {
    let fingerprint = ZeroRttProfileFingerprint::mqtt_quic(&protocols(), 64 * 1024, 7, "disabled");
    assert_eq!(fingerprint.as_bytes(), &EXACT_BYTES);
}

#[test]
fn fingerprint_tells_protocol_lists_apart() {
    let joined: [&[u8]; 1] = [b"mqttmqttv5"];
    assert_ne!(
        ZeroRttProfileFingerprint::mqtt_quic(&protocols(), 1, 1, "simple"),
        ZeroRttProfileFingerprint::mqtt_quic(&joined, 1, 1, "simple")
    );
    let none: [&[u8]; 0] = [];
    assert_ne!(
        ZeroRttProfileFingerprint::mqtt_quic(&none, 1, 1, "simple"),
        ZeroRttProfileFingerprint::mqtt_quic(&joined, 1, 1, "simple")
    );
}

#[test]
fn expired_entries_are_misses() {
    let mut store = ReplaySafeServerSessionStore::new(8, Duration::zero(), profile(1));
    assert!(store.put(b"ticket", b"secret".to_vec(), at(1)));

    assert_eq!(store.get(b"ticket", at(1)), None);
    assert_eq!(store.take(b"ticket", at(1)), None);
}

#[test]
fn capacity_zero_and_eviction_are_safe() {
    let mut disabled = ReplaySafeServerSessionStore::new(0, Duration::from_secs(60), profile(1));
    assert!(!disabled.put(b"ticket", b"secret".to_vec(), at(1)));
    assert_eq!(disabled.get(b"ticket", at(1)), None);

    let mut store = ReplaySafeServerSessionStore::new(2, Duration::from_secs(60), profile(1));
    assert!(store.put(b"first", b"1".to_vec(), at(1)));
    assert!(store.put(b"second", b"2".to_vec(), at(1)));
    assert!(store.put(b"third", b"3".to_vec(), at(1)));

    assert_eq!(store.get(b"first", at(1)), None);
    assert_eq!(store.get(b"second", at(1)), Some(b"2".to_vec()));
    assert_eq!(store.get(b"third", at(1)), Some(b"3".to_vec()));
}

#[test]
fn profile_fingerprint_mismatch_is_a_miss() {
    let mut first = ReplaySafeServerSessionStore::new(8, Duration::from_secs(60), profile(1));
    let mut second = ReplaySafeServerSessionStore::new(8, Duration::from_secs(60), profile(2));

    assert!(first.put(b"ticket", b"secret".to_vec(), at(1)));
    assert_eq!(first.get(b"ticket", at(1)), Some(b"secret".to_vec()));
    assert_eq!(second.get(b"ticket", at(1)), None);
    assert_eq!(second.take(b"ticket", at(1)), None);
}

#[test]
fn keys_are_kept_under_their_profile() {
    let first = ReplaySafeServerSessionStore::new(8, Duration::from_secs(60), profile(1));
    let second = ReplaySafeServerSessionStore::new(8, Duration::from_secs(60), profile(2));
    let wrapped = first.wrapped_key(b"ticket");
    assert_eq!(wrapped.len(), 32 + 6);
    assert_eq!(&wrapped[..32], profile(1).as_bytes());
    assert_eq!(&wrapped[32..], b"ticket");
    assert_ne!(wrapped, first.wrapped_key(b"ticker"));
    assert_ne!(wrapped, second.wrapped_key(b"ticket"));
}

#[test]
fn consumed_ticket_tombstones_are_compacted() {
    let mut store = ReplaySafeServerSessionStore::new(2, Duration::from_secs(60), profile(1));

    for index in 0_u32..10_000 {
        let key = index.to_le_bytes().to_vec();
        assert!(store.put(&key, b"secret".to_vec(), at(1)));
        assert_eq!(store.take(&key, at(1)), Some(b"secret".to_vec()));
    }

    assert_eq!(store.len(), 0);
    assert!(store.order_len() <= 64, "consumed ticket tombstones must remain bounded");
}

#[test]
fn ttl_overflow_expires_instead_of_becoming_unbounded() {
    let mut store = ReplaySafeServerSessionStore::new(1, Duration::max(), profile(1));
    assert!(store.put(b"ticket", b"secret".to_vec(), at(1)));

    assert_eq!(store.take(b"ticket", at(1)), None);
}

#[test]
fn tickets_are_single_use() {
    let mut store = ReplaySafeServerSessionStore::new(8, Duration::from_secs(60), profile(1));
    assert!(store.can_cache());
    assert!(store.put(b"ticket", b"secret".to_vec(), at(1)));
    assert!(store.put(b"other", b"kept".to_vec(), at(1)));

    assert_eq!(store.take(b"ticket", at(2)), Some(b"secret".to_vec()));
    assert_eq!(store.take(b"ticket", at(2)), None);
    assert_eq!(store.get(b"ticket", at(2)), None);
    assert_eq!(store.get(b"other", at(2)), Some(b"kept".to_vec()));
    assert_eq!(store.len(), 1);
}

#[test]
fn tickets_live_until_the_last_nanosecond() {
    let mut store = ReplaySafeServerSessionStore::new(8, Duration::from_secs(60), profile(1));
    assert!(store.put(b"ticket", b"secret".to_vec(), at(1)));

    let last = Instant::from_nanos(61 * 1_000_000_000 - 1);
    assert_eq!(store.get(b"ticket", last), Some(b"secret".to_vec()));
    assert_eq!(store.get(b"ticket", at(61)), None);
    assert_eq!(store.len(), 0);
}

#[test]
fn renewed_ticket_is_not_evicted_by_its_old_record() {
    let mut store = ReplaySafeServerSessionStore::new(2, Duration::from_secs(60), profile(1));
    assert!(store.put(b"first", b"1".to_vec(), at(1)));
    assert!(store.put(b"second", b"2".to_vec(), at(1)));
    assert!(store.put(b"first", b"1b".to_vec(), at(1)));
    assert!(store.put(b"third", b"3".to_vec(), at(1)));

    assert_eq!(store.get(b"first", at(1)), Some(b"1b".to_vec()));
    assert_eq!(store.get(b"second", at(1)), None);
    assert_eq!(store.get(b"third", at(1)), Some(b"3".to_vec()));
}

#[test]
fn tickets_are_single_use_whatever_happens_in_between() {
    let mut store = ReplaySafeServerSessionStore::new(4, Duration::from_secs(60), profile(1));
    assert!(store.put(b"ticket", b"secret".to_vec(), at(1)));
    assert!(store.put(b"other", b"x".to_vec(), at(2)));
    assert_eq!(store.get(b"ticket", at(3)), Some(b"secret".to_vec()));
    assert_eq!(store.take(b"other", at(4)), Some(b"x".to_vec()));
    assert_eq!(store.take(b"ticket", at(5)), Some(b"secret".to_vec()));
    assert!(store.put(b"other", b"y".to_vec(), at(6)));
    assert_eq!(store.take(b"ticket", at(7)), None);
    assert_eq!(store.get(b"ticket", at(8)), None);
    assert_eq!(store.take(b"ticket", at(9)), None);
}

#[test]
fn tickets_stay_until_enough_newer_ones_have_come() {
    let mut store = ReplaySafeServerSessionStore::new(3, Duration::from_secs(60), profile(1));
    assert!(store.put(b"ticket", b"secret".to_vec(), at(1)));
    assert!(store.put(b"a", b"1".to_vec(), at(1)));
    assert!(store.put(b"b", b"2".to_vec(), at(1)));
    assert_eq!(store.get(b"ticket", at(2)), Some(b"secret".to_vec()));
    assert!(store.put(b"c", b"3".to_vec(), at(2)));
    assert_eq!(store.get(b"ticket", at(2)), None);
    assert_eq!(store.get(b"a", at(2)), Some(b"1".to_vec()));
}
