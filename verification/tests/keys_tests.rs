use blue_gate::keys::{load, AddOutcome, DelOutcome, KeyStore, STORE_KEYS};

fn record(tag: u8, fill: u8) -> [u8; 33] {
    let mut k = [fill; 33];
    k[0] = tag;
    k
}

#[test]
fn new_store_is_empty() {
    let ks = KeyStore::new();
    assert_eq!(ks.len(), 0);
    assert!(ks.is_empty());
    assert_eq!(ks.get(0), None);
}

#[test]
fn add_then_lookup_returns_stored_byte() {
    let mut ks = KeyStore::new();
    // Edwards-type record (low bits 1) carrying permission bits 0x04.
    let k = record(0x05, 0xaa);
    assert_eq!(ks.add(k), AddOutcome::Added);
    let got = ks.lookup(&k);
    assert_ne!(got, 0);
    assert_eq!(got, 0x05);
    assert_eq!(got & 0x03, k[0] & 0x03);
    assert_eq!(ks.len(), 1);
}

#[test]
fn lookup_ignores_permission_bits() {
    let mut ks = KeyStore::new();
    let stored = record(0x81, 0x11); // admin + Edwards type
    assert_eq!(ks.add(stored), AddOutcome::Added);
    // Same identity presented without the permission bits.
    let presented = record(0x01, 0x11);
    assert_eq!(ks.lookup(&presented), 0x81);
}

#[test]
fn duplicate_identity_rejected() {
    let mut ks = KeyStore::new();
    let a = record(0x05, 0x22);
    let b = record(0x41, 0x22); // same low bits and body, other permissions
    assert_eq!(ks.add(a), AddOutcome::Added);
    assert_eq!(ks.add(b), AddOutcome::RejectedDuplicate);
    assert_eq!(ks.len(), 1);
}

#[test]
fn different_type_bits_are_different_identities() {
    let mut ks = KeyStore::new();
    let a = record(0x01, 0x33);
    let b = record(0x02, 0x33);
    assert_eq!(ks.add(a), AddOutcome::Added);
    assert_eq!(ks.add(b), AddOutcome::Added);
    assert_eq!(ks.len(), 2);
}

#[test]
fn del_then_lookup_returns_zero() {
    let mut ks = KeyStore::new();
    let k = record(0x05, 0x44);
    assert_eq!(ks.add(k), AddOutcome::Added);
    assert_eq!(ks.del(k), DelOutcome::Deleted);
    assert_eq!(ks.lookup(&k), 0);
    assert_eq!(ks.len(), 0);
}

#[test]
fn del_missing_is_not_found() {
    let mut ks = KeyStore::new();
    assert_eq!(ks.del(record(0x01, 0x55)), DelOutcome::NotFound);
}

#[test]
fn del_keeps_order_of_the_rest() {
    let mut ks = KeyStore::new();
    let mut keys = Vec::new();
    for i in 0..4u8 {
        let mut k = [0u8; 33];
        k[0] = 0x01;
        k[1] = i;
        keys.push(k);
        assert_eq!(ks.add(k), AddOutcome::Added);
    }
    assert_eq!(ks.del(keys[1]), DelOutcome::Deleted);
    assert_eq!(ks.len(), 3);
    assert_eq!(ks.get(0), Some(keys[0]));
    assert_eq!(ks.get(1), Some(keys[2]));
    assert_eq!(ks.get(2), Some(keys[3]));
    assert_eq!(ks.get(3), None);
}

fn distinct_record(i: usize) -> [u8; 33] {
    let mut k = [0u8; 33];
    k[0] = 0x01;
    k[1] = (i & 0xff) as u8;
    k[2] = ((i >> 8) & 0xff) as u8;
    k
}

#[test]
fn add_into_full_table_rejected() {
    let mut ks = KeyStore::new();
    for i in 0..STORE_KEYS {
        assert_eq!(ks.add(distinct_record(i)), AddOutcome::Added);
    }
    assert_eq!(ks.len(), STORE_KEYS);
    let extra = distinct_record(STORE_KEYS);
    assert_eq!(ks.add(extra), AddOutcome::RejectedFull);
    assert_eq!(ks.len(), STORE_KEYS);
    assert_eq!(ks.lookup(&extra), 0);
}

#[test]
fn save_then_load_round_trips() {
    let mut ks = KeyStore::new();
    for i in 0..5 {
        assert_eq!(ks.add(distinct_record(i)), AddOutcome::Added);
    }
    let image = ks.save_image();
    let fetched: Vec<Option<[u8; 33]>> = image.iter().map(|k| Some(*k)).collect();
    let loaded = load(&fetched);
    assert_eq!(loaded.len(), 5);
    for i in 0..5 {
        assert_eq!(loaded.get(i), ks.get(i));
    }
}

#[test]
fn load_skips_missing_entries() {
    let a = distinct_record(1);
    let b = distinct_record(2);
    let fetched = vec![Some(a), None, Some(b), None];
    let loaded = load(&fetched);
    assert_eq!(loaded.len(), 2);
    assert_eq!(loaded.get(0), Some(a));
    assert_eq!(loaded.get(1), Some(b));
}

#[test]
fn restore_replaces_contents() {
    let mut ks = KeyStore::new();
    assert_eq!(ks.add(distinct_record(9)), AddOutcome::Added);
    let snapshot = ks.save_image();
    assert_eq!(ks.add(distinct_record(10)), AddOutcome::Added);
    assert_eq!(ks.len(), 2);
    ks.restore(&snapshot);
    assert_eq!(ks.len(), 1);
    assert_eq!(ks.get(0), Some(distinct_record(9)));
}

#[test]
fn keys_match_compares_identity_only() {
    let a = record(0x81, 0x66);
    let b = record(0x01, 0x66);
    let c = record(0x02, 0x66);
    assert!(KeyStore::keys_match(&a, &b));
    assert!(!KeyStore::keys_match(&a, &c));
}
