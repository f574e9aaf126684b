use starlight_shards::flags::FlagStore;

#[test]
fn fresh_store_reads_unset() {
    let f = FlagStore::new();
    assert!(!f.get(0));
    assert!(!f.get(366520000));
    assert!(!f.get(u32::MAX));
}

#[test]
fn set_bit_reads_back() {
    let mut f = FlagStore::new();
    f.set(366520000, true);
    assert!(f.get(366520000));
    f.set(366520000, false);
    assert!(!f.get(366520000));
}

#[test]
fn bits_are_independent() {
    let mut f = FlagStore::new();
    f.set(1, true);
    f.set(2, false);
    assert!(f.get(1));
    assert!(!f.get(2));
    assert!(!f.get(3));
    f.set(2, true);
    assert!(f.get(1) && f.get(2));
}
