use starlight_shards::memory::Memory;
use starlight_shards::table::{decode_table, lookup_record, read_record_count};
use starlight_shards::ResolveError;

fn put_u16(b: &mut Vec<u8>, off: usize, v: u16) {
    b[off] = (v & 0xFF) as u8;
    b[off + 1] = (v >> 8) as u8;
}

fn put_u32(b: &mut Vec<u8>, off: usize, v: u32) {
    for i in 0..4 {
        b[off + i] = ((v >> (8 * i)) & 0xFF) as u8;
    }
}

/// A descriptor at the very start of the observed range, holding `records`
/// as (identifier, relative offset) pairs.
fn descriptor(base: u64, records: &[(i32, u32)]) -> Memory {
    let mut b = vec![0u8; 64 + 24 * records.len() + 64];
    put_u16(&mut b, 10, records.len() as u16);
    for (i, (id, rel)) in records.iter().enumerate() {
        put_u32(&mut b, 64 + 24 * i, *id as u32);
        put_u32(&mut b, 64 + 24 * i + 8, *rel);
    }
    Memory { base, bytes: b }
}

#[test]
fn record_count_is_read_at_offset_ten() {
    let m = descriptor(0x4000, &[(1, 0), (2, 0), (3, 0)]);
    assert_eq!(read_record_count(&m, 0x4000).unwrap(), 3);
}

#[test]
fn record_count_outside_range_fails() {
    let m = descriptor(0x4000, &[]);
    assert_eq!(read_record_count(&m, 0x9000).unwrap_err(), ResolveError::ForeignRead);
}

#[test]
fn decode_round_trip_distinct_identifiers() {
    let base = 0x4000u64;
    let m = descriptor(base, &[(501290, 0x20), (7, 0x38), (-5, 0x50)]);
    let map = decode_table(&m, base, 3).unwrap();
    assert_eq!(map.len(), 3);
    assert_eq!(*map.get(&501290).unwrap(), base + 0x20);
    assert_eq!(*map.get(&7).unwrap(), base + 0x38);
    assert_eq!(*map.get(&-5).unwrap(), base + 0x50);
}

#[test]
fn decode_negative_relative_offset() {
    let base = 0x4000u64;
    let m = descriptor(base, &[(9, (-16i32) as u32)]);
    let map = decode_table(&m, base, 1).unwrap();
    assert_eq!(*map.get(&9).unwrap(), base - 16);
}

#[test]
fn decode_duplicate_identifier_keeps_last_record() {
    let base = 0x4000u64;
    let m = descriptor(base, &[(42, 0x20), (42, 0x38)]);
    let map = decode_table(&m, base, 2).unwrap();
    assert_eq!(map.len(), 1);
    assert_eq!(*map.get(&42).unwrap(), base + 0x38);
}

#[test]
fn decode_zero_records_is_empty() {
    let m = descriptor(0x4000, &[]);
    let map = decode_table(&m, 0x4000, 0).unwrap();
    assert!(map.is_empty());
}

#[test]
fn decode_record_outside_range_fails() {
    let m = descriptor(0x4000, &[(1, 0)]);
    // the descriptor claims more records than the observed range holds
    assert_eq!(decode_table(&m, 0x4000, 200).unwrap_err(), ResolveError::ForeignRead);
}

#[test]
fn lookup_missing_record_fails() {
    let base = 0x4000u64;
    let m = descriptor(base, &[(1, 0x20)]);
    let map = decode_table(&m, base, 1).unwrap();
    assert_eq!(lookup_record(&map, 1).unwrap(), base + 0x20);
    assert_eq!(lookup_record(&map, 2).unwrap_err(), ResolveError::MissingRecord);
}
