use starlight_shards::memory::{to_signed, Memory};
use starlight_shards::ResolveError;

fn sample() -> Memory {
    Memory { base: 0x1000, bytes: vec![0x12, 0x34, 0x56, 0x78, 0x9A, 0xBC, 0xDE, 0xF0] }
}

#[test]
fn read_u16_little_endian() {
    let m = sample();
    assert_eq!(m.read_u16(0x1000).unwrap(), 0x3412);
    assert_eq!(m.read_u16(0x1001).unwrap(), 0x5634);
}

#[test]
fn read_u32_little_endian() {
    let m = sample();
    assert_eq!(m.read_u32(0x1000).unwrap(), 0x78563412);
    assert_eq!(m.read_u32(0x1004).unwrap(), 0xF0DEBC9A);
}

#[test]
fn read_u64_little_endian() {
    let m = sample();
    assert_eq!(m.read_u64(0x1000).unwrap(), 0xF0DEBC9A78563412);
}

#[test]
fn read_before_base_fails() {
    let m = sample();
    assert_eq!(m.read_u16(0xFFF).unwrap_err(), ResolveError::ForeignRead);
}

#[test]
fn read_past_end_fails() {
    let m = sample();
    assert_eq!(m.read_u32(0x1005).unwrap_err(), ResolveError::ForeignRead);
    assert_eq!(m.read_u64(0x1001).unwrap_err(), ResolveError::ForeignRead);
}

#[test]
fn write_u32_then_read_back() {
    let mut m = Memory { base: 0x2000, bytes: vec![0u8; 16] };
    m.write_u32(0x2004, 0xDEADBEEF).unwrap();
    assert_eq!(m.read_u32(0x2004).unwrap(), 0xDEADBEEF);
    assert_eq!(m.bytes[4], 0xEF);
    assert_eq!(m.bytes[5], 0xBE);
    assert_eq!(m.bytes[6], 0xAD);
    assert_eq!(m.bytes[7], 0xDE);
    assert_eq!(m.read_u32(0x2000).unwrap(), 0);
    assert_eq!(m.read_u32(0x2008).unwrap(), 0);
}

#[test]
fn write_out_of_range_fails_and_changes_nothing() {
    let mut m = Memory { base: 0x2000, bytes: vec![0u8; 16] };
    assert_eq!(m.write_u32(0x200E, 1).unwrap_err(), ResolveError::ForeignRead);
    assert!(m.bytes.iter().all(|b| *b == 0));
}

#[test]
fn to_signed_bit_patterns() {
    assert_eq!(to_signed(0), 0);
    assert_eq!(to_signed(16), 16);
    assert_eq!(to_signed(0x7FFF_FFFF), i32::MAX);
    assert_eq!(to_signed(0x8000_0000), i32::MIN);
    assert_eq!(to_signed(0xFFFF_FFFF), -1);
    assert_eq!(to_signed(0xFFFF_FFF9), -7);
}
