//! The record table: a descriptor holds a 2-byte record count; fixed-stride
//! records follow, each yielding a 4-byte signed identifier and a 4-byte
//! signed offset relative to the descriptor itself. Decoding produces a map
//! from identifier to absolute record address; a duplicate identifier keeps
//! its last record.

use std::collections::HashMap;
use vstd::prelude::*;

use crate::memory::{sign32, to_signed, Memory};
use crate::ResolveError;

verus! {

broadcast use vstd::std_specs::hash::group_hash_axioms;

/// Offset of the 2-byte record count inside the descriptor.
pub const COUNT_OFFSET: u64 = 10;

/// Offset of the first record from the descriptor.
pub const RECORDS_OFFSET: u64 = 64;

/// Stride of one record.
pub const RECORD_STRIDE: u64 = 24;

/// Offset of the relative-offset field inside one record.
pub const RELATIVE_FIELD_OFFSET: u64 = 8;

/// Address of the identifier field of record `i`.
pub open spec fn record_id_site(desc: int, i: int) -> int {
    desc + 64 + 24 * i
}

/// Address of the relative-offset field of record `i`.
pub open spec fn record_rel_site(desc: int, i: int) -> int {
    desc + 64 + 24 * i + 8
}

/// Whether record `i` can be decoded: both fields are readable and the
/// record's absolute address stays inside the 64-bit address space.
pub open spec fn record_ok(mem: Memory, desc: int, i: int) -> bool {
    &&& mem.contains_range(record_id_site(desc, i), 4)
    &&& mem.contains_range(record_rel_site(desc, i), 4)
    &&& 0 <= desc + sign32(mem.u32_at(record_rel_site(desc, i))) < 0x1_0000_0000_0000_0000
}

/// The signed identifier of record `i`.
pub open spec fn record_id(mem: Memory, desc: int, i: int) -> i32 {
    sign32(mem.u32_at(record_id_site(desc, i))) as i32
}

/// The absolute address of record `i`: the descriptor address plus the
/// record's signed relative offset.
pub open spec fn record_addr(mem: Memory, desc: int, i: int) -> u64 {
    (desc + sign32(mem.u32_at(record_rel_site(desc, i)))) as u64
}

/// Whether the first `n` records can all be decoded.
pub open spec fn records_ok(mem: Memory, desc: int, n: int) -> bool {
    forall|i: int| 0 <= i < n ==> record_ok(mem, desc, i)
}

/// The identifier-to-address map of the first `n` records, inserted in
/// order: a duplicate identifier keeps the record with the highest index.
pub open spec fn table_map(mem: Memory, desc: int, n: int) -> Map<i32, u64>
    decreases n,
{
    if n <= 0 {
        Map::empty()
    } else {
        table_map(mem, desc, n - 1).insert(
            record_id(mem, desc, n - 1),
            record_addr(mem, desc, n - 1),
        )
    }
}

/// Reads the record count at offset 10 of the descriptor; fails with
/// `ForeignRead` exactly when the field is not readable.
pub fn read_record_count(mem: &Memory, desc: u64) -> (r: Result<u16, ResolveError>)
    requires
        mem.wf(),
    ensures
        match r {
            Ok(c) => mem.contains_range(desc + COUNT_OFFSET, 2) && c as int == mem.u16_at(
                desc + COUNT_OFFSET,
            ),
            Err(e) => e == ResolveError::ForeignRead && !mem.contains_range(
                desc + COUNT_OFFSET,
                2,
            ),
        },
{
    match desc.checked_add(COUNT_OFFSET) {
        Some(a) => mem.read_u16(a),
        None => Err(ResolveError::ForeignRead),
    }
}

/// Decodes `count` fixed-stride records into an identifier-to-address map;
/// fails with `ForeignRead` exactly when some record cannot be decoded.
pub fn decode_table(mem: &Memory, desc: u64, count: u16) -> (r: Result<
    HashMap<i32, u64>,
    ResolveError,
>)
    requires
        mem.wf(),
    ensures
        match r {
            Ok(m) => records_ok(*mem, desc as int, count as int) && m@ == table_map(
                *mem,
                desc as int,
                count as int,
            ),
            Err(e) => e == ResolveError::ForeignRead && !records_ok(*mem, desc as int, count as int),
        },
{
    let mut m: HashMap<i32, u64> = HashMap::new();
    let n: u64 = count as u64;
    let mut i: u64 = 0;
    while i < n
        invariant
            mem.wf(),
            n == count,
            i <= n,
            records_ok(*mem, desc as int, i as int),
            m@ == table_map(*mem, desc as int, i as int),
        decreases n - i,
    {
        let ghost gi = i as int;
        let off: u64 = RECORDS_OFFSET + RECORD_STRIDE * i;
        let id_site = match desc.checked_add(off) {
            Some(x) => x,
            None => {
                assert(!record_ok(*mem, desc as int, gi));
                return Err(ResolveError::ForeignRead);
            },
        };
        let rel_site = match id_site.checked_add(RELATIVE_FIELD_OFFSET) {
            Some(x) => x,
            None => {
                assert(!record_ok(*mem, desc as int, gi));
                return Err(ResolveError::ForeignRead);
            },
        };
        let id_bits = match mem.read_u32(id_site) {
            Ok(v) => v,
            Err(e) => {
                assert(!record_ok(*mem, desc as int, gi));
                return Err(e);
            },
        };
        let rel_bits = match mem.read_u32(rel_site) {
            Ok(v) => v,
            Err(e) => {
                assert(!record_ok(*mem, desc as int, gi));
                return Err(e);
            },
        };
        let id: i32 = to_signed(id_bits);
        let addr: u64 = if rel_bits < 0x8000_0000 {
            match desc.checked_add(rel_bits as u64) {
                Some(a) => a,
                None => {
                    assert(!record_ok(*mem, desc as int, gi));
                    return Err(ResolveError::ForeignRead);
                },
            }
        } else {
            let back: u64 = 0x1_0000_0000u64 - rel_bits as u64;
            match desc.checked_sub(back) {
                Some(a) => a,
                None => {
                    assert(!record_ok(*mem, desc as int, gi));
                    return Err(ResolveError::ForeignRead);
                },
            }
        };
        assert(id == record_id(*mem, desc as int, gi));
        assert(addr == record_addr(*mem, desc as int, gi));
        m.insert(id, addr);
        i = i + 1;
    }
    Ok(m)
}

/// Looks an identifier up in the decoded map; fails with `MissingRecord`
/// exactly when the identifier is absent.
pub fn lookup_record(m: &HashMap<i32, u64>, id: i32) -> (r: Result<u64, ResolveError>)
    ensures
        match r {
            Ok(a) => m@.contains_key(id) && m@[id] == a,
            Err(e) => e == ResolveError::MissingRecord && !m@.contains_key(id),
        },
{
    match m.get(&id) {
        Some(a) => Ok(*a),
        None => Err(ResolveError::MissingRecord),
    }
}

} // verus!
