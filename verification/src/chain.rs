//! The pointer chain: from the matched instruction, a RIP-relative
//! displacement gives the address of a root pointer; a bounded sequence of
//! further dereferences through fixed offsets reaches the table descriptor.

use vstd::prelude::*;

use crate::memory::{sign32, Memory};
use crate::ResolveError;

verus! {

/// Sub-offset of the 4-byte displacement field inside the matched
/// instruction.
pub const DISPLACEMENT_OFFSET: u64 = 3;

/// Offset from the match to the byte immediately following the displacement
/// field, per the instruction encoding the signature targets.
pub const RIP_SKIP: u64 = 7;

/// Stride of one sub-table slot inside the root structure.
pub const SLOT_STRIDE: u64 = 72;

/// Offset of the first sub-table slot inside the root structure.
pub const SLOT_BASE: u64 = 0x88;

/// Offset dereferenced twice in succession from the sub-table header to
/// reach the table descriptor.
pub const HEADER_HOP: u64 = 0x80;

/// Whether `a` is a 64-bit address.
pub open spec fn in_addr_space(a: int) -> bool {
    0 <= a < 0x1_0000_0000_0000_0000
}

/// Target of the RIP-relative displacement rooted at `match_va`: the signed
/// 32-bit field at `match_va + 3`, resolved relative to `match_va + 7`.
/// `None` when the field is not readable or the target leaves the address
/// space.
pub open spec fn rip_target(mem: Memory, match_va: int) -> Option<int> {
    if !mem.contains_range(match_va + 3, 4) {
        None
    } else {
        let t = match_va + 7 + sign32(mem.u32_at(match_va + 3));
        if in_addr_space(t) {
            Some(t)
        } else {
            None
        }
    }
}

/// The 8-byte pointer stored at `addr`, if readable.
pub open spec fn ptr_at(mem: Memory, addr: int) -> Option<int> {
    if mem.contains_range(addr, 8) {
        Some(mem.u64_at(addr))
    } else {
        None
    }
}

/// The full chain from the match to the table descriptor: the RIP-relative
/// target is a pointer to the root structure; slot `table_index` of the root
/// holds a header pointer; the descriptor is reached by dereferencing offset
/// `0x80` from the header twice in succession.
pub open spec fn table_descriptor(mem: Memory, match_va: int, table_index: int) -> Option<int> {
    match rip_target(mem, match_va) {
        None => None,
        Some(site) => match ptr_at(mem, site) {
            None => None,
            Some(root) => {
                let slot = root + table_index * 72 + 0x88;
                if !in_addr_space(slot) {
                    None
                } else {
                    match ptr_at(mem, slot) {
                        None => None,
                        Some(hdr) => {
                            let hop1 = hdr + 0x80;
                            if !in_addr_space(hop1) {
                                None
                            } else {
                                match ptr_at(mem, hop1) {
                                    None => None,
                                    Some(mid) => {
                                        let hop2 = mid + 0x80;
                                        if !in_addr_space(hop2) {
                                            None
                                        } else {
                                            ptr_at(mem, hop2)
                                        }
                                    },
                                }
                            }
                        },
                    }
                }
            },
        },
    }
}

/// Computes the target of the RIP-relative displacement at `match_va`;
/// fails with `ForeignRead` exactly when the displacement field is not
/// readable or the target leaves the 64-bit address space.
pub fn rip_relative_target(mem: &Memory, match_va: u64) -> (r: Result<u64, ResolveError>)
    requires
        mem.wf(),
    ensures
        match r {
            Ok(t) => rip_target(*mem, match_va as int) == Some(t as int),
            Err(e) => e == ResolveError::ForeignRead && rip_target(*mem, match_va as int) is None,
        },
{
    let field_addr = match match_va.checked_add(DISPLACEMENT_OFFSET) {
        Some(a) => a,
        None => {
            return Err(ResolveError::ForeignRead);
        },
    };
    let u = match mem.read_u32(field_addr) {
        Ok(u) => u,
        Err(e) => {
            return Err(e);
        },
    };
    if u < 0x8000_0000 {
        match match_va.checked_add(RIP_SKIP + u as u64) {
            Some(t) => Ok(t),
            None => Err(ResolveError::ForeignRead),
        }
    } else {
        let back: u64 = 0x1_0000_0000u64 - u as u64;
        if back >= RIP_SKIP {
            match match_va.checked_sub(back - RIP_SKIP) {
                Some(t) => Ok(t),
                None => Err(ResolveError::ForeignRead),
            }
        } else {
            match match_va.checked_add(RIP_SKIP - back) {
                Some(t) => Ok(t),
                None => Err(ResolveError::ForeignRead),
            }
        }
    }
}

/// Follows the whole pointer chain from the match to the table descriptor;
/// fails with `ForeignRead` exactly when a dereference falls outside the
/// observed memory or an address computation leaves the address space.
pub fn resolve_table_descriptor(mem: &Memory, match_va: u64, table_index: u64) -> (r: Result<
    u64,
    ResolveError,
>)
    requires
        mem.wf(),
    ensures
        match r {
            Ok(d) => table_descriptor(*mem, match_va as int, table_index as int) == Some(d as int),
            Err(e) => e == ResolveError::ForeignRead && table_descriptor(
                *mem,
                match_va as int,
                table_index as int,
            ) is None,
        },
{
    let site = match rip_relative_target(mem, match_va) {
        Ok(t) => t,
        Err(e) => {
            return Err(e);
        },
    };
    let root = match mem.read_u64(site) {
        Ok(v) => v,
        Err(e) => {
            return Err(e);
        },
    };
    let scaled = match table_index.checked_mul(SLOT_STRIDE) {
        Some(x) => x,
        None => {
            return Err(ResolveError::ForeignRead);
        },
    };
    let with_slot = match root.checked_add(scaled) {
        Some(x) => x,
        None => {
            return Err(ResolveError::ForeignRead);
        },
    };
    let slot = match with_slot.checked_add(SLOT_BASE) {
        Some(x) => x,
        None => {
            return Err(ResolveError::ForeignRead);
        },
    };
    let hdr = match mem.read_u64(slot) {
        Ok(v) => v,
        Err(e) => {
            return Err(e);
        },
    };
    let hop1 = match hdr.checked_add(HEADER_HOP) {
        Some(x) => x,
        None => {
            return Err(ResolveError::ForeignRead);
        },
    };
    let mid = match mem.read_u64(hop1) {
        Ok(v) => v,
        Err(e) => {
            return Err(e);
        },
    };
    let hop2 = match mid.checked_add(HEADER_HOP) {
        Some(x) => x,
        None => {
            return Err(ResolveError::ForeignRead);
        },
    };
    match mem.read_u64(hop2) {
        Ok(v) => Ok(v),
        Err(e) => Err(e),
    }
}

} // verus!
