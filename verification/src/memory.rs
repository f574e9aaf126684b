//! A bounded view of foreign memory: one contiguous byte range of the target
//! process, starting at an absolute base address. Every dereference of the
//! resolution pipeline goes through this view and fails with `ForeignRead`
//! when it falls outside the range: the boundary of what is known to be
//! mapped stays explicit and testable.
//!
//! Multi-byte reads are unaligned and little-endian.

use vstd::prelude::*;

use crate::ResolveError;

verus! {

use vstd::arithmetic::div_mod::{lemma_div_denominator, lemma_fundamental_div_mod};

/// The value of `u` reinterpreted as a signed 32-bit quantity.
pub open spec fn sign32(u: int) -> int {
    if u < 0x8000_0000 {
        u
    } else {
        u - 0x1_0000_0000
    }
}

/// `bs` with the four little-endian bytes of `v` written at `off`.
pub open spec fn bytes_with_u32(bs: Seq<u8>, off: int, v: u32) -> Seq<u8> {
    bs.update(off, (v as int % 0x100) as u8).update(off + 1, ((v as int / 0x100) % 0x100) as u8)
        .update(off + 2, ((v as int / 0x1_0000) % 0x100) as u8)
        .update(off + 3, ((v as int / 0x100_0000) % 0x100) as u8)
}

/// A contiguous range of the target process's memory, observed at absolute
/// address `base`.
pub struct Memory {
    pub base: u64,
    pub bytes: Vec<u8>,
}

impl Memory {
    /// The range does not wrap around the 64-bit address space.
    pub open spec fn wf(&self) -> bool {
        self.base + self.bytes@.len() <= 0x1_0000_0000_0000_0000
    }

    /// Whether the `n` bytes from absolute address `addr` on lie inside the
    /// observed range.
    pub open spec fn contains_range(&self, addr: int, n: int) -> bool {
        self.base <= addr && addr + n <= self.base + self.bytes@.len()
    }

    /// The byte at absolute address `addr`.
    pub open spec fn byte_at(&self, addr: int) -> u8 {
        self.bytes@[addr - self.base]
    }

    /// The unsigned 16-bit little-endian value at `addr`.
    pub open spec fn u16_at(&self, addr: int) -> int {
        self.byte_at(addr) + 0x100 * self.byte_at(addr + 1)
    }

    /// The unsigned 32-bit little-endian value at `addr`.
    pub open spec fn u32_at(&self, addr: int) -> int {
        self.byte_at(addr) + 0x100 * self.byte_at(addr + 1) + 0x1_0000 * self.byte_at(addr + 2)
            + 0x100_0000 * self.byte_at(addr + 3)
    }

    /// The unsigned 64-bit little-endian value at `addr`.
    pub open spec fn u64_at(&self, addr: int) -> int {
        self.u32_at(addr) + 0x1_0000_0000 * self.u32_at(addr + 4)
    }

    /// Bounds check: the offset of `addr` into the range, if `n` bytes from
    /// `addr` on lie inside it.
    fn offset_of(&self, addr: u64, n: u64) -> (r: Option<usize>)
        ensures
            match r {
                Some(off) => self.contains_range(addr as int, n as int) && off as int == addr
                    - self.base && off + n <= self.bytes@.len() <= usize::MAX,
                None => !self.contains_range(addr as int, n as int),
            },
    {
        if addr < self.base {
            return None;
        }
        let off: u64 = addr - self.base;
        let len: u64 = self.bytes.len() as u64;
        if off > len || n > len - off {
            return None;
        }
        Some(off as usize)
    }

    /// Reads the unsigned 16-bit little-endian value at `addr`; fails with
    /// `ForeignRead` exactly when the two bytes are not all inside the range.
    pub fn read_u16(&self, addr: u64) -> (r: Result<u16, ResolveError>)
        ensures
            match r {
                Ok(v) => self.contains_range(addr as int, 2) && v as int == self.u16_at(
                    addr as int,
                ),
                Err(e) => e == ResolveError::ForeignRead && !self.contains_range(addr as int, 2),
            },
    {
        match self.offset_of(addr, 2) {
            Some(off) => {
                let b0 = self.bytes[off];
                let b1 = self.bytes[off + 1];
                Ok(b0 as u16 + 0x100 * (b1 as u16))
            },
            None => Err(ResolveError::ForeignRead),
        }
    }

    /// Reads the unsigned 32-bit little-endian value at `addr`; fails with
    /// `ForeignRead` exactly when the four bytes are not all inside the range.
    pub fn read_u32(&self, addr: u64) -> (r: Result<u32, ResolveError>)
        ensures
            match r {
                Ok(v) => self.contains_range(addr as int, 4) && v as int == self.u32_at(
                    addr as int,
                ),
                Err(e) => e == ResolveError::ForeignRead && !self.contains_range(addr as int, 4),
            },
    {
        match self.offset_of(addr, 4) {
            Some(off) => {
                let b0 = self.bytes[off];
                let b1 = self.bytes[off + 1];
                let b2 = self.bytes[off + 2];
                let b3 = self.bytes[off + 3];
                Ok(
                    b0 as u32 + 0x100 * (b1 as u32) + 0x1_0000 * (b2 as u32) + 0x100_0000 * (
                    b3 as u32),
                )
            },
            None => Err(ResolveError::ForeignRead),
        }
    }

    /// Reads the unsigned 64-bit little-endian value at `addr`; fails with
    /// `ForeignRead` exactly when the eight bytes are not all inside the
    /// range.
    pub fn read_u64(&self, addr: u64) -> (r: Result<u64, ResolveError>)
        ensures
            match r {
                Ok(v) => self.contains_range(addr as int, 8) && v as int == self.u64_at(
                    addr as int,
                ),
                Err(e) => e == ResolveError::ForeignRead && !self.contains_range(addr as int, 8),
            },
    {
        match self.offset_of(addr, 8) {
            Some(off) => {
                let b0 = self.bytes[off];
                let b1 = self.bytes[off + 1];
                let b2 = self.bytes[off + 2];
                let b3 = self.bytes[off + 3];
                let b4 = self.bytes[off + 4];
                let b5 = self.bytes[off + 5];
                let b6 = self.bytes[off + 6];
                let b7 = self.bytes[off + 7];
                let lo: u32 = b0 as u32 + 0x100 * (b1 as u32) + 0x1_0000 * (b2 as u32) + 0x100_0000
                    * (b3 as u32);
                let hi: u32 = b4 as u32 + 0x100 * (b5 as u32) + 0x1_0000 * (b6 as u32) + 0x100_0000
                    * (b7 as u32);
                Ok(lo as u64 + 0x1_0000_0000 * (hi as u64))
            },
            None => Err(ResolveError::ForeignRead),
        }
    }

    /// Writes the four little-endian bytes of `v` at `addr`; fails with
    /// `ForeignRead`, leaving the range unchanged, exactly when the four
    /// byte positions are not all inside the range.
    pub fn write_u32(&mut self, addr: u64, v: u32) -> (r: Result<(), ResolveError>)
        ensures
            match r {
                Ok(_) => {
                    &&& old(self).contains_range(addr as int, 4)
                    &&& final(self).base == old(self).base
                    &&& final(self).bytes@ == bytes_with_u32(
                        old(self).bytes@,
                        addr - old(self).base,
                        v,
                    )
                },
                Err(e) => {
                    &&& e == ResolveError::ForeignRead
                    &&& !old(self).contains_range(addr as int, 4)
                    &&& *final(self) == *old(self)
                },
            },
    {
        match self.offset_of(addr, 4) {
            Some(off) => {
                self.bytes[off] = (v % 0x100) as u8;
                self.bytes[off + 1] = ((v / 0x100) % 0x100) as u8;
                self.bytes[off + 2] = ((v / 0x1_0000) % 0x100) as u8;
                self.bytes[off + 3] = ((v / 0x100_0000) % 0x100) as u8;
                assert(self.bytes@ =~= bytes_with_u32(old(self).bytes@, addr - old(self).base, v));
                Ok(())
            },
            None => Err(ResolveError::ForeignRead),
        }
    }
}

/// What `write_u32` wrote reads back as written: a memory whose bytes are
/// another's with the four little-endian bytes of `v` at `addr` yields `v`
/// at `addr`, and the old byte at every other address.
pub proof fn lemma_write_u32_read_back(before: Memory, after: Memory, addr: int, v: u32)
    requires
        before.contains_range(addr, 4),
        after.base == before.base,
        after.bytes@ == bytes_with_u32(before.bytes@, addr - before.base, v),
    ensures
        after.bytes@.len() == before.bytes@.len(),
        after.u32_at(addr) == v,
        forall|a: int|
            before.base <= a < before.base + before.bytes@.len() && !(addr <= a < addr + 4)
                ==> after.byte_at(a) == before.byte_at(a),
{
    let x = v as int;
    assert(after.byte_at(addr) == (x % 0x100) as u8);
    assert(after.byte_at(addr + 1) == ((x / 0x100) % 0x100) as u8);
    assert(after.byte_at(addr + 2) == ((x / 0x1_0000) % 0x100) as u8);
    assert(after.byte_at(addr + 3) == ((x / 0x100_0000) % 0x100) as u8);
    lemma_fundamental_div_mod(x, 0x100);
    lemma_fundamental_div_mod(x / 0x100, 0x100);
    lemma_fundamental_div_mod(x / 0x1_0000, 0x100);
    lemma_div_denominator(x, 0x100, 0x100);
    lemma_div_denominator(x, 0x1_0000, 0x100);
    assert(x / 0x100_0000 < 0x100) by (nonlinear_arith)
        requires
            0 <= x < 0x1_0000_0000,
    ;
    assert((x / 0x100_0000) % 0x100 == x / 0x100_0000);
}

/// The signed 32-bit value with the same bit pattern as `u`.
pub fn to_signed(u: u32) -> (r: i32)
    ensures
        r as int == sign32(u as int),
{
    if u <= 0x7FFF_FFFF {
        u as i32
    } else if u == 0x8000_0000 {
        i32::MIN
    } else {
        -((0xFFFF_FFFFu32 - u) as i32) - 1
    }
}

} // verus!
