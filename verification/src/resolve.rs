//! The whole address-resolution pipeline: locate the executable section,
//! scan it for the signature, follow the pointer chain to the table
//! descriptor, decode the record table, and look the wanted identifier up.

use vstd::prelude::*;

use crate::chain::{resolve_table_descriptor, table_descriptor};
use crate::image::{exec_section_index, Image, Section};
use crate::memory::Memory;
use crate::pattern::{scan, scan_offset, PatToken, Pattern};
use crate::table::{decode_table, lookup_record, read_record_count, records_ok, table_map};
use crate::ResolveError;

verus! {

/// Whether the image has an executable section.
pub open spec fn found_section(image: Image) -> bool {
    exec_section_index(image.sections@) is Some
}

/// The first executable section (meaningful only when `found_section`
/// holds).
pub open spec fn the_section(image: Image) -> Section {
    image.sections@[exec_section_index(image.sections@)->Some_0]
}

/// Whether the section's byte range lies inside the observed memory range.
pub open spec fn section_fits(mem: Memory, s: Section) -> bool {
    s.start + s.size <= mem.bytes@.len()
}

/// The bytes of the section, as offsets from the image base.
pub open spec fn section_bytes(mem: Memory, s: Section) -> Seq<u8> {
    mem.bytes@.subrange(s.start as int, s.start + s.size)
}

/// The absolute address of the first signature match inside the executable
/// section (meaningful only when the section is found and fits).
pub open spec fn match_va(mem: Memory, image: Image, pat: Seq<PatToken>) -> Option<int> {
    match scan_offset(section_bytes(mem, the_section(image)), pat) {
        Some(k) => Some(mem.base + the_section(image).start + k),
        None => None,
    }
}

/// The table descriptor reached from the first signature match.
pub open spec fn resolved_descriptor(
    mem: Memory,
    image: Image,
    pat: Seq<PatToken>,
    table_index: int,
) -> Option<int> {
    if !found_section(image) || !section_fits(mem, the_section(image)) {
        None
    } else {
        match match_va(mem, image, pat) {
            None => None,
            Some(va) => table_descriptor(mem, va, table_index),
        }
    }
}

/// The absolute address of the record with identifier `id`, when every
/// stage of the pipeline succeeds.
pub open spec fn resolved_record(
    mem: Memory,
    image: Image,
    pat: Seq<PatToken>,
    table_index: int,
    id: i32,
) -> Option<u64> {
    match resolved_descriptor(mem, image, pat, table_index) {
        None => None,
        Some(desc) => {
            if !mem.contains_range(desc + 10, 2) {
                None
            } else {
                let n = mem.u16_at(desc + 10);
                if !records_ok(mem, desc, n) {
                    None
                } else {
                    let m = table_map(mem, desc, n);
                    if m.contains_key(id) {
                        Some(m[id])
                    } else {
                        None
                    }
                }
            }
        },
    }
}

/// The section was found and fits, but the pattern matches nowhere in it.
pub open spec fn scan_failed(mem: Memory, image: Image, pat: Seq<PatToken>) -> bool {
    &&& found_section(image)
    &&& section_fits(mem, the_section(image))
    &&& scan_offset(section_bytes(mem, the_section(image)), pat) is None
}

/// A foreign read failed: the section's range leaves the observed memory,
/// the pointer chain broke, or the record table could not be decoded.
pub open spec fn chain_read_failed(
    mem: Memory,
    image: Image,
    pat: Seq<PatToken>,
    table_index: int,
) -> bool {
    &&& found_section(image)
    &&& !(section_fits(mem, the_section(image)) && match_va(mem, image, pat) is None)
    &&& match resolved_descriptor(mem, image, pat, table_index) {
        None => true,
        Some(desc) => !mem.contains_range(desc + 10, 2) || !records_ok(
            mem,
            desc,
            mem.u16_at(desc + 10),
        ),
    }
}

/// Every stage up to the table decode succeeded, but the wanted identifier
/// is absent from the decoded map.
pub open spec fn record_missing(
    mem: Memory,
    image: Image,
    pat: Seq<PatToken>,
    table_index: int,
    id: i32,
) -> bool {
    match resolved_descriptor(mem, image, pat, table_index) {
        None => false,
        Some(desc) => {
            &&& mem.contains_range(desc + 10, 2)
            &&& records_ok(mem, desc, mem.u16_at(desc + 10))
            &&& !table_map(mem, desc, mem.u16_at(desc + 10)).contains_key(id)
        },
    }
}

/// Runs the whole pipeline once. On success the returned address is the
/// record's absolute address; each failure names the first stage that broke,
/// exactly as the error conditions above state.
pub fn resolve_record_addr(
    mem: &Memory,
    image: &Image,
    pat: &Pattern,
    table_index: u64,
    id: i32,
) -> (r: Result<u64, ResolveError>)
    requires
        mem.wf(),
        pat.wf(),
    ensures
        match r {
            Ok(a) => resolved_record(*mem, *image, pat.tokens@, table_index as int, id) == Some(a),
            Err(e) => {
                &&& resolved_record(*mem, *image, pat.tokens@, table_index as int, id) is None
                &&& match e {
                    ResolveError::SectionNotFound => !found_section(*image),
                    ResolveError::PatternNotFound => scan_failed(*mem, *image, pat.tokens@),
                    ResolveError::ForeignRead => chain_read_failed(
                        *mem,
                        *image,
                        pat.tokens@,
                        table_index as int,
                    ),
                    ResolveError::MissingRecord => record_missing(
                        *mem,
                        *image,
                        pat.tokens@,
                        table_index as int,
                        id,
                    ),
                    ResolveError::MalformedPattern => false,
                }
            },
        },
{
    let si = match image.find_executable_section() {
        Ok(i) => i,
        Err(e) => {
            return Err(e);
        },
    };
    let sec = image.sections[si];
    let start = sec.start as usize;
    let len = mem.bytes.len();
    if start > len || sec.size as usize > len - start {
        assert(!section_fits(*mem, the_section(*image)));
        return Err(ResolveError::ForeignRead);
    }
    let end = start + sec.size as usize;
    let hay: &[u8] = &mem.bytes.as_slice()[start..end];
    assert(hay@ =~= section_bytes(*mem, the_section(*image)));
    let k = match scan(hay, pat) {
        Ok(k) => k,
        Err(e) => {
            return Err(e);
        },
    };
    let va: u64 = mem.base + (start as u64) + (k as u64);
    let desc = match resolve_table_descriptor(mem, va, table_index) {
        Ok(d) => d,
        Err(e) => {
            return Err(e);
        },
    };
    let cnt = match read_record_count(mem, desc) {
        Ok(c) => c,
        Err(e) => {
            return Err(e);
        },
    };
    let map = match decode_table(mem, desc, cnt) {
        Ok(m) => m,
        Err(e) => {
            return Err(e);
        },
    };
    match lookup_record(&map, id) {
        Ok(a) => Ok(a),
        Err(e) => Err(e),
    }
}

} // verus!
