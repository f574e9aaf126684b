//! View of the current process's loaded executable image: its section table,
//! and the search for the section whose characteristics mark it executable.

use vstd::prelude::*;

use crate::ResolveError;

verus! {

/// Characteristics bit that marks a section as executable.
pub const SECTION_EXECUTE_FLAG: u32 = 0x20000000;

/// One section header: the section's byte range, as an offset from the image
/// base and a length, and its characteristic flags.
#[derive(Clone, Copy, Debug, PartialEq, Eq, Structural)]
pub struct Section {
    /// Offset of the section's first byte from the image base.
    pub start: u32,
    /// Length of the section in bytes.
    pub size: u32,
    /// Characteristic flags of the section.
    pub characteristics: u32,
}

impl Section {
    /// Whether the executable bit is set in the section's characteristics.
    pub open spec fn is_executable(&self) -> bool {
        self.characteristics & SECTION_EXECUTE_FLAG != 0
    }
}

/// The ordered section table of the loaded image. The image's base address
/// is carried by the memory view it was observed in, not here.
pub struct Image {
    pub sections: Vec<Section>,
}

/// Index of the first executable section from position `k` on, if any.
pub open spec fn exec_section_from(ss: Seq<Section>, k: int) -> Option<int>
    decreases ss.len() - k,
{
    if k < 0 || k >= ss.len() {
        None
    } else if ss[k].is_executable() {
        Some(k)
    } else {
        exec_section_from(ss, k + 1)
    }
}

/// Index of the first executable section of the table, if any.
pub open spec fn exec_section_index(ss: Seq<Section>) -> Option<int> {
    exec_section_from(ss, 0)
}

impl Image {
    /// Finds the first section marked executable; fails with
    /// `SectionNotFound` exactly when no section carries the bit.
    pub fn find_executable_section(&self) -> (r: Result<usize, ResolveError>)
        ensures
            match r {
                Ok(i) => {
                    &&& exec_section_index(self.sections@) == Some(i as int)
                    &&& i < self.sections@.len()
                    &&& self.sections@[i as int].is_executable()
                    &&& forall|j: int|
                        0 <= j < i ==> !self.sections@[j].is_executable()
                },
                Err(e) => {
                    &&& e == ResolveError::SectionNotFound
                    &&& exec_section_index(self.sections@) is None
                    &&& forall|j: int|
                        0 <= j < self.sections@.len() ==> !self.sections@[j].is_executable()
                },
            },
    {
        let n = self.sections.len();
        let mut k: usize = 0;
        while k < n
            invariant
                n == self.sections@.len(),
                k <= n,
                exec_section_from(self.sections@, 0) == exec_section_from(
                    self.sections@,
                    k as int,
                ),
                forall|j: int| 0 <= j < k ==> !self.sections@[j].is_executable(),
            decreases n - k,
        {
            if self.sections[k].characteristics & SECTION_EXECUTE_FLAG != 0 {
                return Ok(k);
            }
            k = k + 1;
        }
        Err(ResolveError::SectionNotFound)
    }
}

} // verus!
