//! Locates a runtime data record inside a process image and keeps external
//! state synchronized with it: a wildcarded byte signature anchors a
//! RIP-relative displacement, a bounded pointer chain leads to a table
//! descriptor, the table decodes to a map from record identifier to
//! absolute address, and a per-frame polling task applies a one-time
//! mutation to the resolved record and mirrors an observed condition into a
//! persistent flag. Foreign memory is read through an explicit bounded
//! view, so every dereference either lands inside what is known to be
//! mapped or fails visibly.

#![allow(unused_imports)]
use vstd::prelude::*;

pub mod chain;
pub mod flags;
pub mod image;
pub mod laws;
pub mod memory;
pub mod pattern;
pub mod resolve;
pub mod table;
pub mod task;

verus! {

/// The failure conditions of the address-resolution pipeline. Every one of
/// them is unrecoverable for the current process instance: the caller logs
/// and aborts rather than retrying, because a failure at any step means the
/// assumed memory layout does not hold.
#[derive(Clone, Copy, Debug, PartialEq, Eq, Structural)]
pub enum ResolveError {
    /// The textual pattern description could not be tokenized.
    MalformedPattern,
    /// No section of the image is marked executable.
    SectionNotFound,
    /// The pattern matched nowhere in the scanned range.
    PatternNotFound,
    /// A dereference fell outside the memory known to be mapped, or an
    /// address computation left the 64-bit address space.
    ForeignRead,
    /// The decoded record table holds no record with the wanted identifier.
    MissingRecord,
}

} // verus!
