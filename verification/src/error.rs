//! The error taxonomy of the traversal.

use vstd::prelude::*;

verus! {

/// Everything that can go wrong while translating debugging information
/// into items.
///
/// The variants fall into four severity classes, which the driver in
/// `parse` uses for its recovery policy:
/// - structural faults (`MalformedEntryTree`) are fatal for the containing
///   compilation unit: the unit's partial results are discarded and the
///   remaining units are still traversed;
/// - classification faults (`UnrecognizedTag`) and attribute faults
///   (`UnexpectedAttributeForm`, `BrokenStringReference`,
///   `BrokenRangesReference`, `InvalidAddressRange`, `SizeOverflow`,
///   `MissingLocationAttributes`) are fatal for the single entry, which is
///   skipped while the rest of its unit is still traversed;
/// - `MissingStringSection` is fatal for the whole traversal: without the
///   string table no name can be resolved and there is no meaningful
///   partial result.
#[derive(Clone, Copy, Debug, PartialEq, Eq, Structural)]
pub enum ParseError {
    /// An entry's tree structure is broken: the unit has no root entry,
    /// an abbreviation-table lookup for an entry's code failed, the stream
    /// ended before the root's subtree was closed, or the tree is deeper
    /// than a depth delta can represent.
    MalformedEntryTree,
    /// An entry's tag value lies outside the legal tag set.
    UnrecognizedTag,
    /// An attribute carries a value representation that the format does not
    /// allow in its position.
    UnexpectedAttributeForm,
    /// A name attribute is present but cannot be resolved to a string in
    /// the string table.
    BrokenStringReference,
    /// A ranges attribute refers to an offset at which the range-list
    /// section holds no list.
    BrokenRangesReference,
    /// A contiguous range or a range-list entry ends before it begins.
    InvalidAddressRange,
    /// The sum of the sub-range lengths of a range list does not fit in
    /// 64 bits.
    SizeOverflow,
    /// An entry whose kind requires a machine-code footprint carries none
    /// of the three address-range encodings.
    MissingLocationAttributes,
    /// The traversal needs the string table and the input has none.
    MissingStringSection,
}

} // verus!
