//! Decoded range lists and the size of the address ranges they describe.

use vstd::prelude::*;

use crate::error::ParseError;

verus! {

/// One entry of a range list.
#[derive(Clone, Copy, Debug, PartialEq, Eq, Structural)]
pub enum RangeListEntry {
    /// A base-address marker: it sets the base that subsequent offset
    /// pairs of the same list are relative to, and occupies no space
    /// itself.
    BaseAddress(u64),
    /// A sub-range as a pair of offsets from the list's current base
    /// address: it covers `base + begin` up to `base + end`.
    OffsetPair(u64, u64),
    /// A sub-range as explicit start and end addresses. Only lists of
    /// format version 5 or later carry this form.
    StartEnd(u64, u64),
    /// A sub-range as a start address and a length. Only lists of format
    /// version 5 or later carry this form.
    StartLength(u64, u64),
}

/// One decoded range list of the range-list section, named by the section
/// offset it was read from.
#[derive(Debug, PartialEq, Eq)]
pub struct RangeList {
    /// The section offset that ranges attributes refer to the list by.
    pub offset: u64,
    /// The list's entries in section order.
    pub entries: Vec<RangeListEntry>,
}

/// The decoded content of the range-list section.
#[derive(Debug, PartialEq, Eq)]
pub struct RangeTable {
    pub lists: Vec<RangeList>,
}

/// The entries of the first list of `lists` stored at offset `off`, or
/// `None` if no list lies there.
pub open spec fn list_find(lists: Seq<RangeList>, off: u64) -> Option<Seq<RangeListEntry>>
    decreases lists.len(),
{
    if lists.len() == 0 {
        None
    } else if lists[0].offset == off {
        Some(lists[0].entries@)
    } else {
        list_find(lists.drop_first(), off)
    }
}

proof fn lemma_list_find_prefix(lists: Seq<RangeList>, off: u64, i: int)
    requires
        0 <= i <= lists.len(),
        forall|k: int| 0 <= k < i ==> lists[k].offset != off,
    ensures
        list_find(lists, off) == list_find(lists.skip(i), off),
    decreases i,
{
    if i > 0 {
        assert(lists.skip(i - 1).drop_first() =~= lists.skip(i));
        lemma_list_find_prefix(lists, off, i - 1);
    } else {
        assert(lists.skip(0) =~= lists);
    }
}

impl RangeTable {
    /// Find the list stored at section offset `off`.
    pub fn find<'a>(&'a self, off: u64) -> (r: Option<&'a Vec<RangeListEntry>>)
        ensures
            match r {
                Some(v) => list_find(self.lists@, off) == Some(v@),
                None => list_find(self.lists@, off) is None,
            },
    {
        let n = self.lists.len();
        let mut i: usize = 0;
        while i < n
            invariant
                n == self.lists@.len(),
                0 <= i <= n,
                forall|k: int| 0 <= k < i ==> self.lists@[k].offset != off,
            decreases n - i,
        {
            if self.lists[i].offset == off {
                proof {
                    lemma_list_find_prefix(self.lists@, off, i as int);
                    assert(self.lists@.skip(i as int)[0] == self.lists@[i as int]);
                }
                return Some(&self.lists[i].entries);
            }
            i += 1;
        }
        proof {
            lemma_list_find_prefix(self.lists@, off, n as int);
        }
        None
    }
}

/// The sum of the sub-range lengths of `entries[i..]` added onto `acc`.
///
/// Base-address markers contribute nothing. A sub-range that ends before
/// it begins is an invalid range, a sum beyond 64 bits is an overflow, and
/// the explicit start/end and start/length forms are a form fault in lists
/// of a version before 5.
pub open spec fn list_size_from(
    entries: Seq<RangeListEntry>,
    i: int,
    acc: u64,
    version: u16,
) -> Result<u64, ParseError>
    decreases entries.len() - i,
{
    if i < 0 || i >= entries.len() {
        Ok(acc)
    } else {
        match entries[i] {
            RangeListEntry::BaseAddress(_) => list_size_from(entries, i + 1, acc, version),
            RangeListEntry::OffsetPair(begin, end) => if end < begin {
                Err(ParseError::InvalidAddressRange)
            } else if acc + (end - begin) > u64::MAX {
                Err(ParseError::SizeOverflow)
            } else {
                list_size_from(entries, i + 1, (acc + (end - begin)) as u64, version)
            },
            RangeListEntry::StartEnd(start, end) => if version < 5 {
                Err(ParseError::UnexpectedAttributeForm)
            } else if end < start {
                Err(ParseError::InvalidAddressRange)
            } else if acc + (end - start) > u64::MAX {
                Err(ParseError::SizeOverflow)
            } else {
                list_size_from(entries, i + 1, (acc + (end - start)) as u64, version)
            },
            RangeListEntry::StartLength(_, len) => if version < 5 {
                Err(ParseError::UnexpectedAttributeForm)
            } else if acc + len > u64::MAX {
                Err(ParseError::SizeOverflow)
            } else {
                list_size_from(entries, i + 1, (acc + len) as u64, version)
            },
        }
    }
}

/// The total size in bytes of the sub-ranges of a range list.
pub open spec fn list_size(entries: Seq<RangeListEntry>, version: u16) -> Result<u64, ParseError> {
    list_size_from(entries, 0, 0, version)
}

/// Sum the sub-range lengths of one range list.
pub fn range_list_size(entries: &Vec<RangeListEntry>, version: u16) -> (r: Result<u64, ParseError>)
    ensures
        r == list_size(entries@, version),
{
    let n = entries.len();
    let mut i: usize = 0;
    let mut acc: u64 = 0;
    while i < n
        invariant
            n == entries@.len(),
            0 <= i <= n,
            list_size_from(entries@, i as int, acc, version) == list_size(entries@, version),
        decreases n - i,
    {
        match entries[i] {
            RangeListEntry::BaseAddress(_) => {},
            RangeListEntry::OffsetPair(begin, end) => {
                if end < begin {
                    return Err(ParseError::InvalidAddressRange);
                }
                let d = end - begin;
                if acc > u64::MAX - d {
                    return Err(ParseError::SizeOverflow);
                }
                acc = acc + d;
            },
            RangeListEntry::StartEnd(start, end) => {
                if version < 5 {
                    return Err(ParseError::UnexpectedAttributeForm);
                }
                if end < start {
                    return Err(ParseError::InvalidAddressRange);
                }
                let d = end - start;
                if acc > u64::MAX - d {
                    return Err(ParseError::SizeOverflow);
                }
                acc = acc + d;
            },
            RangeListEntry::StartLength(_, len) => {
                if version < 5 {
                    return Err(ParseError::UnexpectedAttributeForm);
                }
                if acc > u64::MAX - len {
                    return Err(ParseError::SizeOverflow);
                }
                acc = acc + len;
            },
        }
        i += 1;
    }
    Ok(acc)
}

} // verus!
