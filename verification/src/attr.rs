//! Attributes of a debugging information entry.

use vstd::prelude::*;

verus! {

// The attribute identifiers that the traversal reads.
/// The entity's declared name.
pub const DW_AT_NAME: u16 = 0x03;

/// The lowest machine-code address the entity covers.
pub const DW_AT_LOW_PC: u16 = 0x11;

/// The end of the entity's contiguous address range, as an absolute
/// address or as an offset from the base.
pub const DW_AT_HIGH_PC: u16 = 0x12;

/// The entity's entry address, serving as its base address where no low
/// address exists.
pub const DW_AT_ENTRY_PC: u16 = 0x52;

/// A reference into the range-list section for a discontiguous entity.
pub const DW_AT_RANGES: u16 = 0x55;

/// The decoded value of one attribute.
///
/// Only the representations that the traversal interprets are carried in
/// full; every other form is `Other`, which the core hands through without
/// reading.
#[derive(Debug, PartialEq, Eq)]
pub enum AttrValue {
    /// An absolute machine-code address.
    Addr(u64),
    /// An unsigned constant.
    Udata(u64),
    /// An offset into the string table.
    StrRef(u64),
    /// A string stored inline in the entry itself.
    Str(Vec<u8>),
    /// An offset into the range-list section.
    RangeRef(u64),
    /// Any representation the core does not interpret.
    Other,
}

/// One attribute of an entry: an identifier and its decoded value.
#[derive(Debug, PartialEq, Eq)]
pub struct Attr {
    pub id: u16,
    pub value: AttrValue,
}

/// The value of the first attribute with identifier `id`, or `None` if the
/// entry carries no such attribute.
pub open spec fn attr_find(attrs: Seq<Attr>, id: u16) -> Option<AttrValue>
    decreases attrs.len(),
{
    if attrs.len() == 0 {
        None
    } else if attrs[0].id == id {
        Some(attrs[0].value)
    } else {
        attr_find(attrs.drop_first(), id)
    }
}

proof fn lemma_attr_find_prefix(attrs: Seq<Attr>, id: u16, i: int)
    requires
        0 <= i <= attrs.len(),
        forall|k: int| 0 <= k < i ==> attrs[k].id != id,
    ensures
        attr_find(attrs, id) == attr_find(attrs.skip(i), id),
    decreases i,
{
    if i > 0 {
        assert(attrs.skip(i - 1).drop_first() =~= attrs.skip(i));
        lemma_attr_find_prefix(attrs, id, i - 1);
    } else {
        assert(attrs.skip(0) =~= attrs);
    }
}

/// Find the first attribute of `attrs` with identifier `id`.
pub fn attr_value<'a>(attrs: &'a Vec<Attr>, id: u16) -> (r: Option<&'a AttrValue>)
    ensures
        match r {
            Some(v) => attr_find(attrs@, id) == Some(*v),
            None => attr_find(attrs@, id) is None,
        },
{
    let n = attrs.len();
    let mut i: usize = 0;
    while i < n
        invariant
            n == attrs@.len(),
            0 <= i <= n,
            forall|k: int| 0 <= k < i ==> attrs@[k].id != id,
        decreases n - i,
    {
        if attrs[i].id == id {
            proof {
                lemma_attr_find_prefix(attrs@, id, i as int);
                assert(attrs@.skip(i as int)[0] == attrs@[i as int]);
            }
            return Some(&attrs[i].value);
        }
        i += 1;
    }
    proof {
        lemma_attr_find_prefix(attrs@, id, n as int);
        assert(attrs@.skip(n as int).len() == 0);
    }
    None
}

} // verus!
