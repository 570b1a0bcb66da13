//! The address-range attributes of an entry, and the machine-code
//! footprint they encode.

use vstd::prelude::*;

use crate::attr::attr_find;
use crate::attr::attr_value;
use crate::attr::Attr;
use crate::attr::AttrValue;
use crate::attr::DW_AT_ENTRY_PC;
use crate::attr::DW_AT_HIGH_PC;
use crate::attr::DW_AT_LOW_PC;
use crate::attr::DW_AT_RANGES;
use crate::error::ParseError;
use crate::range_list::list_find;
use crate::range_list::list_size;
use crate::range_list::range_list_size;
use crate::range_list::RangeTable;
use crate::unit::Entry;

verus! {

/// What an entry carries for one of the location attributes: nothing, one
/// of the representations the size resolver interprets, or a
/// representation it does not.
#[derive(Clone, Copy, Debug, PartialEq, Eq, Structural)]
pub enum LocAttr {
    /// The entry has no such attribute.
    Missing,
    /// An absolute address.
    Addr(u64),
    /// An unsigned constant.
    Udata(u64),
    /// An offset into the range-list section.
    RangeRef(u64),
    /// Any other representation.
    OtherForm,
}

/// The location summary of one attribute value.
pub open spec fn loc_attr_of(v: Option<AttrValue>) -> LocAttr {
    match v {
        Option::None => LocAttr::Missing,
        Option::Some(AttrValue::Addr(a)) => LocAttr::Addr(a),
        Option::Some(AttrValue::Udata(u)) => LocAttr::Udata(u),
        Option::Some(AttrValue::RangeRef(r)) => LocAttr::RangeRef(r),
        Option::Some(_) => LocAttr::OtherForm,
    }
}

/// Read one attribute of the entry as a location summary.
fn loc_attr(attrs: &Vec<Attr>, id: u16) -> (r: LocAttr)
    ensures
        r == loc_attr_of(attr_find(attrs@, id)),
{
    match attr_value(attrs, id) {
        Option::None => LocAttr::Missing,
        Option::Some(v) => match v {
            AttrValue::Addr(a) => LocAttr::Addr(*a),
            AttrValue::Udata(u) => LocAttr::Udata(*u),
            AttrValue::RangeRef(r) => LocAttr::RangeRef(*r),
            _ => LocAttr::OtherForm,
        },
    }
}

/// The values of the attributes that describe an entity's location in the
/// binary, read out of one entry. Consolidating them here keeps the error
/// checking of the size computation in one place.
#[derive(Clone, Copy, Debug, PartialEq, Eq, Structural)]
pub struct DieLocationAttributes {
    pub dw_at_low_pc: LocAttr,
    pub dw_at_high_pc: LocAttr,
    pub dw_at_entry_pc: LocAttr,
    pub dw_at_ranges: LocAttr,
}

/// The location attributes of an entry.
pub open spec fn extract_loc(attrs: Seq<Attr>) -> DieLocationAttributes {
    DieLocationAttributes {
        dw_at_low_pc: loc_attr_of(attr_find(attrs, DW_AT_LOW_PC)),
        dw_at_high_pc: loc_attr_of(attr_find(attrs, DW_AT_HIGH_PC)),
        dw_at_entry_pc: loc_attr_of(attr_find(attrs, DW_AT_ENTRY_PC)),
        dw_at_ranges: loc_attr_of(attr_find(attrs, DW_AT_RANGES)),
    }
}

/// The entity's base address: the low-address attribute, or the
/// entry-address attribute where no low address exists. A base attribute
/// that is present but not an address is a form fault; an entity with
/// neither attribute has no base address and describes a declaration.
pub open spec fn base_addr_spec(la: DieLocationAttributes) -> Result<Option<u64>, ParseError> {
    match la.dw_at_low_pc {
        LocAttr::Addr(a) => Ok(Option::Some(a)),
        LocAttr::Missing => match la.dw_at_entry_pc {
            LocAttr::Addr(a) => Ok(Option::Some(a)),
            LocAttr::Missing => Ok(Option::None),
            _ => Err(ParseError::UnexpectedAttributeForm),
        },
        _ => Err(ParseError::UnexpectedAttributeForm),
    }
}

/// The size of a contiguous entity: the high-address attribute read either
/// as an absolute end address or as an offset from the base, whichever
/// representation the entry carries. `None` when the entry has no
/// high-address attribute.
pub open spec fn contiguous_size_spec(la: DieLocationAttributes, base: u64) -> Result<
    Option<u64>,
    ParseError,
> {
    match la.dw_at_high_pc {
        LocAttr::Missing => Ok(Option::None),
        LocAttr::Addr(end) => if end < base {
            Err(ParseError::InvalidAddressRange)
        } else {
            Ok(Option::Some((end - base) as u64))
        },
        LocAttr::Udata(off) => Ok(Option::Some(off)),
        _ => Err(ParseError::UnexpectedAttributeForm),
    }
}

/// The size of a discontiguous entity: the sum of the sub-range lengths of
/// the range list its ranges attribute refers to. `None` when the entry
/// has no ranges attribute.
pub open spec fn noncontiguous_size_spec(
    la: DieLocationAttributes,
    version: u16,
    table: RangeTable,
) -> Result<Option<u64>, ParseError> {
    match la.dw_at_ranges {
        LocAttr::Missing => Ok(Option::None),
        LocAttr::RangeRef(off) => match list_find(table.lists@, off) {
            Option::None => Err(ParseError::BrokenRangesReference),
            Option::Some(es) => match list_size(es, version) {
                Ok(sz) => Ok(Option::Some(sz)),
                Err(e) => Err(e),
            },
        },
        _ => Err(ParseError::UnexpectedAttributeForm),
    }
}

/// The machine-code footprint the location attributes encode, by the three
/// mutually exclusive encodings in their priority order: a contiguous
/// range where a high address exists, a range list where a ranges
/// attribute exists, and otherwise a single address unit. `None` when the
/// entity has no base address at all: such an entry describes a
/// declaration and has no footprint of its own.
pub open spec fn entity_size_spec(
    la: DieLocationAttributes,
    addr_size: u8,
    version: u16,
    table: RangeTable,
) -> Result<Option<u64>, ParseError> {
    match base_addr_spec(la) {
        Err(e) => Err(e),
        Ok(Option::None) => Ok(Option::None),
        Ok(Option::Some(base)) => match contiguous_size_spec(la, base) {
            Err(e) => Err(e),
            Ok(Option::Some(sz)) => Ok(Option::Some(sz)),
            Ok(Option::None) => match noncontiguous_size_spec(la, version, table) {
                Err(e) => Err(e),
                Ok(Option::Some(sz)) => Ok(Option::Some(sz)),
                Ok(Option::None) => Ok(Option::Some(addr_size as u64)),
            },
        },
    }
}

impl DieLocationAttributes {
    /// Read the location attributes out of the given entry.
    pub fn try_from(die: &Entry) -> (r: Result<Self, ParseError>)
        ensures
            r == Ok::<DieLocationAttributes, ParseError>(extract_loc(die.attrs@)),
    {
        Ok(
            DieLocationAttributes {
                dw_at_low_pc: loc_attr(&die.attrs, DW_AT_LOW_PC),
                dw_at_high_pc: loc_attr(&die.attrs, DW_AT_HIGH_PC),
                dw_at_entry_pc: loc_attr(&die.attrs, DW_AT_ENTRY_PC),
                dw_at_ranges: loc_attr(&die.attrs, DW_AT_RANGES),
            },
        )
    }

    /// The entity's base address, if it has one.
    fn base_addr(&self) -> (r: Result<Option<u64>, ParseError>)
        ensures
            r == base_addr_spec(*self),
    {
        match self.dw_at_low_pc {
            LocAttr::Addr(a) => Ok(Option::Some(a)),
            LocAttr::Missing => match self.dw_at_entry_pc {
                LocAttr::Addr(a) => Ok(Option::Some(a)),
                LocAttr::Missing => Ok(Option::None),
                _ => Err(ParseError::UnexpectedAttributeForm),
            },
            _ => Err(ParseError::UnexpectedAttributeForm),
        }
    }

    /// The size of an entity occupying one contiguous address range.
    fn contiguous_entity_size(&self, base: u64) -> (r: Result<Option<u64>, ParseError>)
        ensures
            r == contiguous_size_spec(*self, base),
    {
        match self.dw_at_high_pc {
            LocAttr::Missing => Ok(Option::None),
            LocAttr::Addr(end) => {
                if end < base {
                    Err(ParseError::InvalidAddressRange)
                } else {
                    Ok(Option::Some(end - base))
                }
            },
            LocAttr::Udata(off) => Ok(Option::Some(off)),
            _ => Err(ParseError::UnexpectedAttributeForm),
        }
    }

    /// The size of an entity occupying a series of discontiguous address
    /// ranges.
    fn noncontiguous_entity_size(&self, version: u16, rnglists: &RangeTable) -> (r: Result<
        Option<u64>,
        ParseError,
    >)
        ensures
            r == noncontiguous_size_spec(*self, version, *rnglists),
    {
        match self.dw_at_ranges {
            LocAttr::Missing => Ok(Option::None),
            LocAttr::RangeRef(off) => match rnglists.find(off) {
                Option::None => Err(ParseError::BrokenRangesReference),
                Option::Some(es) => match range_list_size(es, version) {
                    Ok(sz) => Ok(Option::Some(sz)),
                    Err(e) => Err(e),
                },
            },
            _ => Err(ParseError::UnexpectedAttributeForm),
        }
    }

    /// Compute the machine-code footprint of the entity these attributes
    /// describe, or `None` for a declaration without any address range.
    pub fn entity_size(&self, addr_size: u8, version: u16, rnglists: &RangeTable) -> (r: Result<
        Option<u64>,
        ParseError,
    >)
        ensures
            r == entity_size_spec(*self, addr_size, version, *rnglists),
    {
        match self.base_addr()? {
            Option::None => Ok(Option::None),
            Option::Some(base) => match self.contiguous_entity_size(base)? {
                Option::Some(sz) => Ok(Option::Some(sz)),
                Option::None => match self.noncontiguous_entity_size(version, rnglists)? {
                    Option::Some(sz) => Ok(Option::Some(sz)),
                    Option::None => Ok(Option::Some(addr_size as u64)),
                },
            },
        }
    }
}

/// The footprint of a subroutine-kind entry: its entity size, or zero for
/// a declaration that carries no address range at all.
pub open spec fn subroutine_size_spec(
    attrs: Seq<Attr>,
    addr_size: u8,
    version: u16,
    table: RangeTable,
) -> Result<u64, ParseError> {
    match entity_size_spec(extract_loc(attrs), addr_size, version, table) {
        Err(e) => Err(e),
        Ok(Option::Some(sz)) => Ok(sz),
        Ok(Option::None) => Ok(0u64),
    }
}

/// The footprint of a compilation unit's descriptor entry: its entity
/// size. A unit descriptor without any address range carries no footprint
/// to attribute, which is a missing-data fault, not a declaration.
pub open spec fn compilation_unit_size_spec(
    attrs: Seq<Attr>,
    addr_size: u8,
    version: u16,
    table: RangeTable,
) -> Result<u64, ParseError> {
    match entity_size_spec(extract_loc(attrs), addr_size, version, table) {
        Err(e) => Err(e),
        Ok(Option::Some(sz)) => Ok(sz),
        Ok(Option::None) => Err(ParseError::MissingLocationAttributes),
    }
}

/// Compute the size of a subroutine, label or block entry. An entry
/// without any address range describes a declaration and is zero-sized,
/// not an error.
pub fn subroutine_size(die: &Entry, addr_size: u8, version: u16, rnglists: &RangeTable) -> (r:
    Result<u64, ParseError>)
    ensures
        r == subroutine_size_spec(die.attrs@, addr_size, version, *rnglists),
{
    let la = DieLocationAttributes::try_from(die)?;
    match la.entity_size(addr_size, version, rnglists)? {
        Option::Some(sz) => Ok(sz),
        Option::None => Ok(0),
    }
}

/// Compute the size of a compilation unit's descriptor entry.
pub fn compilation_unit_size(die: &Entry, addr_size: u8, version: u16, rnglists: &RangeTable) -> (r:
    Result<u64, ParseError>)
    ensures
        r == compilation_unit_size_spec(die.attrs@, addr_size, version, *rnglists),
{
    let la = DieLocationAttributes::try_from(die)?;
    match la.entity_size(addr_size, version, rnglists)? {
        Option::Some(sz) => Ok(sz),
        Option::None => Err(ParseError::MissingLocationAttributes),
    }
}

} // verus!
