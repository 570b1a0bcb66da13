//! Classification of entry tags into item kinds.

use vstd::prelude::*;

use crate::error::ParseError;

verus! {

/// The semantic category of an item in the output graph.
#[derive(Clone, Copy, Debug, PartialEq, Eq, Structural)]
pub enum ItemKind {
    /// Executable machine code: compilation units, subroutines, labels and
    /// lexical-scope-bearing blocks.
    Code,
    /// Data objects: variables, parameters and constants.
    Data,
    /// Naming scopes: modules, namespaces and imports.
    Scope,
    /// Meta entries that describe the debugging data itself. No entry tag
    /// maps here yet; the variant is part of the output data model for
    /// graphs assembled from further sources.
    Debug,
    /// Anything else that still yields a node. No entry tag maps here yet.
    Misc,
}

/// The flavour of an executable entry. The size resolver's policy depends
/// on it: a unit descriptor must carry an address range, while subroutines,
/// labels and blocks may be declarations without one.
#[derive(Clone, Copy, Debug, PartialEq, Eq, Structural)]
pub enum CodeKind {
    /// A compilation unit's own descriptor entry.
    Unit,
    /// A subroutine, an inlined subroutine or an entry point.
    Subroutine,
    /// A code label.
    Label,
    /// A lexical block or a try/catch block.
    Block,
}

/// What the classifier derives from a tag: the kind of the item the entry
/// will produce, refined by the detail the later resolvers need.
#[derive(Clone, Copy, Debug, PartialEq, Eq, Structural)]
pub enum ItemKindTemplate {
    Code(CodeKind),
    Data,
    Scope,
    Debug,
    Misc,
}

impl ItemKindTemplate {
    /// The kind of the item this template produces.
    pub open spec fn spec_kind(self) -> ItemKind {
        match self {
            ItemKindTemplate::Code(_) => ItemKind::Code,
            ItemKindTemplate::Data => ItemKind::Data,
            ItemKindTemplate::Scope => ItemKind::Scope,
            ItemKindTemplate::Debug => ItemKind::Debug,
            ItemKindTemplate::Misc => ItemKind::Misc,
        }
    }

    /// The kind of the item this template produces.
    pub fn kind(&self) -> (r: ItemKind)
        ensures
            r == self.spec_kind(),
    {
        match self {
            ItemKindTemplate::Code(_) => ItemKind::Code,
            ItemKindTemplate::Data => ItemKind::Data,
            ItemKindTemplate::Scope => ItemKind::Scope,
            ItemKindTemplate::Debug => ItemKind::Debug,
            ItemKindTemplate::Misc => ItemKind::Misc,
        }
    }
}

// The structural tags of the format, by chapter of its specification.
// Program scope entries:
pub const DW_TAG_COMPILE_UNIT: u16 = 0x11;

pub const DW_TAG_PARTIAL_UNIT: u16 = 0x3c;

pub const DW_TAG_IMPORTED_UNIT: u16 = 0x3d;

pub const DW_TAG_TYPE_UNIT: u16 = 0x41;

pub const DW_TAG_SKELETON_UNIT: u16 = 0x4a;

pub const DW_TAG_MODULE: u16 = 0x1e;

pub const DW_TAG_NAMESPACE: u16 = 0x39;

pub const DW_TAG_IMPORTED_MODULE: u16 = 0x3a;

pub const DW_TAG_IMPORTED_DECLARATION: u16 = 0x08;

pub const DW_TAG_SUBPROGRAM: u16 = 0x2e;

pub const DW_TAG_INLINED_SUBROUTINE: u16 = 0x1d;

pub const DW_TAG_ENTRY_POINT: u16 = 0x03;

pub const DW_TAG_LABEL: u16 = 0x0a;

pub const DW_TAG_WITH_STMT: u16 = 0x22;

// Data object and object list entries:
pub const DW_TAG_VARIABLE: u16 = 0x34;

pub const DW_TAG_FORMAL_PARAMETER: u16 = 0x05;

pub const DW_TAG_CONSTANT: u16 = 0x27;

pub const DW_TAG_COMMON_BLOCK: u16 = 0x1a;

pub const DW_TAG_NAMELIST: u16 = 0x2b;

pub const DW_TAG_NAMELIST_ITEM: u16 = 0x2c;

// Type entries:
pub const DW_TAG_BASE_TYPE: u16 = 0x24;

pub const DW_TAG_UNSPECIFIED_TYPE: u16 = 0x3b;

pub const DW_TAG_ATOMIC_TYPE: u16 = 0x47;

pub const DW_TAG_CONST_TYPE: u16 = 0x26;

pub const DW_TAG_IMMUTABLE_TYPE: u16 = 0x4b;

pub const DW_TAG_PACKED_TYPE: u16 = 0x2d;

pub const DW_TAG_POINTER_TYPE: u16 = 0x0f;

pub const DW_TAG_REFERENCE_TYPE: u16 = 0x10;

pub const DW_TAG_RESTRICT_TYPE: u16 = 0x37;

pub const DW_TAG_RVALUE_REFERENCE_TYPE: u16 = 0x42;

pub const DW_TAG_SHARED_TYPE: u16 = 0x40;

pub const DW_TAG_VOLATILE_TYPE: u16 = 0x35;

pub const DW_TAG_TYPEDEF: u16 = 0x16;

pub const DW_TAG_ARRAY_TYPE: u16 = 0x01;

pub const DW_TAG_COARRAY_TYPE: u16 = 0x44;

pub const DW_TAG_CLASS_TYPE: u16 = 0x02;

pub const DW_TAG_STRUCTURE_TYPE: u16 = 0x13;

pub const DW_TAG_UNION_TYPE: u16 = 0x17;

pub const DW_TAG_INTERFACE_TYPE: u16 = 0x38;

pub const DW_TAG_INHERITANCE: u16 = 0x1c;

pub const DW_TAG_ACCESS_DECLARATION: u16 = 0x23;

pub const DW_TAG_FRIEND: u16 = 0x2a;

pub const DW_TAG_MEMBER: u16 = 0x0d;

pub const DW_TAG_VARIANT: u16 = 0x19;

pub const DW_TAG_VARIANT_PART: u16 = 0x33;

pub const DW_TAG_CONDITION: u16 = 0x3f;

pub const DW_TAG_ENUMERATION_TYPE: u16 = 0x04;

pub const DW_TAG_SUBROUTINE_TYPE: u16 = 0x15;

pub const DW_TAG_STRING_TYPE: u16 = 0x12;

pub const DW_TAG_SET_TYPE: u16 = 0x20;

pub const DW_TAG_SUBRANGE_TYPE: u16 = 0x21;

pub const DW_TAG_PTR_TO_MEMBER_TYPE: u16 = 0x1f;

pub const DW_TAG_FILE_TYPE: u16 = 0x29;

pub const DW_TAG_DYNAMIC_TYPE: u16 = 0x46;

pub const DW_TAG_TEMPLATE_ALIAS: u16 = 0x43;

// Miscellaneous tags:
pub const DW_TAG_LEXICAL_BLOCK: u16 = 0x0b;

pub const DW_TAG_TRY_BLOCK: u16 = 0x32;

pub const DW_TAG_CATCH_BLOCK: u16 = 0x25;

pub const DW_TAG_CALL_SITE: u16 = 0x48;

pub const DW_TAG_CALL_SITE_PARAMETER: u16 = 0x49;

pub const DW_TAG_UNSPECIFIED_PARAMETERS: u16 = 0x18;

pub const DW_TAG_COMMON_INCLUSION: u16 = 0x1b;

pub const DW_TAG_ENUMERATOR: u16 = 0x28;

pub const DW_TAG_TEMPLATE_VALUE_PARAMETER: u16 = 0x30;

pub const DW_TAG_TEMPLATE_TYPE_PARAMETER: u16 = 0x2f;

pub const DW_TAG_THROWN_TYPE: u16 = 0x31;

pub const DW_TAG_DWARF_PROCEDURE: u16 = 0x36;

pub const DW_TAG_GENERIC_SUBRANGE: u16 = 0x45;

// The range the format reserves for vendor extensions.
pub const DW_TAG_LO_USER: u16 = 0x4080;

pub const DW_TAG_HI_USER: u16 = 0xffff;

/// Whether `tag` lies in the legal tag set: the named structural tags of
/// the format together with the whole vendor-extension range.
pub open spec fn tag_is_legal(tag: u16) -> bool {
    ||| tag == DW_TAG_COMPILE_UNIT
    ||| tag == DW_TAG_PARTIAL_UNIT
    ||| tag == DW_TAG_IMPORTED_UNIT
    ||| tag == DW_TAG_TYPE_UNIT
    ||| tag == DW_TAG_SKELETON_UNIT
    ||| tag == DW_TAG_MODULE
    ||| tag == DW_TAG_NAMESPACE
    ||| tag == DW_TAG_IMPORTED_MODULE
    ||| tag == DW_TAG_IMPORTED_DECLARATION
    ||| tag == DW_TAG_SUBPROGRAM
    ||| tag == DW_TAG_INLINED_SUBROUTINE
    ||| tag == DW_TAG_ENTRY_POINT
    ||| tag == DW_TAG_LABEL
    ||| tag == DW_TAG_WITH_STMT
    ||| tag == DW_TAG_VARIABLE
    ||| tag == DW_TAG_FORMAL_PARAMETER
    ||| tag == DW_TAG_CONSTANT
    ||| tag == DW_TAG_COMMON_BLOCK
    ||| tag == DW_TAG_NAMELIST
    ||| tag == DW_TAG_NAMELIST_ITEM
    ||| tag == DW_TAG_BASE_TYPE
    ||| tag == DW_TAG_UNSPECIFIED_TYPE
    ||| tag == DW_TAG_ATOMIC_TYPE
    ||| tag == DW_TAG_CONST_TYPE
    ||| tag == DW_TAG_IMMUTABLE_TYPE
    ||| tag == DW_TAG_PACKED_TYPE
    ||| tag == DW_TAG_POINTER_TYPE
    ||| tag == DW_TAG_REFERENCE_TYPE
    ||| tag == DW_TAG_RESTRICT_TYPE
    ||| tag == DW_TAG_RVALUE_REFERENCE_TYPE
    ||| tag == DW_TAG_SHARED_TYPE
    ||| tag == DW_TAG_VOLATILE_TYPE
    ||| tag == DW_TAG_TYPEDEF
    ||| tag == DW_TAG_ARRAY_TYPE
    ||| tag == DW_TAG_COARRAY_TYPE
    ||| tag == DW_TAG_CLASS_TYPE
    ||| tag == DW_TAG_STRUCTURE_TYPE
    ||| tag == DW_TAG_UNION_TYPE
    ||| tag == DW_TAG_INTERFACE_TYPE
    ||| tag == DW_TAG_INHERITANCE
    ||| tag == DW_TAG_ACCESS_DECLARATION
    ||| tag == DW_TAG_FRIEND
    ||| tag == DW_TAG_MEMBER
    ||| tag == DW_TAG_VARIANT
    ||| tag == DW_TAG_VARIANT_PART
    ||| tag == DW_TAG_CONDITION
    ||| tag == DW_TAG_ENUMERATION_TYPE
    ||| tag == DW_TAG_SUBROUTINE_TYPE
    ||| tag == DW_TAG_STRING_TYPE
    ||| tag == DW_TAG_SET_TYPE
    ||| tag == DW_TAG_SUBRANGE_TYPE
    ||| tag == DW_TAG_PTR_TO_MEMBER_TYPE
    ||| tag == DW_TAG_FILE_TYPE
    ||| tag == DW_TAG_DYNAMIC_TYPE
    ||| tag == DW_TAG_TEMPLATE_ALIAS
    ||| tag == DW_TAG_LEXICAL_BLOCK
    ||| tag == DW_TAG_TRY_BLOCK
    ||| tag == DW_TAG_CATCH_BLOCK
    ||| tag == DW_TAG_CALL_SITE
    ||| tag == DW_TAG_CALL_SITE_PARAMETER
    ||| tag == DW_TAG_UNSPECIFIED_PARAMETERS
    ||| tag == DW_TAG_COMMON_INCLUSION
    ||| tag == DW_TAG_ENUMERATOR
    ||| tag == DW_TAG_TEMPLATE_VALUE_PARAMETER
    ||| tag == DW_TAG_TEMPLATE_TYPE_PARAMETER
    ||| tag == DW_TAG_THROWN_TYPE
    ||| tag == DW_TAG_DWARF_PROCEDURE
    ||| tag == DW_TAG_GENERIC_SUBRANGE
    ||| tag >= DW_TAG_LO_USER
}

/// The template a legal tag classifies to, or `None` for a legal tag whose
/// entries yield no node (most type-descriptor tags and all vendor
/// extensions).
pub open spec fn kind_template(tag: u16) -> Option<ItemKindTemplate> {
    if tag == DW_TAG_COMPILE_UNIT || tag == DW_TAG_PARTIAL_UNIT || tag == DW_TAG_IMPORTED_UNIT
        || tag == DW_TAG_TYPE_UNIT || tag == DW_TAG_SKELETON_UNIT {
        Some(ItemKindTemplate::Code(CodeKind::Unit))
    } else if tag == DW_TAG_MODULE || tag == DW_TAG_NAMESPACE || tag == DW_TAG_IMPORTED_MODULE
        || tag == DW_TAG_IMPORTED_DECLARATION {
        Some(ItemKindTemplate::Scope)
    } else if tag == DW_TAG_SUBPROGRAM || tag == DW_TAG_INLINED_SUBROUTINE || tag
        == DW_TAG_ENTRY_POINT {
        Some(ItemKindTemplate::Code(CodeKind::Subroutine))
    } else if tag == DW_TAG_LABEL {
        Some(ItemKindTemplate::Code(CodeKind::Label))
    } else if tag == DW_TAG_LEXICAL_BLOCK || tag == DW_TAG_TRY_BLOCK || tag == DW_TAG_CATCH_BLOCK {
        Some(ItemKindTemplate::Code(CodeKind::Block))
    } else if tag == DW_TAG_VARIABLE || tag == DW_TAG_FORMAL_PARAMETER || tag == DW_TAG_CONSTANT {
        Some(ItemKindTemplate::Data)
    } else {
        None
    }
}

/// What classification returns for any tag value: the template (or the
/// explicit no-node outcome) for a legal tag, and a classification fault
/// for a tag outside the legal set.
pub open spec fn classification(tag: u16) -> Result<Option<ItemKindTemplate>, ParseError> {
    if tag_is_legal(tag) {
        Ok(kind_template(tag))
    } else {
        Err(ParseError::UnrecognizedTag)
    }
}

/// Classify an entry's structural tag into the kind of item the entry
/// produces.
///
/// The mapping is total over the legal tag set: every legal tag yields
/// either a concrete kind template or the explicit no-node outcome
/// `Ok(None)`, and every tag outside the legal set yields
/// `Err(ParseError::UnrecognizedTag)`. Where the format itself lets
/// several structural concepts share a tag, classification goes by the
/// immediate tag alone; disambiguation by attribute inspection belongs to
/// a later pass.
pub fn item_kind(tag: u16) -> (r: Result<Option<ItemKindTemplate>, ParseError>)
    ensures
        r == classification(tag),
        tag_is_legal(tag) <==> r is Ok,
{
    if tag == DW_TAG_COMPILE_UNIT || tag == DW_TAG_PARTIAL_UNIT || tag == DW_TAG_IMPORTED_UNIT
        || tag == DW_TAG_TYPE_UNIT || tag == DW_TAG_SKELETON_UNIT {
        Ok(Some(ItemKindTemplate::Code(CodeKind::Unit)))
    } else if tag == DW_TAG_MODULE || tag == DW_TAG_NAMESPACE || tag == DW_TAG_IMPORTED_MODULE
        || tag == DW_TAG_IMPORTED_DECLARATION {
        Ok(Some(ItemKindTemplate::Scope))
    } else if tag == DW_TAG_SUBPROGRAM || tag == DW_TAG_INLINED_SUBROUTINE || tag
        == DW_TAG_ENTRY_POINT {
        Ok(Some(ItemKindTemplate::Code(CodeKind::Subroutine)))
    } else if tag == DW_TAG_LABEL {
        Ok(Some(ItemKindTemplate::Code(CodeKind::Label)))
    } else if tag == DW_TAG_LEXICAL_BLOCK || tag == DW_TAG_TRY_BLOCK || tag == DW_TAG_CATCH_BLOCK {
        Ok(Some(ItemKindTemplate::Code(CodeKind::Block)))
    } else if tag == DW_TAG_VARIABLE || tag == DW_TAG_FORMAL_PARAMETER || tag == DW_TAG_CONSTANT {
        Ok(Some(ItemKindTemplate::Data))
    } else if tag == DW_TAG_WITH_STMT || tag == DW_TAG_COMMON_BLOCK || tag == DW_TAG_NAMELIST
        || tag == DW_TAG_NAMELIST_ITEM || tag == DW_TAG_BASE_TYPE || tag == DW_TAG_UNSPECIFIED_TYPE
        || tag == DW_TAG_ATOMIC_TYPE || tag == DW_TAG_CONST_TYPE || tag == DW_TAG_IMMUTABLE_TYPE
        || tag == DW_TAG_PACKED_TYPE || tag == DW_TAG_POINTER_TYPE || tag == DW_TAG_REFERENCE_TYPE
        || tag == DW_TAG_RESTRICT_TYPE || tag == DW_TAG_RVALUE_REFERENCE_TYPE || tag
        == DW_TAG_SHARED_TYPE || tag == DW_TAG_VOLATILE_TYPE || tag == DW_TAG_TYPEDEF || tag
        == DW_TAG_ARRAY_TYPE || tag == DW_TAG_COARRAY_TYPE || tag == DW_TAG_CLASS_TYPE || tag
        == DW_TAG_STRUCTURE_TYPE || tag == DW_TAG_UNION_TYPE || tag == DW_TAG_INTERFACE_TYPE
        || tag == DW_TAG_INHERITANCE || tag == DW_TAG_ACCESS_DECLARATION || tag == DW_TAG_FRIEND
        || tag == DW_TAG_MEMBER || tag == DW_TAG_VARIANT || tag == DW_TAG_VARIANT_PART || tag
        == DW_TAG_CONDITION || tag == DW_TAG_ENUMERATION_TYPE || tag == DW_TAG_SUBROUTINE_TYPE
        || tag == DW_TAG_STRING_TYPE || tag == DW_TAG_SET_TYPE || tag == DW_TAG_SUBRANGE_TYPE
        || tag == DW_TAG_PTR_TO_MEMBER_TYPE || tag == DW_TAG_FILE_TYPE || tag
        == DW_TAG_DYNAMIC_TYPE || tag == DW_TAG_TEMPLATE_ALIAS || tag == DW_TAG_CALL_SITE || tag
        == DW_TAG_CALL_SITE_PARAMETER || tag == DW_TAG_UNSPECIFIED_PARAMETERS || tag
        == DW_TAG_COMMON_INCLUSION || tag == DW_TAG_ENUMERATOR || tag
        == DW_TAG_TEMPLATE_VALUE_PARAMETER || tag == DW_TAG_TEMPLATE_TYPE_PARAMETER || tag
        == DW_TAG_THROWN_TYPE || tag == DW_TAG_DWARF_PROCEDURE || tag == DW_TAG_GENERIC_SUBRANGE
        || tag >= DW_TAG_LO_USER {
        Ok(None)
    } else {
        Err(ParseError::UnrecognizedTag)
    }
}

/// Total classification: every legal tag classifies to a concrete kind
/// template or to the explicit no-node outcome, and every tag outside the
/// legal set faults with `UnrecognizedTag`.
pub proof fn lemma_total_classification(tag: u16)
    ensures
        tag_is_legal(tag) ==> classification(tag) == Ok::<Option<ItemKindTemplate>, ParseError>(
            kind_template(tag),
        ),
        !tag_is_legal(tag) ==> classification(tag) == Err::<Option<ItemKindTemplate>, ParseError>(
            ParseError::UnrecognizedTag,
        ),
{
}

} // verus!
