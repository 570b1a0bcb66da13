//! Tests of tag classification and of text rendering.

use dwarf_items::error::ParseError;
use dwarf_items::kind::{
    item_kind, CodeKind, ItemKind, ItemKindTemplate, DW_TAG_ARRAY_TYPE, DW_TAG_BASE_TYPE,
    DW_TAG_CALL_SITE, DW_TAG_CATCH_BLOCK, DW_TAG_COMPILE_UNIT, DW_TAG_CONSTANT,
    DW_TAG_DWARF_PROCEDURE, DW_TAG_ENTRY_POINT, DW_TAG_ENUMERATION_TYPE, DW_TAG_ENUMERATOR,
    DW_TAG_FORMAL_PARAMETER, DW_TAG_HI_USER, DW_TAG_IMPORTED_DECLARATION, DW_TAG_IMPORTED_MODULE,
    DW_TAG_IMPORTED_UNIT, DW_TAG_INLINED_SUBROUTINE, DW_TAG_LABEL, DW_TAG_LEXICAL_BLOCK,
    DW_TAG_LO_USER, DW_TAG_MEMBER, DW_TAG_MODULE, DW_TAG_NAMESPACE, DW_TAG_PARTIAL_UNIT,
    DW_TAG_POINTER_TYPE, DW_TAG_SKELETON_UNIT, DW_TAG_STRUCTURE_TYPE, DW_TAG_SUBPROGRAM,
    DW_TAG_SUBROUTINE_TYPE, DW_TAG_TRY_BLOCK, DW_TAG_TYPEDEF, DW_TAG_TYPE_UNIT, DW_TAG_VARIABLE,
    DW_TAG_WITH_STMT,
};
use dwarf_items::text::{fallback_item_name, u64_to_string};

#[test]
fn classify_units_are_code() {
    for tag in [
        DW_TAG_COMPILE_UNIT,
        DW_TAG_PARTIAL_UNIT,
        DW_TAG_IMPORTED_UNIT,
        DW_TAG_TYPE_UNIT,
        DW_TAG_SKELETON_UNIT,
    ] {
        assert_eq!(item_kind(tag), Ok(Some(ItemKindTemplate::Code(CodeKind::Unit))));
    }
}

#[test]
fn classify_scopes() {
    for tag in [
        DW_TAG_MODULE,
        DW_TAG_NAMESPACE,
        DW_TAG_IMPORTED_MODULE,
        DW_TAG_IMPORTED_DECLARATION,
    ] {
        assert_eq!(item_kind(tag), Ok(Some(ItemKindTemplate::Scope)));
    }
}

#[test]
fn classify_subroutines_labels_blocks() {
    for tag in [DW_TAG_SUBPROGRAM, DW_TAG_INLINED_SUBROUTINE, DW_TAG_ENTRY_POINT] {
        assert_eq!(item_kind(tag), Ok(Some(ItemKindTemplate::Code(CodeKind::Subroutine))));
    }
    assert_eq!(item_kind(DW_TAG_LABEL), Ok(Some(ItemKindTemplate::Code(CodeKind::Label))));
    for tag in [DW_TAG_LEXICAL_BLOCK, DW_TAG_TRY_BLOCK, DW_TAG_CATCH_BLOCK] {
        assert_eq!(item_kind(tag), Ok(Some(ItemKindTemplate::Code(CodeKind::Block))));
    }
}

#[test]
fn classify_data_objects() {
    for tag in [DW_TAG_VARIABLE, DW_TAG_FORMAL_PARAMETER, DW_TAG_CONSTANT] {
        assert_eq!(item_kind(tag), Ok(Some(ItemKindTemplate::Data)));
    }
}

#[test]
fn classify_type_descriptors_yield_no_node() {
    for tag in [
        DW_TAG_BASE_TYPE,
        DW_TAG_POINTER_TYPE,
        DW_TAG_STRUCTURE_TYPE,
        DW_TAG_TYPEDEF,
        DW_TAG_ARRAY_TYPE,
        DW_TAG_ENUMERATION_TYPE,
        DW_TAG_SUBROUTINE_TYPE,
        DW_TAG_MEMBER,
        DW_TAG_ENUMERATOR,
        DW_TAG_WITH_STMT,
        DW_TAG_CALL_SITE,
        DW_TAG_DWARF_PROCEDURE,
    ] {
        assert_eq!(item_kind(tag), Ok(None));
    }
}

#[test]
fn classify_vendor_range_yields_no_node() {
    assert_eq!(item_kind(DW_TAG_LO_USER), Ok(None));
    assert_eq!(item_kind(0x4101), Ok(None));
    assert_eq!(item_kind(DW_TAG_HI_USER), Ok(None));
}

#[test]
fn classify_every_legal_tag_is_handled() {
    // Total classification: scanning the whole 16-bit space, every value
    // either classifies (concrete template or explicit no node) or faults
    // as unrecognized; no value is left unhandled.
    let mut legal = 0u32;
    let mut illegal = 0u32;
    for tag in 0..=0xffffu32 {
        match item_kind(tag as u16) {
            Ok(_) => legal += 1,
            Err(e) => {
                assert_eq!(e, ParseError::UnrecognizedTag);
                illegal += 1;
            }
        }
    }
    assert_eq!(legal + illegal, 0x10000);
    // The named tags plus the vendor-extension range.
    assert_eq!(legal, 68 + (0xffff - 0x4080 + 1));
}

#[test]
fn classify_illegal_tags_fault() {
    for tag in [0x00u16, 0x06, 0x07, 0x0c, 0x0e, 0x14, 0x3e, 0x4c, 0x100, 0x407f] {
        assert_eq!(item_kind(tag), Err(ParseError::UnrecognizedTag));
    }
}

#[test]
fn template_kinds() {
    assert_eq!(ItemKindTemplate::Code(CodeKind::Unit).kind(), ItemKind::Code);
    assert_eq!(ItemKindTemplate::Code(CodeKind::Subroutine).kind(), ItemKind::Code);
    assert_eq!(ItemKindTemplate::Data.kind(), ItemKind::Data);
    assert_eq!(ItemKindTemplate::Scope.kind(), ItemKind::Scope);
    assert_eq!(ItemKindTemplate::Debug.kind(), ItemKind::Debug);
    assert_eq!(ItemKindTemplate::Misc.kind(), ItemKind::Misc);
}

#[test]
fn decimal_rendering() {
    assert_eq!(u64_to_string(0), "0");
    assert_eq!(u64_to_string(7), "7");
    assert_eq!(u64_to_string(10), "10");
    assert_eq!(u64_to_string(90210), "90210");
    assert_eq!(u64_to_string(u64::MAX), "18446744073709551615");
}

#[test]
fn fallback_names() {
    assert_eq!(fallback_item_name(ItemKind::Code, 0, 0), "Code[0, 0]");
    assert_eq!(fallback_item_name(ItemKind::Scope, 3, 41), "Scope[3, 41]");
    assert_eq!(fallback_item_name(ItemKind::Data, 12, 7), "Data[12, 7]");
}
