//! Tests of name resolution, the entry cursor, and the whole traversal.

use dwarf_items::attr::{Attr, AttrValue, DW_AT_HIGH_PC, DW_AT_LOW_PC, DW_AT_NAME};
use dwarf_items::error::ParseError;
use dwarf_items::item::{Edge, EdgeKind, ItemId, ItemsBuilder};
use dwarf_items::kind::{
    ItemKind, DW_TAG_BASE_TYPE, DW_TAG_COMPILE_UNIT, DW_TAG_NAMESPACE, DW_TAG_PARTIAL_UNIT,
    DW_TAG_SUBPROGRAM,
};
use dwarf_items::name::{item_name, str_table_lookup};
use dwarf_items::parse::{is_edge, DebugData, Fault};
use dwarf_items::range_list::RangeTable;
use dwarf_items::unit::{AbbrevDecl, AbbrevTable, CompilationUnit, Entry};
use dwarf_items::cursor::entry_pairs;

fn attr(id: u16, value: AttrValue) -> Attr {
    Attr { id, value }
}

fn e(code: u64, attrs: Vec<Attr>) -> Entry {
    Entry { code, attrs }
}

fn null() -> Entry {
    Entry { code: 0, attrs: Vec::new() }
}

fn abbrev(code: u64, tag: u16, has_children: bool) -> AbbrevDecl {
    AbbrevDecl { code, tag, has_children }
}

/// The abbreviation table the fixtures share: a compile-unit root with
/// children, a leaf subprogram, a leaf base type, and a namespace with
/// children.
fn table() -> AbbrevTable {
    AbbrevTable {
        decls: vec![
            abbrev(1, DW_TAG_COMPILE_UNIT, true),
            abbrev(2, DW_TAG_SUBPROGRAM, false),
            abbrev(3, DW_TAG_BASE_TYPE, false),
            abbrev(4, DW_TAG_NAMESPACE, true),
            abbrev(5, 0x3e, false), // a tag outside the legal set
        ],
    }
}

fn unit(entries: Vec<Entry>) -> CompilationUnit {
    CompilationUnit { address_size: 8, version: 4, abbrevs: table(), entries }
}

/// The string table of the fixtures: "main" at 0, "helper" at 5, "ns" at
/// 12.
fn strings() -> Vec<u8> {
    b"main\0helper\0ns\0".to_vec()
}

fn data(units: Vec<CompilationUnit>) -> DebugData {
    DebugData { units, debug_str: Some(strings()), rnglists: RangeTable { lists: Vec::new() } }
}

/// One well-formed unit: a subprogram, a namespace holding a subprogram
/// and a type descriptor, and an unnamed subprogram declaration.
fn rich_unit() -> CompilationUnit {
    unit(vec![
        e(1, vec![]),
        e(2, vec![
            attr(DW_AT_NAME, AttrValue::StrRef(0)),
            attr(DW_AT_LOW_PC, AttrValue::Addr(0x1000)),
            attr(DW_AT_HIGH_PC, AttrValue::Addr(0x1040)),
        ]),
        e(4, vec![attr(DW_AT_NAME, AttrValue::StrRef(12))]),
        e(2, vec![
            attr(DW_AT_NAME, AttrValue::StrRef(5)),
            attr(DW_AT_LOW_PC, AttrValue::Addr(0x2000)),
            attr(DW_AT_HIGH_PC, AttrValue::Udata(0x10)),
        ]),
        e(3, vec![]),
        null(),
        e(2, vec![]),
        null(),
    ])
}

#[test]
fn string_table_lookup_reads_nul_terminated_strings() {
    let t = strings();
    assert_eq!(str_table_lookup(&t, 0), Some(b"main".to_vec()));
    assert_eq!(str_table_lookup(&t, 5), Some(b"helper".to_vec()));
    assert_eq!(str_table_lookup(&t, 7), Some(b"lper".to_vec()));
    assert_eq!(str_table_lookup(&t, 14), Some(Vec::new()));
    assert_eq!(str_table_lookup(&t, 15), None);
    assert_eq!(str_table_lookup(&t, 1000), None);
}

#[test]
fn string_table_lookup_needs_a_terminator() {
    let t = b"abc".to_vec();
    assert_eq!(str_table_lookup(&t, 0), None);
}

#[test]
fn name_of_entry_without_name_attribute_is_none() {
    let die = e(2, vec![attr(DW_AT_LOW_PC, AttrValue::Addr(0))]);
    assert_eq!(item_name(&die, &strings()), Ok(None));
}

#[test]
fn name_resolves_through_the_string_table() {
    let die = e(2, vec![attr(DW_AT_NAME, AttrValue::StrRef(5))]);
    assert_eq!(item_name(&die, &strings()), Ok(Some("helper".to_string())));
}

#[test]
fn inline_name_needs_no_table() {
    let die = e(2, vec![attr(DW_AT_NAME, AttrValue::Str(b"inline_fn".to_vec()))]);
    assert_eq!(item_name(&die, &Vec::new()), Ok(Some("inline_fn".to_string())));
}

#[test]
fn unresolvable_name_reference_is_broken() {
    let die = e(2, vec![attr(DW_AT_NAME, AttrValue::StrRef(999))]);
    assert_eq!(item_name(&die, &strings()), Err(ParseError::BrokenStringReference));
    let die = e(2, vec![attr(DW_AT_NAME, AttrValue::StrRef(0))]);
    assert_eq!(item_name(&die, &b"abc".to_vec()), Err(ParseError::BrokenStringReference));
}

#[test]
fn name_bytes_that_are_not_utf8_are_broken() {
    let die = e(2, vec![attr(DW_AT_NAME, AttrValue::Str(vec![0xff, 0xfe]))]);
    assert_eq!(item_name(&die, &strings()), Err(ParseError::BrokenStringReference));
}

#[test]
fn name_attribute_of_a_non_string_form_is_unexpected() {
    let die = e(2, vec![attr(DW_AT_NAME, AttrValue::Addr(0x1000))]);
    assert_eq!(item_name(&die, &strings()), Err(ParseError::UnexpectedAttributeForm));
}

#[test]
fn cursor_walks_depth_first_with_depth_deltas() {
    let u = rich_unit();
    let steps = entry_pairs(&u).unwrap();
    let got: Vec<(i64, u16, usize)> = steps.iter().map(|s| (s.delta, s.tag, s.pos)).collect();
    assert_eq!(
        got,
        vec![
            (1, DW_TAG_SUBPROGRAM, 1),
            (0, DW_TAG_NAMESPACE, 2),
            (1, DW_TAG_SUBPROGRAM, 3),
            (0, DW_TAG_BASE_TYPE, 4),
            (-1, DW_TAG_SUBPROGRAM, 6),
        ]
    );
}

#[test]
fn cursor_ascent_pops_several_levels_at_once() {
    // Two nested namespaces around a subroutine, then a sibling of the
    // outer namespace: the ascent crosses two levels, so its delta is -2.
    let u = unit(vec![
        e(1, vec![]),
        e(4, vec![]),
        e(4, vec![]),
        e(2, vec![]),
        null(),
        null(),
        e(2, vec![]),
        null(),
    ]);
    let steps = entry_pairs(&u).unwrap();
    let got: Vec<(i64, u16, usize)> = steps.iter().map(|s| (s.delta, s.tag, s.pos)).collect();
    assert_eq!(
        got,
        vec![
            (1, DW_TAG_NAMESPACE, 1),
            (1, DW_TAG_NAMESPACE, 2),
            (1, DW_TAG_SUBPROGRAM, 3),
            (-2, DW_TAG_SUBPROGRAM, 6),
        ]
    );
}

#[test]
fn cursor_of_childless_root_is_empty() {
    let u = unit(vec![e(2, vec![])]);
    assert_eq!(entry_pairs(&u).unwrap().len(), 0);
}

#[test]
fn cursor_faults_on_malformed_units() {
    // No root entry at all.
    assert_eq!(entry_pairs(&unit(vec![])), Err(ParseError::MalformedEntryTree));
    // A null entry in the root's place.
    assert_eq!(entry_pairs(&unit(vec![null()])), Err(ParseError::MalformedEntryTree));
    // A root code the abbreviation table does not hold.
    assert_eq!(entry_pairs(&unit(vec![e(9, vec![])])), Err(ParseError::MalformedEntryTree));
    // An entry code the abbreviation table does not hold.
    assert_eq!(
        entry_pairs(&unit(vec![e(1, vec![]), e(9, vec![]), null()])),
        Err(ParseError::MalformedEntryTree)
    );
    // The stream ends before the root's subtree is closed.
    assert_eq!(
        entry_pairs(&unit(vec![e(1, vec![]), e(2, vec![])])),
        Err(ParseError::MalformedEntryTree)
    );
}

#[test]
fn cursor_stops_at_the_root_closing_null() {
    // Entries after the null that closes the root's sibling list are not
    // traversed.
    let u = unit(vec![e(1, vec![]), null(), e(9, vec![])]);
    assert_eq!(entry_pairs(&u).unwrap().len(), 0);
}

#[test]
fn traversal_produces_classified_named_sized_items() {
    let d = data(vec![rich_unit()]);
    let mut builder = ItemsBuilder::new();
    let faults = d.parse_items(&mut builder).unwrap();
    assert_eq!(faults, Vec::<Fault>::new());
    let (items, edges) = builder.finish();
    assert_eq!(edges.len(), 0);
    let got: Vec<(usize, usize, &str, u64, ItemKind)> = items
        .iter()
        .map(|it| (it.id.unit_index, it.id.entry_index, it.name.as_str(), it.size, it.kind))
        .collect();
    assert_eq!(
        got,
        vec![
            (0, 0, "main", 0x40, ItemKind::Code),
            (0, 1, "ns", 0, ItemKind::Scope),
            (0, 2, "helper", 0x10, ItemKind::Code),
            (0, 4, "Code[0, 4]", 0, ItemKind::Code),
        ]
    );
}

#[test]
fn traversal_is_deterministic() {
    // Two independent runs over the same input yield identical item
    // collections in identical order, and identical faults.
    let d = data(vec![rich_unit(), unit(vec![e(1, vec![]), e(9, vec![]), null()])]);
    let mut b1 = ItemsBuilder::new();
    let mut b2 = ItemsBuilder::new();
    let f1 = d.parse_items(&mut b1);
    let f2 = d.parse_items(&mut b2);
    assert_eq!(f1, f2);
    assert_eq!(b1.finish().0, b2.finish().0);
}

#[test]
fn identifiers_are_pairwise_distinct() {
    let d = data(vec![rich_unit(), rich_unit(), rich_unit()]);
    let mut builder = ItemsBuilder::new();
    d.parse_items(&mut builder).unwrap();
    let (items, _) = builder.finish();
    let ids: Vec<ItemId> = items.iter().map(|it| it.id).collect();
    for i in 0..ids.len() {
        for j in 0..ids.len() {
            if i != j {
                assert_ne!(ids[i], ids[j]);
            }
        }
    }
    assert_eq!(items.len(), 12);
}

#[test]
fn a_malformed_unit_is_isolated() {
    // One structurally malformed unit among three: the two well-formed
    // units still yield their items, and the malformed one is reported.
    let broken = unit(vec![e(1, vec![]), e(9, vec![]), null()]);
    let d = data(vec![rich_unit(), broken, rich_unit()]);
    let mut builder = ItemsBuilder::new();
    let faults = d.parse_items(&mut builder).unwrap();
    assert_eq!(
        faults,
        vec![Fault {
            unit_index: 1,
            entry_index: None,
            error: ParseError::MalformedEntryTree,
        }]
    );
    let (items, _) = builder.finish();
    assert_eq!(items.len(), 8);
    assert!(items.iter().all(|it| it.id.unit_index == 0 || it.id.unit_index == 2));
    assert_eq!(items[0].id, ItemId { unit_index: 0, entry_index: 0 });
    assert_eq!(items[4].id, ItemId { unit_index: 2, entry_index: 0 });
}

#[test]
fn a_faulting_entry_is_skipped_and_reported() {
    // The first child carries a tag outside the legal set, the second a
    // broken name reference; the rest of the unit is still traversed.
    let u = unit(vec![
        e(1, vec![]),
        e(5, vec![]),
        e(2, vec![attr(DW_AT_NAME, AttrValue::StrRef(999))]),
        e(2, vec![attr(DW_AT_NAME, AttrValue::StrRef(0))]),
        null(),
    ]);
    let d = data(vec![u]);
    let mut builder = ItemsBuilder::new();
    let faults = d.parse_items(&mut builder).unwrap();
    assert_eq!(
        faults,
        vec![
            Fault { unit_index: 0, entry_index: Some(0), error: ParseError::UnrecognizedTag },
            Fault {
                unit_index: 0,
                entry_index: Some(1),
                error: ParseError::BrokenStringReference,
            },
        ]
    );
    let (items, _) = builder.finish();
    assert_eq!(items.len(), 1);
    assert_eq!(items[0].id, ItemId { unit_index: 0, entry_index: 2 });
    assert_eq!(items[0].name, "main");
}

#[test]
fn unit_descriptor_entries_must_carry_a_range() {
    // A unit-kind entry in the tree is sized like a unit: with an address
    // range it yields an item, without one it is a reported fault, not a
    // zero-sized declaration.
    let mut t = table();
    t.decls.push(abbrev(6, DW_TAG_PARTIAL_UNIT, false));
    let u = CompilationUnit {
        address_size: 8,
        version: 4,
        abbrevs: t,
        entries: vec![
            e(1, vec![]),
            e(6, vec![
                attr(DW_AT_LOW_PC, AttrValue::Addr(0x1000)),
                attr(DW_AT_HIGH_PC, AttrValue::Udata(0x200)),
            ]),
            e(6, vec![]),
            null(),
        ],
    };
    let d = data(vec![u]);
    let mut builder = ItemsBuilder::new();
    let faults = d.parse_items(&mut builder).unwrap();
    assert_eq!(
        faults,
        vec![Fault {
            unit_index: 0,
            entry_index: Some(1),
            error: ParseError::MissingLocationAttributes,
        }]
    );
    let (items, _) = builder.finish();
    assert_eq!(items.len(), 1);
    assert_eq!(items[0].size, 0x200);
    assert_eq!(items[0].kind, ItemKind::Code);
    assert_eq!(items[0].name, "Code[0, 0]");
}

#[test]
fn missing_string_table_fails_the_whole_traversal() {
    let d = DebugData {
        units: vec![rich_unit()],
        debug_str: None,
        rnglists: RangeTable { lists: Vec::new() },
    };
    let mut builder = ItemsBuilder::new();
    assert_eq!(d.parse_items(&mut builder), Err(ParseError::MissingStringSection));
    assert_eq!(builder.finish().0.len(), 0);
}

#[test]
fn builder_appends_items_and_edges_in_order() {
    let mut builder = ItemsBuilder::new();
    let from = ItemId { unit_index: 0, entry_index: 0 };
    let to = ItemId { unit_index: 0, entry_index: 1 };
    builder.add_edge(Edge { from, to, kind: EdgeKind::Dependency });
    builder.add_edge(Edge { from: to, to: from, kind: EdgeKind::Containment });
    assert_eq!(builder.items().len(), 0);
    assert_eq!(builder.edges().len(), 2);
    assert_eq!(builder.edges()[0].kind, EdgeKind::Dependency);
    assert_eq!(builder.edges()[1].kind, EdgeKind::Containment);
}

#[test]
fn every_entry_is_an_edge_candidate() {
    assert_eq!(is_edge(&e(2, vec![])), Ok(true));
}
