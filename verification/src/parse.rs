//! The traversal driver: from decoded debugging data to the item graph.

use vstd::prelude::*;

use crate::attr::Attr;
use crate::cursor::entry_pairs;
use crate::cursor::unit_pairs;
use crate::cursor::DiePair;
use crate::error::ParseError;
use crate::item::Item;
use crate::item::ItemId;
use crate::item::ItemView;
use crate::item::ItemsBuilder;
use crate::kind::classification;
use crate::kind::item_kind;
use crate::kind::CodeKind;
use crate::kind::ItemKindTemplate;
use crate::location::compilation_unit_size;
use crate::location::compilation_unit_size_spec;
use crate::location::subroutine_size;
use crate::location::subroutine_size_spec;
use crate::name::item_name;
use crate::name::resolved_name;
use crate::range_list::RangeTable;
use crate::text::fallback_chars;
use crate::text::fallback_item_name;
use crate::unit::CompilationUnit;
use crate::unit::Entry;

verus! {

/// One recovered fault of a traversal: the unit it struck, the entry it
/// struck within that unit (`None` for a fault of the unit's own
/// structure), and what went wrong.
#[derive(Clone, Copy, Debug, PartialEq, Eq)]
pub struct Fault {
    pub unit_index: usize,
    pub entry_index: Option<usize>,
    pub error: ParseError,
}

/// The per-unit context threaded down to each entry: the item identifier
/// assigned to the entry, the unit's address size and format version, and
/// the shared read-only tables.
pub struct DIEItemsExtra<'a> {
    pub ir_id: ItemId,
    pub addr_size: u8,
    pub dwarf_version: u16,
    pub debug_str: &'a Vec<u8>,
    pub rnglists: &'a RangeTable,
}

/// Whether an entry is a candidate source of graph edges. Edge production
/// belongs to a later cross-reference pass; until that pass defines its
/// policy, every entry is a candidate.
pub fn is_edge(die: &Entry) -> (r: Result<bool, ParseError>)
    ensures
        r == Ok::<bool, ParseError>(true),
{
    let _ = die;
    Ok(true)
}

/// The item an entry produces: none where its tag classifies to no node,
/// and otherwise the entry's resolved name (or the synthetic fallback
/// name), its footprint by the kind's sizing policy, and its kind. Unit
/// descriptors must carry an address range; subroutines, labels and blocks
/// without one are zero-sized declarations; data and scope entries carry
/// no footprint of their own.
pub open spec fn entry_item_spec(
    tag: u16,
    attrs: Seq<Attr>,
    id: ItemId,
    addr_size: u8,
    version: u16,
    table: Seq<u8>,
    rnglists: RangeTable,
) -> Result<Option<ItemView>, ParseError> {
    match classification(tag) {
        Err(e) => Err(e),
        Ok(Option::None) => Ok(Option::None),
        Ok(Option::Some(t)) => match resolved_name(attrs, table) {
            Err(e) => Err(e),
            Ok(name_opt) => {
                let size_r = match t {
                    ItemKindTemplate::Code(CodeKind::Unit) => compilation_unit_size_spec(
                        attrs,
                        addr_size,
                        version,
                        rnglists,
                    ),
                    ItemKindTemplate::Code(_) => subroutine_size_spec(
                        attrs,
                        addr_size,
                        version,
                        rnglists,
                    ),
                    _ => Ok(0u64),
                };
                match size_r {
                    Err(e) => Err(e),
                    Ok(size) => {
                        let name = match name_opt {
                            Option::Some(nm) => nm,
                            Option::None => fallback_chars(
                                t.spec_kind(),
                                id.unit_index as int,
                                id.entry_index as int,
                            ),
                        };
                        Ok(Option::Some(ItemView { id, name, size, kind: t.spec_kind() }))
                    },
                }
            },
        },
    }
}

/// The view of an entry's parse result.
pub open spec fn item_result_view(r: Result<Option<Item>, ParseError>) -> Result<
    Option<ItemView>,
    ParseError,
> {
    match r {
        Ok(Option::None) => Ok(Option::None),
        Ok(Option::Some(item)) => Ok(Option::Some(item@)),
        Err(e) => Err(e),
    }
}

impl Entry {
    /// Translate this entry, traversed with tag `tag`, into the item it
    /// produces, if any.
    pub fn parse_items(&self, tag: u16, extra: DIEItemsExtra) -> (r: Result<
        Option<Item>,
        ParseError,
    >)
        ensures
            item_result_view(r) == entry_item_spec(
                tag,
                self.attrs@,
                extra.ir_id,
                extra.addr_size,
                extra.dwarf_version,
                extra.debug_str@,
                *extra.rnglists,
            ),
    {
        let template = match item_kind(tag)? {
            Option::Some(t) => t,
            Option::None => {
                return Ok(Option::None);
            },
        };
        let name_opt = item_name(self, extra.debug_str)?;
        let size = match template {
            ItemKindTemplate::Code(CodeKind::Unit) => compilation_unit_size(
                self,
                extra.addr_size,
                extra.dwarf_version,
                extra.rnglists,
            )?,
            ItemKindTemplate::Code(_) => subroutine_size(
                self,
                extra.addr_size,
                extra.dwarf_version,
                extra.rnglists,
            )?,
            _ => 0,
        };
        let kind = template.kind();
        let name = match name_opt {
            Option::Some(nm) => nm,
            Option::None => fallback_item_name(
                kind,
                extra.ir_id.unit_index,
                extra.ir_id.entry_index,
            ),
        };
        Ok(Option::Some(Item::new(extra.ir_id, name, size, kind)))
    }
}

/// The items and entry-level faults of one unit's traversal from its
/// `k`-th element on. A faulting entry contributes a fault in place of an
/// item and the rest of the unit is still traversed.
pub open spec fn unit_build(
    unit: CompilationUnit,
    pairs: Seq<DiePair>,
    k: int,
    unit_index: usize,
    table: Seq<u8>,
    rnglists: RangeTable,
) -> (Seq<ItemView>, Seq<Fault>)
    decreases pairs.len() - k,
{
    if k < 0 || k >= pairs.len() {
        (Seq::empty(), Seq::empty())
    } else {
        let p = pairs[k];
        let rest = unit_build(unit, pairs, k + 1, unit_index, table, rnglists);
        if 0 <= p.pos < unit.entries@.len() {
            let id = ItemId { unit_index, entry_index: k as usize };
            match entry_item_spec(
                p.tag,
                unit.entries@[p.pos].attrs@,
                id,
                unit.address_size,
                unit.version,
                table,
                rnglists,
            ) {
                Err(e) => (
                    rest.0,
                    seq![Fault { unit_index, entry_index: Option::Some(k as usize), error: e }]
                        + rest.1,
                ),
                Ok(Option::None) => rest,
                Ok(Option::Some(iv)) => (seq![iv] + rest.0, rest.1),
            }
        } else {
            rest
        }
    }
}

/// What one unit's traversal yields: its items and entry-level faults, or
/// the structural fault that makes the whole unit unusable.
pub open spec fn unit_outcome(
    unit: CompilationUnit,
    unit_index: usize,
    table: Seq<u8>,
    rnglists: RangeTable,
) -> Result<(Seq<ItemView>, Seq<Fault>), ParseError> {
    match unit_pairs(unit) {
        Err(e) => Err(e),
        Ok(pairs) => Ok(unit_build(unit, pairs, 0, unit_index, table, rnglists)),
    }
}

impl CompilationUnit {
    /// Traverse this unit's entries depth-first and append the items they
    /// produce to the builder.
    ///
    /// Entry-level faults are recovered: the entry is skipped, reported in
    /// the returned list, and the rest of the unit is still traversed. A
    /// structural fault discards the unit's partial results — the builder
    /// is left untouched — and is returned as the error.
    pub fn parse_items(
        &self,
        items: &mut ItemsBuilder,
        unit_index: usize,
        debug_str: &Vec<u8>,
        rnglists: &RangeTable,
    ) -> (r: Result<Vec<Fault>, ParseError>)
        ensures
            match r {
                Ok(faults) => unit_outcome(*self, unit_index, debug_str@, *rnglists) matches Ok(p)
                    && final (items).items_seq() == old(items).items_seq() + p.0 && faults@ == p.1
                    && final (items).edges_seq() == old(items).edges_seq(),
                Err(e) => unit_outcome(*self, unit_index, debug_str@, *rnglists) == Err::<
                    (Seq<ItemView>, Seq<Fault>),
                    ParseError,
                >(e) && final (items).items_seq() == old(items).items_seq()
                    && final (items).edges_seq() == old(items).edges_seq(),
            },
    {
        let steps = match entry_pairs(self) {
            Ok(v) => v,
            Err(e) => {
                return Err(e);
            },
        };
        let ghost sdv = steps.deep_view();
        let ghost table = debug_str@;
        let n = steps.len();
        let mut out: Vec<Item> = Vec::new();
        let mut faults: Vec<Fault> = Vec::new();
        let mut k: usize = 0;
        proof {
            assert(out.deep_view() =~= Seq::<ItemView>::empty());
            assert(Seq::<ItemView>::empty() + unit_build(
                *self,
                sdv,
                0,
                unit_index,
                table,
                *rnglists,
            ).0 =~= unit_build(*self, sdv, 0, unit_index, table, *rnglists).0);
            assert(Seq::<Fault>::empty() + unit_build(
                *self,
                sdv,
                0,
                unit_index,
                table,
                *rnglists,
            ).1 =~= unit_build(*self, sdv, 0, unit_index, table, *rnglists).1);
        }
        while k < n
            invariant
                n == steps@.len(),
                0 <= k <= n,
                sdv == steps.deep_view(),
                table == debug_str@,
                unit_pairs(*self) == Ok::<Seq<DiePair>, ParseError>(sdv),
                forall|j: int| 0 <= j < steps@.len() ==> 1 <= #[trigger] steps@[j].pos
                    < self.entries@.len(),
                unit_build(*self, sdv, 0, unit_index, table, *rnglists).0 == out.deep_view()
                    + unit_build(*self, sdv, k as int, unit_index, table, *rnglists).0,
                unit_build(*self, sdv, 0, unit_index, table, *rnglists).1 == faults@ + unit_build(
                    *self,
                    sdv,
                    k as int,
                    unit_index,
                    table,
                    *rnglists,
                ).1,
            decreases n - k,
        {
            let step = steps[k];
            proof {
                assert(sdv[k as int] == steps@[k as int]@);
            }
            let die = &self.entries[step.pos];
            let extra = DIEItemsExtra {
                ir_id: ItemId { unit_index, entry_index: k },
                addr_size: self.address_size,
                dwarf_version: self.version,
                debug_str,
                rnglists,
            };
            let ghost pre_items = out.deep_view();
            let ghost pre_faults = faults@;
            let ghost head = unit_build(*self, sdv, k as int, unit_index, table, *rnglists);
            let ghost rest = unit_build(*self, sdv, k + 1, unit_index, table, *rnglists);
            match die.parse_items(step.tag, extra) {
                Ok(Option::Some(item)) => {
                    proof {
                        assert(head.0 == seq![item@] + rest.0 && head.1 == rest.1);
                        assert(pre_items + (seq![item@] + rest.0) =~= pre_items.push(item@)
                            + rest.0);
                    }
                    out.push(item);
                    proof {
                        assert(out.deep_view() =~= pre_items.push(item@));
                    }
                },
                Ok(Option::None) => {
                    proof {
                        assert(head == rest);
                    }
                },
                Err(e) => {
                    let fault = Fault {
                        unit_index,
                        entry_index: Option::Some(k),
                        error: e,
                    };
                    proof {
                        assert(head.1 == seq![fault] + rest.1 && head.0 == rest.0);
                        assert(pre_faults + (seq![fault] + rest.1) =~= pre_faults.push(fault)
                            + rest.1);
                    }
                    faults.push(fault);
                },
            }
            k += 1;
        }
        proof {
            assert(unit_build(*self, sdv, n as int, unit_index, table, *rnglists).0
                =~= Seq::<ItemView>::empty());
            assert(out.deep_view() + Seq::<ItemView>::empty() =~= out.deep_view());
            assert(faults@ + Seq::<Fault>::empty() =~= faults@);
        }
        items.add_items(out);
        Ok(faults)
    }
}

/// The decoded debugging data of one file: its compilation units in file
/// order, its string table, and its decoded range lists.
pub struct DebugData {
    pub units: Vec<CompilationUnit>,
    pub debug_str: Option<Vec<u8>>,
    pub rnglists: RangeTable,
}

/// The items and faults of traversing `units[i..]`. A unit whose structure
/// is broken contributes a unit-level fault and no items; every other unit
/// contributes its items and entry-level faults. Items are ordered by
/// ascending unit, then ascending entry.
pub open spec fn units_outcome(
    units: Seq<CompilationUnit>,
    i: int,
    table: Seq<u8>,
    rnglists: RangeTable,
) -> (Seq<ItemView>, Seq<Fault>)
    decreases units.len() - i,
{
    if i < 0 || i >= units.len() {
        (Seq::empty(), Seq::empty())
    } else {
        let rest = units_outcome(units, i + 1, table, rnglists);
        match unit_outcome(units[i], i as usize, table, rnglists) {
            Err(e) => (
                rest.0,
                seq![Fault { unit_index: i as usize, entry_index: Option::None, error: e }]
                    + rest.1,
            ),
            Ok(p) => (p.0 + rest.0, p.1 + rest.1),
        }
    }
}

/// What a whole traversal yields: the ordered items and the recovered
/// faults, or the whole-traversal fault for input without a string table.
pub open spec fn file_outcome(d: DebugData) -> Result<(Seq<ItemView>, Seq<Fault>), ParseError> {
    match d.debug_str {
        Option::None => Err(ParseError::MissingStringSection),
        Option::Some(t) => Ok(units_outcome(d.units@, 0, t@, d.rnglists)),
    }
}

impl DebugData {
    /// Traverse every compilation unit in file order and accumulate the
    /// items into the builder.
    ///
    /// Faults are isolated: a structurally broken unit is reported and
    /// discarded while every other unit's items are still produced, and a
    /// faulting entry is reported and skipped while the rest of its unit
    /// is still traversed. Only input without a string table fails the
    /// whole traversal.
    pub fn parse_items(&self, items: &mut ItemsBuilder) -> (r: Result<Vec<Fault>, ParseError>)
        ensures
            match r {
                Ok(faults) => file_outcome(*self) matches Ok(p)
                    && final (items).items_seq() == old(items).items_seq() + p.0 && faults@ == p.1
                    && final (items).edges_seq() == old(items).edges_seq(),
                Err(e) => file_outcome(*self) == Err::<(Seq<ItemView>, Seq<Fault>), ParseError>(e)
                    && final (items).items_seq() == old(items).items_seq()
                    && final (items).edges_seq() == old(items).edges_seq(),
            },
    {
        let table = match &self.debug_str {
            Option::Some(t) => t,
            Option::None => {
                return Err(ParseError::MissingStringSection);
            },
        };
        let n = self.units.len();
        let mut faults: Vec<Fault> = Vec::new();
        let mut i: usize = 0;
        let ghost mut done: Seq<ItemView> = Seq::empty();
        proof {
            assert(old(items).items_seq() + done =~= old(items).items_seq());
            assert(done + units_outcome(self.units@, 0, table@, self.rnglists).0 =~= units_outcome(
                self.units@,
                0,
                table@,
                self.rnglists,
            ).0);
            assert(Seq::<Fault>::empty() + units_outcome(self.units@, 0, table@, self.rnglists).1
                =~= units_outcome(self.units@, 0, table@, self.rnglists).1);
        }
        while i < n
            invariant
                n == self.units@.len(),
                0 <= i <= n,
                self.debug_str matches Option::Some(t) && t@ == table@,
                items.items_seq() == old(items).items_seq() + done,
                items.edges_seq() == old(items).edges_seq(),
                units_outcome(self.units@, 0, table@, self.rnglists).0 == done + units_outcome(
                    self.units@,
                    i as int,
                    table@,
                    self.rnglists,
                ).0,
                units_outcome(self.units@, 0, table@, self.rnglists).1 == faults@ + units_outcome(
                    self.units@,
                    i as int,
                    table@,
                    self.rnglists,
                ).1,
            decreases n - i,
        {
            let unit = &self.units[i];
            let ghost head = units_outcome(self.units@, i as int, table@, self.rnglists);
            let ghost rest = units_outcome(self.units@, i + 1, table@, self.rnglists);
            let ghost pre_faults = faults@;
            match unit.parse_items(items, i, table, &self.rnglists) {
                Ok(mut fs) => {
                    let ghost p = unit_outcome(
                        self.units@[i as int],
                        i,
                        table@,
                        self.rnglists,
                    )->Ok_0;
                    proof {
                        assert(head.0 == p.0 + rest.0 && head.1 == p.1 + rest.1);
                        assert(done + (p.0 + rest.0) =~= (done + p.0) + rest.0);
                        assert(pre_faults + (p.1 + rest.1) =~= (pre_faults + fs@) + rest.1);
                        assert(old(items).items_seq() + (done + p.0) =~= (old(items).items_seq()
                            + done) + p.0);
                        done = done + p.0;
                    }
                    faults.append(&mut fs);
                },
                Err(e) => {
                    let fault = Fault { unit_index: i, entry_index: Option::None, error: e };
                    proof {
                        assert(head.0 == rest.0 && head.1 == seq![fault] + rest.1);
                        assert(pre_faults + (seq![fault] + rest.1) =~= pre_faults.push(fault)
                            + rest.1);
                    }
                    faults.push(fault);
                },
            }
            i += 1;
        }
        proof {
            assert(units_outcome(self.units@, n as int, table@, self.rnglists).0
                =~= Seq::<ItemView>::empty());
            assert(done + Seq::<ItemView>::empty() =~= done);
            assert(faults@ + Seq::<Fault>::empty() =~= faults@);
        }
        Ok(faults)
    }
}

/// Whether every collection of the input has a machine-representable
/// length. Every value assembled by executable code satisfies this; it
/// states the input's validity for the identifier laws below.
pub open spec fn representable(d: DebugData) -> bool {
    &&& d.units@.len() <= usize::MAX
    &&& forall|i: int|
        0 <= i < d.units@.len() ==> #[trigger] d.units@[i].entries@.len() <= usize::MAX
}

/// Within one unit, every produced item carries that unit's index, and the
/// items' entry indices grow strictly in production order, each at least
/// `k`.
proof fn lemma_unit_build_ids(
    unit: CompilationUnit,
    pairs: Seq<DiePair>,
    k: int,
    unit_index: usize,
    table: Seq<u8>,
    rnglists: RangeTable,
)
    requires
        0 <= k,
        pairs.len() <= usize::MAX,
    ensures
        ({
            let its = unit_build(unit, pairs, k, unit_index, table, rnglists).0;
            &&& forall|j: int|
                0 <= j < its.len() ==> (#[trigger] its[j]).id.unit_index == unit_index && k <= (
                its[j]).id.entry_index < pairs.len()
            &&& forall|j1: int, j2: int|
                0 <= j1 < j2 < its.len() ==> (#[trigger] its[j1]).id.entry_index < (
                #[trigger] its[j2]).id.entry_index
        }),
    decreases pairs.len() - k,
{
    if k >= pairs.len() {
    } else {
        lemma_unit_build_ids(unit, pairs, k + 1, unit_index, table, rnglists);
        let r = unit_build(unit, pairs, k, unit_index, table, rnglists);
        let rest = unit_build(unit, pairs, k + 1, unit_index, table, rnglists);
        let p = pairs[k];
        if 0 <= p.pos < unit.entries@.len() {
            let id = ItemId { unit_index, entry_index: k as usize };
            match entry_item_spec(
                p.tag,
                unit.entries@[p.pos].attrs@,
                id,
                unit.address_size,
                unit.version,
                table,
                rnglists,
            ) {
                Err(_) => {},
                Ok(Option::None) => {},
                Ok(Option::Some(iv)) => {
                    assert(r.0 == seq![iv] + rest.0);
                    assert(r.0[0] == iv);
                    assert(forall|j: int| 1 <= j < r.0.len() ==> r.0[j] == rest.0[j - 1]);
                },
            }
        }
    }
}

/// `a` precedes `b` in the identifier order: ascending unit index, then
/// ascending entry index.
pub open spec fn id_lt(a: ItemId, b: ItemId) -> bool {
    ||| a.unit_index < b.unit_index
    ||| (a.unit_index == b.unit_index && a.entry_index < b.entry_index)
}

/// Across a traversal's whole output, every item carries the index of the
/// unit it came from, at least `i`, and the items stand in strictly
/// ascending identifier order.
proof fn lemma_units_outcome_ids(
    units: Seq<CompilationUnit>,
    i: int,
    table: Seq<u8>,
    rnglists: RangeTable,
)
    requires
        0 <= i,
        units.len() <= usize::MAX,
        forall|j: int| 0 <= j < units.len() ==> #[trigger] units[j].entries@.len() <= usize::MAX,
    ensures
        ({
            let its = units_outcome(units, i, table, rnglists).0;
            &&& forall|j: int|
                0 <= j < its.len() ==> i <= (#[trigger] its[j]).id.unit_index < units.len()
            &&& forall|j1: int, j2: int|
                0 <= j1 < j2 < its.len() ==> id_lt((#[trigger] its[j1]).id, (#[trigger] its[j2]).id)
            &&& forall|j: int|
                0 <= j < its.len() ==> unit_outcome(
                    units[(#[trigger] its[j]).id.unit_index as int],
                    its[j].id.unit_index,
                    table,
                    rnglists,
                ) is Ok
        }),
    decreases units.len() - i,
{
    if i >= units.len() {
    } else {
        lemma_units_outcome_ids(units, i + 1, table, rnglists);
        let r = units_outcome(units, i, table, rnglists);
        let rest = units_outcome(units, i + 1, table, rnglists);
        match unit_outcome(units[i], i as usize, table, rnglists) {
            Err(_) => {},
            Ok(p) => {
                let pairs = unit_pairs(units[i])->Ok_0;
                crate::cursor::lemma_unit_pairs_len(units[i]);
                lemma_unit_build_ids(units[i], pairs, 0, i as usize, table, rnglists);
                assert(r.0 == p.0 + rest.0);
                assert(forall|j: int| 0 <= j < p.0.len() ==> r.0[j] == p.0[j]);
                assert(forall|j: int|
                    p.0.len() <= j < r.0.len() ==> r.0[j] == rest.0[j - p.0.len()]);
            },
        }
    }
}

/// A unit-level fault of unit `i` appears in the fault list of every
/// traversal suffix that starts at or before `i`.
proof fn lemma_units_faults_contain(
    units: Seq<CompilationUnit>,
    i0: int,
    i: int,
    table: Seq<u8>,
    rnglists: RangeTable,
    err: ParseError,
)
    requires
        0 <= i0 <= i < units.len(),
        unit_outcome(units[i], i as usize, table, rnglists) == Err::<
            (Seq<ItemView>, Seq<Fault>),
            ParseError,
        >(err),
    ensures
        units_outcome(units, i0, table, rnglists).1.contains(
            Fault { unit_index: i as usize, entry_index: Option::None, error: err },
        ),
    decreases i - i0,
{
    let fault = Fault { unit_index: i as usize, entry_index: Option::None, error: err };
    let cur = units_outcome(units, i0, table, rnglists);
    let rest = units_outcome(units, i0 + 1, table, rnglists);
    if i0 == i {
        assert(cur.1 == seq![fault] + rest.1);
        assert(cur.1[0] == fault);
    } else {
        lemma_units_faults_contain(units, i0 + 1, i, table, rnglists, err);
        let idx = choose|idx: int| 0 <= idx < rest.1.len() && rest.1[idx] == fault;
        match unit_outcome(units[i0], i0 as usize, table, rnglists) {
            Err(e0) => {
                let f0 = Fault { unit_index: i0 as usize, entry_index: Option::None, error: e0 };
                assert(cur.1 == seq![f0] + rest.1);
                assert(cur.1[1 + idx] == fault);
            },
            Ok(p0) => {
                assert(cur.1 == p0.1 + rest.1);
                assert(cur.1[p0.1.len() + idx] == fault);
            },
        }
    }
}

/// Every item of a well-formed unit `i` appears in the item sequence of
/// every traversal suffix that starts at or before `i`.
proof fn lemma_units_items_contain(
    units: Seq<CompilationUnit>,
    i0: int,
    i: int,
    table: Seq<u8>,
    rnglists: RangeTable,
    x: ItemView,
)
    requires
        0 <= i0 <= i < units.len(),
        unit_outcome(units[i], i as usize, table, rnglists) matches Ok(p) && p.0.contains(x),
    ensures
        units_outcome(units, i0, table, rnglists).0.contains(x),
    decreases i - i0,
{
    let cur = units_outcome(units, i0, table, rnglists);
    let rest = units_outcome(units, i0 + 1, table, rnglists);
    if i0 == i {
        let p = unit_outcome(units[i], i as usize, table, rnglists)->Ok_0;
        assert(cur.0 == p.0 + rest.0);
        let idx = choose|idx: int| 0 <= idx < p.0.len() && p.0[idx] == x;
        assert(cur.0[idx] == x);
    } else {
        lemma_units_items_contain(units, i0 + 1, i, table, rnglists, x);
        let idx = choose|idx: int| 0 <= idx < rest.0.len() && rest.0[idx] == x;
        match unit_outcome(units[i0], i0 as usize, table, rnglists) {
            Err(_) => {
                assert(cur.0 == rest.0);
                assert(cur.0[idx] == x);
            },
            Ok(p0) => {
                assert(cur.0 == p0.0 + rest.0);
                assert(cur.0[p0.0.len() + idx] == x);
            },
        }
    }
}

/// Unit fault isolation: a structurally broken compilation unit
/// contributes exactly a reported unit-level fault — no item of the
/// traversal's output comes from it — while every item of a well-formed
/// unit appears in the output whatever the other units hold.
pub proof fn lemma_unit_fault_isolation(d: DebugData, i: int)
    requires
        representable(d),
        0 <= i < d.units@.len(),
    ensures
        d.debug_str matches Option::Some(t) ==> ({
            let out = units_outcome(d.units@, 0, t@, d.rnglists);
            match unit_outcome(d.units@[i], i as usize, t@, d.rnglists) {
                Err(err) => (forall|j: int|
                    0 <= j < out.0.len() ==> (#[trigger] out.0[j]).id.unit_index != i)
                    && out.1.contains(
                    Fault { unit_index: i as usize, entry_index: Option::None, error: err },
                ),
                Ok(p) => forall|x: ItemView| p.0.contains(x) ==> out.0.contains(x),
            }
        }),
{
    match d.debug_str {
        Option::Some(t) => {
            let out = units_outcome(d.units@, 0, t@, d.rnglists);
            lemma_units_outcome_ids(d.units@, 0, t@, d.rnglists);
            match unit_outcome(d.units@[i], i as usize, t@, d.rnglists) {
                Err(err) => {
                    lemma_units_faults_contain(d.units@, 0, i, t@, d.rnglists, err);
                    assert forall|j: int|
                        0 <= j < out.0.len() implies (#[trigger] out.0[j]).id.unit_index
                        != i by {
                        if out.0[j].id.unit_index == i {
                            assert(unit_outcome(
                                d.units@[out.0[j].id.unit_index as int],
                                out.0[j].id.unit_index,
                                t@,
                                d.rnglists,
                            ) is Ok);
                        }
                    }
                },
                Ok(p) => {
                    assert forall|x: ItemView| p.0.contains(x) implies out.0.contains(x) by {
                        lemma_units_items_contain(d.units@, 0, i, t@, d.rnglists, x);
                    }
                },
            }
        },
        Option::None => {},
    }
}

/// Item ordering: a traversal produces its items in strictly ascending
/// `(unit_index, entry_index)` order.
pub proof fn lemma_items_ordered(d: DebugData)
    requires
        representable(d),
    ensures
        file_outcome(d) matches Ok(p) ==> forall|j1: int, j2: int|
            0 <= j1 < j2 < p.0.len() ==> id_lt((#[trigger] p.0[j1]).id, (#[trigger] p.0[j2]).id),
{
    match d.debug_str {
        Option::Some(t) => {
            lemma_units_outcome_ids(d.units@, 0, t@, d.rnglists);
        },
        Option::None => {},
    }
}

/// Identifier uniqueness: over all items a traversal produces, the
/// `(unit_index, entry_index)` identifier pairs are pairwise distinct —
/// the unit index partitions the identifier space by unit, and within one
/// unit the pre-order entry index is assigned once per traversed entry.
pub proof fn lemma_identifier_uniqueness(d: DebugData)
    requires
        representable(d),
    ensures
        file_outcome(d) matches Ok(p) ==> forall|j1: int, j2: int|
            0 <= j1 < j2 < p.0.len() ==> (#[trigger] p.0[j1]).id != (#[trigger] p.0[j2]).id,
{
    lemma_items_ordered(d);
}

/// Determinism: the traversal's outcome is a function of the input bytes
/// alone, so two runs over the same input — however each is scheduled —
/// yield the same items in the same order and the same faults.
/// `DebugData::parse_items` ensures that every run's outcome equals
/// `file_outcome` of its input, of which this is the law.
pub proof fn lemma_traversal_deterministic(
    d: DebugData,
    o1: Result<(Seq<ItemView>, Seq<Fault>), ParseError>,
    o2: Result<(Seq<ItemView>, Seq<Fault>), ParseError>,
)
    requires
        o1 == file_outcome(d),
        o2 == file_outcome(d),
    ensures
        o1 == o2,
{
}

} // verus!
