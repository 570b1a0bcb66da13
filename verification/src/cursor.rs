//! Depth-first traversal of a compilation unit's entry tree.

use vstd::prelude::*;

use crate::error::ParseError;
use crate::unit::abbrev_find;
use crate::unit::AbbrevDecl;
use crate::unit::CompilationUnit;
use crate::unit::Entry;

verus! {

/// The deepest tree level the traversal represents. The bound exists so
/// that the depth delta between two entries always fits its signed 64-bit
/// representation; a stream nesting deeper than this is treated as
/// malformed.
pub const MAX_DEPTH: i64 = 0x7fff_ffff_ffff_ffff;

/// One element of a unit's traversal: the signed change in tree depth from
/// the previously produced entry, the entry's tag as decoded through the
/// abbreviation table, and the entry's position in the unit's stream.
#[derive(Clone, Copy, Debug, PartialEq, Eq, Structural)]
pub struct EntryStep {
    pub delta: i64,
    pub tag: u16,
    pub pos: usize,
}

/// The mathematical value of one traversal element.
pub ghost struct DiePair {
    pub delta: int,
    pub tag: u16,
    pub pos: int,
}

impl View for EntryStep {
    type V = DiePair;

    open spec fn view(&self) -> DiePair {
        DiePair { delta: self.delta as int, tag: self.tag, pos: self.pos as int }
    }
}

impl DeepView for EntryStep {
    type V = DiePair;

    open spec fn deep_view(&self) -> DiePair {
        self.view()
    }
}

/// The traversal elements produced from `entries[pos..]`, walking at tree
/// level `level` after having produced an entry at level `prev`. The
/// traversal ends when the level first returns to zero, which the null
/// entry closing the root's sibling list brings about. A stream that ends
/// before the tree closes, an entry whose code the abbreviation table does
/// not hold, and a tree deeper than a depth delta can represent are
/// malformed.
pub open spec fn walk(
    entries: Seq<Entry>,
    decls: Seq<AbbrevDecl>,
    pos: int,
    level: int,
    prev: int,
) -> Result<Seq<DiePair>, ParseError>
    decreases entries.len() - pos,
{
    if level <= 0 {
        Ok(Seq::empty())
    } else if pos < 0 || pos >= entries.len() {
        Err(ParseError::MalformedEntryTree)
    } else if entries[pos].code == 0 {
        walk(entries, decls, pos + 1, level - 1, prev)
    } else {
        match abbrev_find(decls, entries[pos].code) {
            Option::None => Err(ParseError::MalformedEntryTree),
            Option::Some(d) => {
                if d.has_children && level >= MAX_DEPTH {
                    Err(ParseError::MalformedEntryTree)
                } else {
                    let next_level = if d.has_children {
                        level + 1
                    } else {
                        level
                    };
                    match walk(entries, decls, pos + 1, next_level, level) {
                        Ok(rest) => Ok(
                            seq![DiePair { delta: level - prev, tag: d.tag, pos }] + rest,
                        ),
                        Err(e) => Err(e),
                    }
                }
            },
        }
    }
}

/// The depth-first, pre-order traversal of the unit: its elements after
/// the root descriptor, in stream order. A unit without a root entry, with
/// a null entry in the root's place, or whose root code the abbreviation
/// table does not hold is malformed; a root without children yields an
/// empty traversal.
pub open spec fn unit_pairs(unit: CompilationUnit) -> Result<Seq<DiePair>, ParseError> {
    let entries = unit.entries@;
    let decls = unit.abbrevs.decls@;
    if entries.len() == 0 {
        Err(ParseError::MalformedEntryTree)
    } else if entries[0].code == 0 {
        Err(ParseError::MalformedEntryTree)
    } else {
        match abbrev_find(decls, entries[0].code) {
            Option::None => Err(ParseError::MalformedEntryTree),
            Option::Some(d) => if d.has_children {
                walk(entries, decls, 1, 1, 0)
            } else {
                Ok(Seq::empty())
            },
        }
    }
}

/// A traversal produces at most one element per stream entry.
pub proof fn lemma_walk_len(
    entries: Seq<Entry>,
    decls: Seq<AbbrevDecl>,
    pos: int,
    level: int,
    prev: int,
)
    requires
        0 <= pos <= entries.len(),
    ensures
        walk(entries, decls, pos, level, prev) matches Ok(s) ==> s.len() <= entries.len() - pos,
    decreases entries.len() - pos,
{
    if level <= 0 || pos < 0 || pos >= entries.len() {
    } else if entries[pos].code == 0 {
        lemma_walk_len(entries, decls, pos + 1, level - 1, prev);
    } else {
        match abbrev_find(decls, entries[pos].code) {
            Option::None => {},
            Option::Some(d) => {
                if d.has_children && level >= MAX_DEPTH {
                } else {
                    let next_level = if d.has_children {
                        level + 1
                    } else {
                        level
                    };
                    lemma_walk_len(entries, decls, pos + 1, next_level, level);
                    match walk(entries, decls, pos + 1, next_level, level) {
                        Ok(rest) => {
                            assert(walk(entries, decls, pos, level, prev) == Ok::<
                                Seq<DiePair>,
                                ParseError,
                            >(seq![DiePair { delta: level - prev, tag: d.tag, pos }] + rest));
                        },
                        Err(_) => {},
                    }
                }
            },
        }
    }
}

/// A unit's traversal produces at most one element per stream entry.
pub proof fn lemma_unit_pairs_len(unit: CompilationUnit)
    ensures
        unit_pairs(unit) matches Ok(s) ==> s.len() <= unit.entries@.len(),
{
    if unit.entries@.len() > 0 && unit.entries@[0].code != 0 {
        lemma_walk_len(unit.entries@, unit.abbrevs.decls@, 1, 1, 0);
    }
}

/// `rest` with `prefix` prepended to its elements.
spec fn compose(prefix: Seq<DiePair>, rest: Result<Seq<DiePair>, ParseError>) -> Result<
    Seq<DiePair>,
    ParseError,
> {
    match rest {
        Ok(s) => Ok(prefix + s),
        Err(e) => Err(e),
    }
}

/// Produce the unit's depth-first traversal: one element per entry below
/// the root, pre-order, each with the signed depth change from the element
/// before it (the first element descends from the root, so its delta is
/// one).
pub fn entry_pairs(unit: &CompilationUnit) -> (r: Result<Vec<EntryStep>, ParseError>)
    ensures
        match r {
            Ok(v) => unit_pairs(*unit) == Ok::<Seq<DiePair>, ParseError>(v.deep_view()) && forall|
                k: int,
            |
                0 <= k < v@.len() ==> 1 <= #[trigger] v@[k].pos < unit.entries@.len(),
            Err(e) => unit_pairs(*unit) == Err::<Seq<DiePair>, ParseError>(e),
        },
{
    let ghost es = unit.entries@;
    let ghost ds = unit.abbrevs.decls@;
    let n = unit.entries.len();
    if n == 0 {
        return Err(ParseError::MalformedEntryTree);
    }
    let root_code = unit.entries[0].code;
    if root_code == 0 {
        return Err(ParseError::MalformedEntryTree);
    }
    let root = match unit.abbrevs.lookup(root_code) {
        Option::Some(d) => d,
        Option::None => {
            return Err(ParseError::MalformedEntryTree);
        },
    };
    let mut out: Vec<EntryStep> = Vec::new();
    if !root.has_children {
        proof {
            assert(out.deep_view() =~= Seq::<DiePair>::empty());
        }
        return Ok(out);
    }
    let mut pos: usize = 1;
    let mut level: i64 = 1;
    let mut prev: i64 = 0;
    proof {
        assert(unit_pairs(*unit) == walk(es, ds, 1, 1, 0));
        if walk(es, ds, 1, 1, 0) is Ok {
            assert(out.deep_view() + walk(es, ds, 1, 1, 0)->Ok_0 =~= walk(es, ds, 1, 1, 0)->Ok_0);
        }
    }
    loop
        invariant
            n == es.len(),
            es == unit.entries@,
            ds == unit.abbrevs.decls@,
            1 <= pos <= n,
            1 <= level <= MAX_DEPTH,
            0 <= prev <= MAX_DEPTH,
            unit_pairs(*unit) == compose(
                out.deep_view(),
                walk(es, ds, pos as int, level as int, prev as int),
            ),
            forall|k: int| 0 <= k < out@.len() ==> 1 <= #[trigger] out@[k].pos < n,
        decreases n - pos,
    {
        if pos >= n {
            assert(walk(es, ds, pos as int, level as int, prev as int) == Err::<
                Seq<DiePair>,
                ParseError,
            >(ParseError::MalformedEntryTree));
            return Err(ParseError::MalformedEntryTree);
        }
        let code = unit.entries[pos].code;
        if code == 0 {
            proof {
                assert(walk(es, ds, pos as int, level as int, prev as int) == walk(
                    es,
                    ds,
                    pos + 1,
                    level - 1,
                    prev as int,
                ));
            }
            if level == 1 {
                proof {
                    assert(walk(es, ds, pos + 1, 0, prev as int) == Ok::<
                        Seq<DiePair>,
                        ParseError,
                    >(Seq::empty()));
                    assert(out.deep_view() + Seq::<DiePair>::empty() =~= out.deep_view());
                }
                return Ok(out);
            }
            level = level - 1;
            pos = pos + 1;
        } else {
            let d = match unit.abbrevs.lookup(code) {
                Option::Some(d) => d,
                Option::None => {
                    assert(walk(es, ds, pos as int, level as int, prev as int) == Err::<
                        Seq<DiePair>,
                        ParseError,
                    >(ParseError::MalformedEntryTree));
                    return Err(ParseError::MalformedEntryTree);
                },
            };
            if d.has_children && level == MAX_DEPTH {
                assert(walk(es, ds, pos as int, level as int, prev as int) == Err::<
                    Seq<DiePair>,
                    ParseError,
                >(ParseError::MalformedEntryTree));
                return Err(ParseError::MalformedEntryTree);
            }
            let delta = level - prev;
            let step = EntryStep { delta, tag: d.tag, pos };
            let ghost pre = out.deep_view();
            let ghost next_level: int = if d.has_children {
                level + 1
            } else {
                level as int
            };
            proof {
                let pair = DiePair { delta: level - prev, tag: d.tag, pos: pos as int };
                assert(step@ == pair);
                assert(walk(es, ds, pos as int, level as int, prev as int) == compose(
                    seq![pair],
                    walk(es, ds, pos + 1, next_level, level as int),
                ));
                if walk(es, ds, pos + 1, next_level, level as int) is Ok {
                    let rest = walk(es, ds, pos + 1, next_level, level as int)->Ok_0;
                    assert(pre + (seq![pair] + rest) =~= pre.push(pair) + rest);
                }
            }
            out.push(step);
            proof {
                assert(out.deep_view() =~= pre.push(step@));
            }
            prev = level;
            if d.has_children {
                level = level + 1;
            }
            pos = pos + 1;
        }
    }
}

} // verus!
