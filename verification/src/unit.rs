//! The decoded model of a compilation unit: its header data, its
//! abbreviation table and its raw entry stream.

use vstd::prelude::*;

use crate::attr::Attr;

verus! {

/// One declaration of an abbreviation table: the template that entries
/// carrying `code` are decoded with.
#[derive(Clone, Copy, Debug, PartialEq, Eq, Structural)]
pub struct AbbrevDecl {
    /// The non-zero abbreviation code that entries name the template by.
    pub code: u64,
    /// The structural tag of entries using this template.
    pub tag: u16,
    /// Whether such entries own the sibling list that follows them.
    pub has_children: bool,
}

/// A compilation unit's lookup from abbreviation codes to entry templates.
#[derive(Debug, PartialEq, Eq)]
pub struct AbbrevTable {
    pub decls: Vec<AbbrevDecl>,
}

/// The first declaration of `decls` with code `code`, or `None` if the
/// table holds no such declaration.
pub open spec fn abbrev_find(decls: Seq<AbbrevDecl>, code: u64) -> Option<AbbrevDecl>
    decreases decls.len(),
{
    if decls.len() == 0 {
        None
    } else if decls[0].code == code {
        Some(decls[0])
    } else {
        abbrev_find(decls.drop_first(), code)
    }
}

proof fn lemma_abbrev_find_prefix(decls: Seq<AbbrevDecl>, code: u64, i: int)
    requires
        0 <= i <= decls.len(),
        forall|k: int| 0 <= k < i ==> decls[k].code != code,
    ensures
        abbrev_find(decls, code) == abbrev_find(decls.skip(i), code),
    decreases i,
{
    if i > 0 {
        assert(decls.skip(i - 1).drop_first() =~= decls.skip(i));
        lemma_abbrev_find_prefix(decls, code, i - 1);
    } else {
        assert(decls.skip(0) =~= decls);
    }
}

impl AbbrevTable {
    /// Look the template for `code` up.
    pub fn lookup(&self, code: u64) -> (r: Option<AbbrevDecl>)
        ensures
            r == abbrev_find(self.decls@, code),
    {
        let n = self.decls.len();
        let mut i: usize = 0;
        while i < n
            invariant
                n == self.decls@.len(),
                0 <= i <= n,
                forall|k: int| 0 <= k < i ==> self.decls@[k].code != code,
            decreases n - i,
        {
            if self.decls[i].code == code {
                proof {
                    lemma_abbrev_find_prefix(self.decls@, code, i as int);
                    assert(self.decls@.skip(i as int)[0] == self.decls@[i as int]);
                }
                return Some(self.decls[i]);
            }
            i += 1;
        }
        proof {
            lemma_abbrev_find_prefix(self.decls@, code, n as int);
        }
        None
    }
}

/// One raw debugging information entry of a unit's stream, in depth-first
/// pre-order. An entry with code 0 is a null entry: it carries no content
/// and closes the current sibling list.
#[derive(Debug, PartialEq, Eq)]
pub struct Entry {
    /// The abbreviation code naming the entry's template, or 0 for a null
    /// entry.
    pub code: u64,
    /// The entry's decoded attributes.
    pub attrs: Vec<Attr>,
}

/// One compilation unit: the header data the traversal needs, the unit's
/// abbreviation table, and its raw entry stream. The stream's first entry
/// is the unit's own root descriptor; the tree below the root is encoded
/// by the templates' children flags and by null entries.
#[derive(Debug, PartialEq, Eq)]
pub struct CompilationUnit {
    /// The size in bytes of a machine address in this unit.
    pub address_size: u8,
    /// The format version the unit declares.
    pub version: u16,
    /// The unit's abbreviation table.
    pub abbrevs: AbbrevTable,
    /// The unit's entries, root first, in stream order.
    pub entries: Vec<Entry>,
}

} // verus!
