//! Resolving an entry's declared name through the string table.

use vstd::prelude::*;
use vstd::utf8::decode_utf8;
use vstd::utf8::valid_utf8;

use crate::attr::attr_find;
use crate::attr::attr_value;
use crate::attr::Attr;
use crate::attr::AttrValue;
use crate::attr::DW_AT_NAME;
use crate::error::ParseError;
use crate::text::utf8_to_string;
use crate::unit::Entry;

verus! {

/// The byte string stored at offset `off` of the string table: the bytes
/// from `off` up to (excluding) the first NUL byte, or `None` if `off` is
/// out of bounds or no NUL follows it.
pub open spec fn str_at(table: Seq<u8>, off: int) -> Option<Seq<u8>>
    decreases table.len() - off,
{
    if off < 0 || off >= table.len() {
        None
    } else if table[off] == 0 {
        Some(Seq::empty())
    } else {
        match str_at(table, off + 1) {
            Some(s) => Some(seq![table[off]] + s),
            None => None,
        }
    }
}

/// `o` with `p` prepended to its content.
spec fn opt_prepend(p: Seq<u8>, o: Option<Seq<u8>>) -> Option<Seq<u8>> {
    match o {
        Some(s) => Some(p + s),
        None => None,
    }
}

/// Read the NUL-terminated byte string at offset `off` of the string
/// table.
pub fn str_table_lookup(table: &Vec<u8>, off: u64) -> (r: Option<Vec<u8>>)
    ensures
        match r {
            Some(v) => str_at(table@, off as int) == Some(v@),
            None => str_at(table@, off as int) is None,
        },
{
    let n = table.len();
    if off >= n as u64 {
        return None;
    }
    let mut j: usize = off as usize;
    let mut acc: Vec<u8> = Vec::new();
    proof {
        assert(opt_prepend(acc@, str_at(table@, j as int)) == str_at(table@, off as int)) by {
            match str_at(table@, off as int) {
                Some(s) => {
                    assert(acc@ + s =~= s);
                },
                None => {},
            }
        }
    }
    while j < n && table[j] != 0
        invariant
            n == table@.len(),
            0 <= j <= n,
            opt_prepend(acc@, str_at(table@, j as int)) == str_at(table@, off as int),
        decreases n - j,
    {
        let ghost acc0 = acc@;
        let b = table[j];
        acc.push(b);
        proof {
            match str_at(table@, j + 1) {
                Some(s) => {
                    assert(acc0 + (seq![table@[j as int]] + s) =~= acc@ + s);
                },
                None => {},
            }
        }
        j += 1;
    }
    if j == n {
        proof {
            assert(str_at(table@, j as int) is None);
        }
        None
    } else {
        proof {
            assert(str_at(table@, j as int) == Some(Seq::<u8>::empty()));
            assert(acc@ + Seq::<u8>::empty() =~= acc@);
        }
        Some(acc)
    }
}

/// The bytes of the entry's declared name: `Ok(None)` when the entry has
/// no name attribute, the inline or table-resolved bytes when it has one,
/// a broken-reference fault when the table does not resolve it, and a
/// form fault when the attribute's representation is not a string form.
pub open spec fn name_bytes(attrs: Seq<Attr>, table: Seq<u8>) -> Result<
    Option<Seq<u8>>,
    ParseError,
> {
    match attr_find(attrs, DW_AT_NAME) {
        Option::None => Ok(Option::None),
        Option::Some(AttrValue::Str(b)) => Ok(Option::Some(b@)),
        Option::Some(AttrValue::StrRef(off)) => match str_at(table, off as int) {
            Option::Some(b) => Ok(Option::Some(b)),
            Option::None => Err(ParseError::BrokenStringReference),
        },
        Option::Some(_) => Err(ParseError::UnexpectedAttributeForm),
    }
}

/// The entry's declared name as characters: its name bytes decoded as
/// UTF-8. Name bytes that are not valid UTF-8 cannot denote a string of
/// the table and are a broken reference.
pub open spec fn resolved_name(attrs: Seq<Attr>, table: Seq<u8>) -> Result<
    Option<Seq<char>>,
    ParseError,
> {
    match name_bytes(attrs, table) {
        Ok(Option::None) => Ok(Option::None),
        Ok(Option::Some(b)) => if valid_utf8(b) {
            Ok(Option::Some(decode_utf8(b)))
        } else {
            Err(ParseError::BrokenStringReference)
        },
        Err(e) => Err(e),
    }
}

/// The view of a name resolution result.
pub open spec fn name_result_view(r: Result<Option<String>, ParseError>) -> Result<
    Option<Seq<char>>,
    ParseError,
> {
    match r {
        Ok(Option::None) => Ok(Option::None),
        Ok(Option::Some(s)) => Ok(Option::Some(s@)),
        Err(e) => Err(e),
    }
}

/// Resolve the entry's declared name.
///
/// If the entry carries a name attribute, the name is resolved through the
/// string table (or taken inline) and returned; an entry without a name
/// attribute legitimately has none, and the caller decides the fallback
/// display string. A name attribute that the string table cannot resolve
/// is a broken reference, not an absent name.
pub fn item_name(die: &Entry, debug_str: &Vec<u8>) -> (r: Result<Option<String>, ParseError>)
    ensures
        name_result_view(r) == resolved_name(die.attrs@, debug_str@),
        attr_find(die.attrs@, DW_AT_NAME) is None ==> r == Ok::<Option<String>, ParseError>(
            Option::None,
        ),
{
    match attr_value(&die.attrs, DW_AT_NAME) {
        Option::None => Ok(Option::None),
        Option::Some(v) => match v {
            AttrValue::Str(b) => match utf8_to_string(b) {
                Option::Some(s) => Ok(Option::Some(s)),
                Option::None => Err(ParseError::BrokenStringReference),
            },
            AttrValue::StrRef(off) => match str_table_lookup(debug_str, *off) {
                Option::Some(bytes) => match utf8_to_string(&bytes) {
                    Option::Some(s) => Ok(Option::Some(s)),
                    Option::None => Err(ParseError::BrokenStringReference),
                },
                Option::None => Err(ParseError::BrokenStringReference),
            },
            _ => Err(ParseError::UnexpectedAttributeForm),
        },
    }
}

} // verus!
