//! Text helpers: decoding name bytes and rendering fallback names.

use vstd::prelude::*;
use vstd::string::StringExecFns;
use vstd::utf8::decode_utf8;
use vstd::utf8::valid_utf8;

use crate::kind::ItemKind;

verus! {

/// Relies on `String::from_utf8` of std: it returns `Ok` exactly on valid
/// UTF-8 input, and the returned string's characters are the input's
/// decoding, as `vstd::utf8` models both.
#[verifier::external_body]
pub fn utf8_to_string(bytes: &Vec<u8>) -> (r: Option<String>)
    ensures
        r is Some <==> valid_utf8(bytes@),
        r matches Some(s) ==> s@ == decode_utf8(bytes@),
{
    String::from_utf8(bytes.clone()).ok()
}

/// The decimal digit character for `d`.
pub open spec fn digit_char(d: int) -> char {
    if d == 0 {
        '0'
    } else if d == 1 {
        '1'
    } else if d == 2 {
        '2'
    } else if d == 3 {
        '3'
    } else if d == 4 {
        '4'
    } else if d == 5 {
        '5'
    } else if d == 6 {
        '6'
    } else if d == 7 {
        '7'
    } else if d == 8 {
        '8'
    } else {
        '9'
    }
}

/// The decimal rendering of `n`, most significant digit first.
pub open spec fn dec_chars(n: int) -> Seq<char>
    decreases n,
{
    if n <= 9 {
        seq![digit_char(n)]
    } else {
        dec_chars(n / 10).push(digit_char(n % 10))
    }
}

fn digit_str(d: u64) -> (s: String)
    requires
        d < 10,
    ensures
        s@ == dec_chars(d as int),
{
    proof {
        reveal_strlit("0");
        reveal_strlit("1");
        reveal_strlit("2");
        reveal_strlit("3");
        reveal_strlit("4");
        reveal_strlit("5");
        reveal_strlit("6");
        reveal_strlit("7");
        reveal_strlit("8");
        reveal_strlit("9");
    }
    let s = if d == 0 {
        String::from_str("0")
    } else if d == 1 {
        String::from_str("1")
    } else if d == 2 {
        String::from_str("2")
    } else if d == 3 {
        String::from_str("3")
    } else if d == 4 {
        String::from_str("4")
    } else if d == 5 {
        String::from_str("5")
    } else if d == 6 {
        String::from_str("6")
    } else if d == 7 {
        String::from_str("7")
    } else if d == 8 {
        String::from_str("8")
    } else {
        String::from_str("9")
    };
    proof {
        assert(s@ =~= dec_chars(d as int));
    }
    s
}

/// Render `n` in decimal.
pub fn u64_to_string(n: u64) -> (s: String)
    ensures
        s@ == dec_chars(n as int),
    decreases n,
{
    if n < 10 {
        digit_str(n)
    } else {
        let prefix = u64_to_string(n / 10);
        let d = digit_str(n % 10);
        let r = prefix.concat(d.as_str());
        proof {
            assert(r@ =~= dec_chars(n as int));
        }
        r
    }
}

/// The display label of an item kind.
pub open spec fn kind_label(k: ItemKind) -> Seq<char> {
    match k {
        ItemKind::Code => "Code"@,
        ItemKind::Data => "Data"@,
        ItemKind::Scope => "Scope"@,
        ItemKind::Debug => "Debug"@,
        ItemKind::Misc => "Misc"@,
    }
}

/// The synthetic display name of an item without a declared name: its kind
/// label followed by its identifier.
pub open spec fn fallback_chars(k: ItemKind, unit_index: int, entry_index: int) -> Seq<char> {
    kind_label(k) + "["@ + dec_chars(unit_index) + ", "@ + dec_chars(entry_index) + "]"@
}

/// Render the synthetic display name for an unnamed item of kind `k` with
/// identifier `(unit_index, entry_index)`.
pub fn fallback_item_name(k: ItemKind, unit_index: usize, entry_index: usize) -> (s: String)
    ensures
        s@ == fallback_chars(k, unit_index as int, entry_index as int),
{
    let label = match k {
        ItemKind::Code => String::from_str("Code"),
        ItemKind::Data => String::from_str("Data"),
        ItemKind::Scope => String::from_str("Scope"),
        ItemKind::Debug => String::from_str("Debug"),
        ItemKind::Misc => String::from_str("Misc"),
    };
    let u = u64_to_string(unit_index as u64);
    let e = u64_to_string(entry_index as u64);
    let s = label.concat("[").concat(u.as_str()).concat(", ").concat(e.as_str()).concat("]");
    proof {
        assert(s@ =~= fallback_chars(k, unit_index as int, entry_index as int));
    }
    s
}

} // verus!
