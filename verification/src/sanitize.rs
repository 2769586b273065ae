//! Filename sanitisation: every character outside the filesystem-safe set
//! is replaced, one for one, by an underscore.

use vstd::prelude::*;
use vstd::string::StrSliceExecFns;
use crate::trusted::push_char;

verus! {

/// A character is kept as-is when it is an ASCII letter, an ASCII digit,
/// or one of `.`, `-`, `_`, space.
pub open spec fn is_allowed_char(c: char) -> bool {
    ('A' as u32 <= c as u32 && c as u32 <= 'Z' as u32)
        || ('a' as u32 <= c as u32 && c as u32 <= 'z' as u32)
        || ('0' as u32 <= c as u32 && c as u32 <= '9' as u32)
        || c == '.'
        || c == '-'
        || c == '_'
        || c == ' '
}

/// An allowed character stays; any other character becomes `_`.
pub open spec fn sanitize_char(c: char) -> char {
    if is_allowed_char(c) {
        c
    } else {
        '_'
    }
}

/// The sanitised form of a name: the same length, each character mapped
/// by `sanitize_char`.
pub open spec fn sanitize_spec(s: Seq<char>) -> Seq<char> {
    s.map_values(|c: char| sanitize_char(c))
}

/// Maps an arbitrary client-supplied filename to a filesystem-safe string:
/// the length is preserved and every character outside the allowed set is
/// replaced by `_`. Empty input stays empty; runs are not collapsed.
pub fn sanitize_filename(name: &str) -> (r: String)
    ensures
        r@ == sanitize_spec(name@),
        r@.len() == name@.len(),
        forall|i: int| 0 <= i < name@.len() ==> r@[i] == sanitize_char(name@[i]),
{
    let n: usize = name.unicode_len();
    let mut out = String::new();
    let mut i: usize = 0;
    while i < n
        invariant
            n == name@.len(),
            0 <= i <= n,
            out@ == sanitize_spec(name@.take(i as int)),
        decreases n - i,
    {
        let c = name.get_char(i);
        let u = c as u32;
        let keep = ('A' as u32 <= u && u <= 'Z' as u32) || ('a' as u32 <= u && u <= 'z' as u32)
            || ('0' as u32 <= u && u <= '9' as u32) || c == '.' || c == '-' || c == '_'
            || c == ' ';
        if keep {
            push_char(&mut out, c);
        } else {
            push_char(&mut out, '_');
        }
        proof {
            assert(out@ =~= sanitize_spec(name@.take(i + 1)));
        }
        i = i + 1;
    }
    proof {
        assert(name@.take(n as int) =~= name@);
        assert(forall|i: int|
            0 <= i < name@.len() ==> sanitize_spec(name@)[i] == sanitize_char(name@[i]));
    }
    out
}

} // verus!
