//! Verified helpers for comparing and folding short pieces of text, used by
//! register-name lookup and the string utilities.

use vstd::prelude::*;

verus! {

/// ASCII lower-casing of one character; other characters are unchanged.
pub open spec fn ascii_lower_char(c: char) -> char {
    if 65 <= c as u32 && c as u32 <= 90 {
        (((c as u32) + 32) as u8) as char
    } else {
        c
    }
}

/// ASCII lower-casing of a character sequence.
pub open spec fn ascii_lower_seq(s: Seq<char>) -> Seq<char> {
    s.map(|i: int, c: char| ascii_lower_char(c))
}

/// Lower-cases one ASCII letter, leaving every other character unchanged.
pub fn lower_char(c: char) -> (r: char)
    ensures
        r == ascii_lower_char(c),
{
    let u = c as u32;
    if 65 <= u && u <= 90 {
        ((u + 32) as u8) as char
    } else {
        c
    }
}

/// Character-for-character equality of two string slices.
pub fn str_eq(a: &str, b: &str) -> (r: bool)
    ensures
        r == (a@ == b@),
{
    let la = a.unicode_len();
    let lb = b.unicode_len();
    if la != lb {
        proof {
            assert(a@ != b@);
        }
        return false;
    }
    let mut i: usize = 0;
    while i < la
        invariant
            i <= la,
            la == a@.len(),
            la == b@.len(),
            forall|j: int| 0 <= j < i ==> a@[j] == b@[j],
        decreases la - i,
    {
        if a.get_char(i) != b.get_char(i) {
            return false;
        }
        i = i + 1;
    }
    proof {
        assert(a@ =~= b@);
    }
    true
}

/// Whether `name`, lower-cased ASCII-wise, equals `target` (already lower
/// case).  This is how register names are matched case-insensitively.
pub fn eq_lowered(name: &str, target: &str) -> (r: bool)
    ensures
        r == (ascii_lower_seq(name@) == target@),
{
    let ln = name.unicode_len();
    let lt = target.unicode_len();
    if ln != lt {
        proof {
            assert(ascii_lower_seq(name@).len() == name@.len());
            assert(ascii_lower_seq(name@) != target@);
        }
        return false;
    }
    let mut i: usize = 0;
    while i < ln
        invariant
            i <= ln,
            ln == name@.len(),
            ln == target@.len(),
            forall|j: int| 0 <= j < i ==> ascii_lower_char(name@[j]) == target@[j],
        decreases ln - i,
    {
        if lower_char(name.get_char(i)) != target.get_char(i) {
            proof {
                assert(ascii_lower_seq(name@)[i as int] != target@[i as int]);
            }
            return false;
        }
        i = i + 1;
    }
    proof {
        assert(ascii_lower_seq(name@) =~= target@);
    }
    true
}

} // verus!
