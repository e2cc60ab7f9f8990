//! Small verified text utilities: character-wise string equality, ASCII
//! case-insensitive substring search, and decimal rendering of integers.

use vstd::prelude::*;

verus! {

/// ASCII lowercase folding of a single character; everything outside `A`-`Z`
/// is left alone.
pub open spec fn lower_char(c: char) -> char {
    if 'A' <= c && c <= 'Z' {
        ((c as u8) + 32) as char
    } else {
        c
    }
}

/// A sequence of characters, ASCII-lowercased character by character.
pub open spec fn lowered(s: Seq<char>) -> Seq<char> {
    s.map_values(|c: char| lower_char(c))
}

/// `needle` occurs in `hay` starting at index `i`.
pub open spec fn occurs_at(hay: Seq<char>, needle: Seq<char>, i: int) -> bool {
    0 <= i && i + needle.len() <= hay.len() && hay.subrange(i, i + needle.len()) == needle
}

/// `needle` occurs somewhere in `hay`.
pub open spec fn contains_seq(hay: Seq<char>, needle: Seq<char>) -> bool {
    exists|i: int| occurs_at(hay, needle, i)
}

/// `needle` occurs in `hay` when both are compared ASCII case-insensitively.
pub open spec fn contains_ci(hay: Seq<char>, needle: Seq<char>) -> bool {
    contains_seq(lowered(hay), lowered(needle))
}

/// ASCII lowercase folding of one character.
fn to_lower_char(c: char) -> (r: char)
    ensures
        r == lower_char(c),
{
    if 'A' <= c && c <= 'Z' {
        ((c as u8) + 32) as char
    } else {
        c
    }
}

/// Character-wise string equality.
pub fn str_eq(a: &str, b: &str) -> (r: bool)
    ensures
        r <==> a@ == b@,
{
    let la = a.unicode_len();
    let lb = b.unicode_len();
    if la != lb {
        return false;
    }
    let mut i: usize = 0;
    while i < la
        invariant
            i <= la,
            la == a@.len(),
            la == b@.len(),
            forall|j: int| 0 <= j < i ==> a@[j] == b@[j],
        decreases la - i,
    {
        if a.get_char(i) != b.get_char(i) {
            return false;
        }
        i += 1;
    }
    proof {
        assert(a@ =~= b@);
    }
    true
}

/// Case-insensitive (ASCII folding) substring test: does `hay` contain
/// `needle` when both are lowercased?
pub fn contains_ignore_case(hay: &str, needle: &str) -> (r: bool)
    ensures
        r <==> contains_ci(hay@, needle@),
{
    let hn = hay.unicode_len();
    let nn = needle.unicode_len();
    proof {
        assert(lowered(hay@).len() == hay@.len());
        assert(lowered(needle@).len() == needle@.len());
    }
    if nn > hn {
        proof {
            assert(forall|i: int| !occurs_at(lowered(hay@), lowered(needle@), i));
        }
        return false;
    }
    if nn == 0 {
        proof {
            assert(lowered(hay@).subrange(0, 0) =~= lowered(needle@));
            assert(occurs_at(lowered(hay@), lowered(needle@), 0));
        }
        return true;
    }
    let mut i: usize = 0;
    while i <= hn - nn
        invariant
            hn == hay@.len(),
            nn == needle@.len(),
            0 < nn <= hn,
            i <= hn - nn + 1,
            forall|k: int| 0 <= k < i ==> !occurs_at(lowered(hay@), lowered(needle@), k),
        decreases hn + 1 - nn - i,
    {
        let mut j: usize = 0;
        let mut mismatch = false;
        while j < nn
            invariant
                hn == hay@.len(),
                nn == needle@.len(),
                i + nn <= hn,
                j <= nn,
                !mismatch ==> forall|m: int|
                    0 <= m < j ==> lowered(hay@)[i + m] == lowered(needle@)[m],
                mismatch ==> !occurs_at(lowered(hay@), lowered(needle@), i as int),
            decreases nn - j,
        {
            if mismatch {
                j = nn;
            } else {
                let hc = to_lower_char(hay.get_char(i + j));
                let nc = to_lower_char(needle.get_char(j));
                if hc != nc {
                    proof {
                        let lh = lowered(hay@);
                        let ln = lowered(needle@);
                        assert(lh[i + j] != ln[j as int]);
                        if occurs_at(lh, ln, i as int) {
                            assert(lh.subrange(i as int, i + nn)[j as int] == lh[i + j]);
                        }
                    }
                    mismatch = true;
                }
                j += 1;
            }
        }
        if !mismatch {
            proof {
                let lh = lowered(hay@);
                let ln = lowered(needle@);
                assert(lh.subrange(i as int, i + nn) =~= ln);
                assert(occurs_at(lh, ln, i as int));
            }
            return true;
        }
        i += 1;
    }
    proof {
        assert forall|k: int| !occurs_at(lowered(hay@), lowered(needle@), k) by {
            if 0 <= k < i {
            } else {
                assert(!(0 <= k && k + lowered(needle@).len() <= lowered(hay@).len()) || k >= i);
            }
        }
    }
    false
}

/// The decimal digit characters `0` through `9`.
pub open spec fn decimal_digit(d: nat) -> char {
    if d == 0 {
        '0'
    } else if d == 1 {
        '1'
    } else if d == 2 {
        '2'
    } else if d == 3 {
        '3'
    } else if d == 4 {
        '4'
    } else if d == 5 {
        '5'
    } else if d == 6 {
        '6'
    } else if d == 7 {
        '7'
    } else if d == 8 {
        '8'
    } else {
        '9'
    }
}

/// The decimal rendering of a natural number, most significant digit first,
/// without leading zeros (`0` itself renders as `"0"`).
pub open spec fn decimal_of(n: nat) -> Seq<char>
    decreases n,
{
    if n < 10 {
        seq![decimal_digit(n)]
    } else {
        decimal_of(n / 10) + seq![decimal_digit(n % 10)]
    }
}

/// One decimal digit as a string slice.
fn decimal_digit_str(d: u32) -> (r: &'static str)
    requires
        d < 10,
    ensures
        r@ =~= seq![decimal_digit(d as nat)],
{
    proof {
        reveal_strlit("0");
        reveal_strlit("1");
        reveal_strlit("2");
        reveal_strlit("3");
        reveal_strlit("4");
        reveal_strlit("5");
        reveal_strlit("6");
        reveal_strlit("7");
        reveal_strlit("8");
        reveal_strlit("9");
    }
    if d == 0 {
        "0"
    } else if d == 1 {
        "1"
    } else if d == 2 {
        "2"
    } else if d == 3 {
        "3"
    } else if d == 4 {
        "4"
    } else if d == 5 {
        "5"
    } else if d == 6 {
        "6"
    } else if d == 7 {
        "7"
    } else if d == 8 {
        "8"
    } else {
        "9"
    }
}

/// Renders an unsigned integer in decimal.
pub fn u32_decimal(n: u32) -> (r: String)
    ensures
        r@ == decimal_of(n as nat),
    decreases n,
{
    if n < 10 {
        String::from_str(decimal_digit_str(n))
    } else {
        let mut r = u32_decimal(n / 10);
        r.append(decimal_digit_str(n % 10));
        r
    }
}

} // verus!
