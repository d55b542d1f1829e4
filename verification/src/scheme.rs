//! Recognition of an authentication-scheme token in a raw header value.
//!
//! A raw header value splits as `<scheme> <payload>`: a scheme token up to
//! the first space, one delimiting space, and the credential payload after
//! it. The token is compared against the expected scheme name under ASCII
//! case folding; the payload (possibly empty, spaces and all) is handed on
//! unmodified.

use vstd::prelude::*;

verus! {

/// ASCII case folding of one character's code point: uppercase ASCII letters
/// map onto their lowercase counterparts, every other character is unchanged.
pub open spec fn fold_char(c: char) -> int {
    if 65 <= c as u32 && c as u32 <= 90 {
        c as u32 + 32
    } else {
        c as u32 as int
    }
}

/// Two character sequences are equal under ASCII case folding.
pub open spec fn eq_fold(a: Seq<char>, b: Seq<char>) -> bool {
    a.len() == b.len() && forall|i: int| 0 <= i < a.len() ==> fold_char(a[i]) == fold_char(b[i])
}

/// `i` is the position of the first space in `v`.
pub open spec fn is_first_space(v: Seq<char>, i: int) -> bool {
    &&& 0 <= i < v.len()
    &&& v[i] == ' '
    &&& forall|j: int| 0 <= j < i ==> v[j] != ' '
}

/// `v` contains at least one space.
pub open spec fn has_space(v: Seq<char>) -> bool {
    exists|i: int| is_first_space(v, i)
}

/// The position of the first space in `v`; meaningful only when `has_space(v)`.
pub open spec fn first_space(v: Seq<char>) -> int {
    choose|i: int| is_first_space(v, i)
}

/// The scheme token of `v`: everything before the first space.
pub open spec fn token_of(v: Seq<char>) -> Seq<char> {
    v.subrange(0, first_space(v))
}

/// The credential payload of `v`: everything strictly after the first space.
pub open spec fn payload_of(v: Seq<char>) -> Seq<char> {
    v.subrange(first_space(v) + 1, v.len() as int)
}

/// `v` splits as `<scheme> <payload>`: it contains a space, and the token
/// before its first space equals `scheme` under ASCII case folding.
pub open spec fn splits_as(v: Seq<char>, scheme: Seq<char>) -> bool {
    has_space(v) && eq_fold(token_of(v), scheme)
}

/// The first space of a sequence is unique: any position satisfying
/// `is_first_space` is the one `first_space` denotes.
pub proof fn lemma_first_space_unique(v: Seq<char>, i: int)
    requires
        is_first_space(v, i),
    ensures
        has_space(v),
        first_space(v) == i,
{
    let k = first_space(v);
    assert(is_first_space(v, k));
    if k < i {
        assert(v[k] != ' ');
    }
    if i < k {
        assert(v[i] != ' ');
    }
}

/// Finds the first space in `s`, scanning left to right.
fn find_space(s: &str) -> (r: Option<usize>)
    ensures
        match r {
            Some(i) => is_first_space(s@, i as int),
            None => !has_space(s@),
        },
{
    let n = s.unicode_len();
    let mut i: usize = 0;
    while i < n
        invariant
            i <= n,
            n == s@.len(),
            forall|j: int| 0 <= j < i ==> s@[j] != ' ',
        decreases n - i,
    {
        if s.get_char(i) == ' ' {
            return Some(i);
        }
        i = i + 1;
    }
    None
}

/// Compares two strings for equality under ASCII case folding.
fn eq_fold_str(a: &str, b: &str) -> (r: bool)
    ensures
        r == eq_fold(a@, b@),
{
    let na = a.unicode_len();
    let nb = b.unicode_len();
    if na != nb {
        return false;
    }
    let mut i: usize = 0;
    while i < na
        invariant
            i <= na,
            na == a@.len(),
            na == b@.len(),
            forall|j: int| 0 <= j < i ==> fold_char(a@[j]) == fold_char(b@[j]),
        decreases na - i,
    {
        let ua: u32 = a.get_char(i) as u32;
        let ub: u32 = b.get_char(i) as u32;
        let fa: u32 = if 65 <= ua && ua <= 90 {
            ua + 32
        } else {
            ua
        };
        let fb: u32 = if 65 <= ub && ub <= 90 {
            ub + 32
        } else {
            ub
        };
        if fa != fb {
            return false;
        }
        i = i + 1;
    }
    true
}

/// Splits a raw header value into scheme token and credential payload:
/// returns the payload exactly when the value contains a space and the token
/// before its first space equals `scheme` under ASCII case folding.
pub fn split_scheme(raw: &str, scheme: &str) -> (r: Option<String>)
    ensures
        match r {
            Some(p) => splits_as(raw@, scheme@) && p@ == payload_of(raw@),
            None => !splits_as(raw@, scheme@),
        },
{
    match find_space(raw) {
        Some(i) => {
            proof {
                lemma_first_space_unique(raw@, i as int);
            }
            let token = raw.substring_char(0, i);
            if eq_fold_str(token, scheme) {
                let n = raw.unicode_len();
                let payload = raw.substring_char(i + 1, n);
                Some(payload.to_owned())
            } else {
                None
            }
        },
        None => None,
    }
}

} // verus!
