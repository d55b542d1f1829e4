//! The bound a credential payload must meet before it is handed to the
//! external parser.
//!
//! The parser turns a `ts` field into a point in time by adding the parsed
//! seconds to the Unix epoch, and std's `SystemTime` addition panics when the
//! sum leaves the representable range (seconds above `i64::MAX`, a 19-digit
//! number). A payload in which every run of consecutive ASCII digits starting
//! with a nonzero digit is shorter than 19 digits can only yield `ts` values
//! below `10^18` seconds, safely inside that range. The bound is
//! conservative: it also rejects payloads whose long digit runs lie outside
//! any `ts` field, or denote values the parser would reject on its own.

use vstd::prelude::*;

verus! {

/// An ASCII decimal digit.
pub open spec fn is_digit(c: char) -> bool {
    48 <= c as u32 && c as u32 <= 57
}

/// Every run of consecutive ASCII digits in `s` that starts with a nonzero
/// digit is shorter than 19 digits: any decimal number readable from `s` has
/// at most 18 significant digits and so denotes a value below `10^18`.
pub open spec fn digits_bounded(s: Seq<char>) -> bool {
    forall|i: int|
        0 <= i && i + 19 <= s.len() && is_digit(s[i]) && s[i] != '0' ==> exists|k: int|
            i < k < i + 19 && !is_digit(s[k])
}

/// Decides [`digits_bounded`] for a payload string.
pub fn payload_digits_bounded(p: &str) -> (r: bool)
    ensures
        r == digits_bounded(p@),
{
    let n = p.unicode_len();
    let mut i: usize = 0;
    while i < n
        invariant
            i <= n,
            n == p@.len(),
            forall|a: int|
                0 <= a < i && a + 19 <= n && is_digit(p@[a]) && p@[a] != '0' ==> exists|k: int|
                    a < k < a + 19 && !is_digit(p@[k]),
        decreases n - i,
    {
        let u: u32 = p.get_char(i) as u32;
        if 49 <= u && u <= 57 && n - i >= 19 {
            let mut k: usize = i + 1;
            let mut all_digits: bool = true;
            while k < i + 19
                invariant
                    i + 19 <= n,
                    n == p@.len(),
                    i < k <= i + 19,
                    all_digits == forall|j: int| i < j < k ==> is_digit(p@[j]),
                decreases i + 19 - k,
            {
                let d: u32 = p.get_char(k) as u32;
                if !(48 <= d && d <= 57) {
                    all_digits = false;
                }
                k = k + 1;
            }
            if all_digits {
                return false;
            }
        }
        i = i + 1;
    }
    true
}

} // verus!
