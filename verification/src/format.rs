//! Format parsing: a candidate identifier is exactly 13 ASCII decimal digits.

use vstd::prelude::*;

verus! {

/// An ASCII decimal digit character, `'0'` through `'9'`.
pub open spec fn is_dec_digit(c: char) -> bool {
    '0' <= c && c <= '9'
}

/// The numeric value of a decimal digit character.
pub open spec fn char_digit(c: char) -> int {
    c as int - 48
}

/// A string is well formed exactly when it is 13 ASCII decimal digits,
/// with no trimming, no signs and no other digit repertoire.
pub open spec fn valid_format(s: Seq<char>) -> bool {
    s.len() == 13 && forall|i: int| 0 <= i < s.len() ==> is_dec_digit(#[trigger] s[i])
}

/// The digit values of a string of decimal digit characters, in order.
pub open spec fn digit_values(s: Seq<char>) -> Seq<int> {
    s.map(|i: int, c: char| char_digit(c))
}

/// The digit values held by a parsed digit sequence.
pub open spec fn as_ints(ds: Seq<u8>) -> Seq<int> {
    ds.map(|i: int, d: u8| d as int)
}

/// A digit sequence as produced by the parser: 13 values, each below 10.
pub open spec fn wf_digits(ds: Seq<u8>) -> bool {
    ds.len() == 13 && forall|i: int| 0 <= i < ds.len() ==> #[trigger] ds[i] < 10
}

/// Parse an arbitrary string into its 13 digit values, left to right.
/// Any other input — wrong length, a non-digit anywhere, the empty
/// string — is rejected; no input panics.
pub fn parse_digits(id: &str) -> (r: Option<Vec<u8>>)
    ensures
        r.is_some() == valid_format(id@),
        (r matches Some(ds) ==> wf_digits(ds@) && as_ints(ds@) == digit_values(id@)),
{
    let n = id.unicode_len();
    if n != 13 {
        return None;
    }
    let mut ds: Vec<u8> = Vec::new();
    let mut i: usize = 0;
    while i < 13
        invariant
            id@.len() == 13,
            i <= 13,
            ds@.len() == i,
            forall|j: int| 0 <= j < i ==> is_dec_digit(#[trigger] id@[j]),
            forall|j: int| 0 <= j < i ==> #[trigger] ds@[j] < 10,
            forall|j: int| 0 <= j < i ==> #[trigger] ds@[j] as int == char_digit(id@[j]),
        decreases 13 - i,
    {
        let c = id.get_char(i);
        if c < '0' || c > '9' {
            return None;
        }
        let v: u32 = c as u32;
        ds.push((v - 48) as u8);
        i += 1;
    }
    proof {
        assert(as_ints(ds@) =~= digit_values(id@));
    }
    Some(ds)
}

} // verus!
