//! Checksum validation: the 13th digit is a weighted-sum check digit
//! over the first 12, with weights 13 down to 2 and a mod-11 / mod-10
//! reduction.

use vstd::prelude::*;
use crate::format::{valid_format, is_dec_digit, char_digit, digit_values, as_ints, wf_digits};

verus! {

/// The weighted sum of a run of leading digit values: the digit at
/// position `i` contributes `digit * (13 - i)`.
pub open spec fn weighted_sum(ds: Seq<int>) -> int
    decreases ds.len(),
{
    if ds.len() == 0 {
        0
    } else {
        weighted_sum(ds.drop_last()) + ds.last() * (13 - (ds.len() - 1))
    }
}

/// The check digit owed to a 12-digit prefix.
pub open spec fn expected_check_digit(prefix: Seq<int>) -> int {
    (11 - weighted_sum(prefix) % 11) % 10
}

/// A full 13-digit sequence carries a correct check digit.
pub open spec fn checksum_ok(ds: Seq<int>) -> bool {
    ds[12] == expected_check_digit(ds.take(12))
}

/// The whole verification predicate: 13 decimal digits whose last digit
/// is the check digit owed to the first 12.
pub open spec fn id_valid(s: Seq<char>) -> bool {
    valid_format(s) && checksum_ok(digit_values(s))
}

proof fn lemma_weighted_sum_step(ds: Seq<int>, i: int)
    requires
        0 <= i < ds.len(),
    ensures
        weighted_sum(ds.take(i + 1)) == weighted_sum(ds.take(i)) + ds[i] * (13 - i),
{
    assert(ds.take(i + 1).drop_last() =~= ds.take(i));
    assert(ds.take(i + 1).last() == ds[i]);
}

/// Compare the stored check digit against the one owed to the first 12
/// digits.  Pure arithmetic; no lookups.
pub fn checksum_matches(ds: &Vec<u8>) -> (r: bool)
    requires
        wf_digits(ds@),
    ensures
        r == checksum_ok(as_ints(ds@)),
{
    let mut sum: u32 = 0;
    let mut i: usize = 0;
    while i < 12
        invariant
            wf_digits(ds@),
            i <= 12,
            sum == weighted_sum(as_ints(ds@).take(i as int)),
            sum <= 117 * i,
        decreases 12 - i,
    {
        proof {
            lemma_weighted_sum_step(as_ints(ds@), i as int);
        }
        let d: u32 = ds[i] as u32;
        let w: u32 = (13 - i) as u32;
        proof {
            assert(d * w <= 117) by (nonlinear_arith)
                requires
                    d <= 9,
                    w <= 13,
            ;
        }
        sum = sum + d * w;
        i += 1;
    }
    let expected: u32 = (11 - sum % 11) % 10;
    expected == ds[12] as u32
}

/// The check digit owed to any 12-digit prefix is itself a digit, and it
/// is the unique digit value that completes the prefix to a
/// checksum-correct 13-digit sequence: every other digit value fails.
pub proof fn lemma_check_digit_unique(prefix: Seq<int>)
    requires
        prefix.len() == 12,
        forall|i: int| 0 <= i < 12 ==> 0 <= #[trigger] prefix[i] < 10,
    ensures
        0 <= expected_check_digit(prefix) < 10,
        forall|d: int|
            0 <= d < 10 ==> (checksum_ok(prefix.push(d)) <==> d == expected_check_digit(prefix)),
{
    assert forall|d: int| 0 <= d < 10 implies (checksum_ok(prefix.push(d)) <==> d
        == expected_check_digit(prefix)) by {
        assert(prefix.push(d).take(12) =~= prefix);
        assert(prefix.push(d)[12] == d);
    }
}

/// Stated over strings: appending a digit character to 12 digit
/// characters yields a valid identifier exactly when that character's
/// value is the check digit owed to the prefix.
pub proof fn lemma_verify_check_digit(prefix: Seq<char>, d: char)
    requires
        prefix.len() == 12,
        forall|i: int| 0 <= i < 12 ==> is_dec_digit(#[trigger] prefix[i]),
        is_dec_digit(d),
    ensures
        id_valid(prefix.push(d)) <==> char_digit(d) == expected_check_digit(digit_values(prefix)),
{
    let s = prefix.push(d);
    assert(valid_format(s));
    assert(digit_values(s).take(12) =~= digit_values(prefix));
    assert(digit_values(s)[12] == char_digit(d));
}

/// Verification is pure: the contract of `verify_id` pins its result to
/// a function of the input's characters alone, so two calls on the same
/// input return the same value and neither observes the other.
pub proof fn lemma_verify_deterministic(s: Seq<char>, r1: bool, r2: bool)
    requires
        r1 == id_valid(s),
        r2 == id_valid(s),
    ensures
        r1 == r2,
{
}

/// Uniqueness at the character level: no two distinct digit characters
/// both complete the same 12-digit prefix to a valid identifier.
pub proof fn lemma_check_digit_char_unique(prefix: Seq<char>, d1: char, d2: char)
    requires
        prefix.len() == 12,
        forall|i: int| 0 <= i < 12 ==> is_dec_digit(#[trigger] prefix[i]),
        is_dec_digit(d1),
        is_dec_digit(d2),
        id_valid(prefix.push(d1)),
        id_valid(prefix.push(d2)),
    ensures
        d1 == d2,
{
    lemma_verify_check_digit(prefix, d1);
    lemma_verify_check_digit(prefix, d2);
}

} // verus!
