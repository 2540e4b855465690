//! Decimal input: turning a buffer of ASCII digit bytes into a bounded
//! number. The read itself happens at the program's edge; the arithmetic,
//! its overflow handling and the bound check live here.

use vstd::prelude::*;

verus! {

/// Converts an ASCII digit byte to its numeric value.
pub fn ascii_to_dec(ascii: u8) -> (r: u8)
    requires
        48 <= ascii,
    ensures
        r == ascii - 48,
{
    ascii - 48u8
}

/// The number a buffer of ASCII digit bytes denotes, most significant
/// digit first.
pub open spec fn decimal_value(digits: Seq<u8>) -> int
    decreases digits.len(),
{
    if digits.len() == 0 {
        0
    } else {
        decimal_value(digits.drop_last()) * 10 + (digits.last() - 48)
    }
}

/// All bytes of the buffer are ASCII digits.
pub open spec fn all_digits(digits: Seq<u8>) -> bool {
    forall|i: int| 0 <= i < digits.len() ==> 48 <= #[trigger] digits[i] <= 57
}

/// A digit buffer denotes a nonnegative number.
proof fn lemma_decimal_value_nonneg(digits: Seq<u8>)
    requires
        all_digits(digits),
    ensures
        decimal_value(digits) >= 0,
    decreases digits.len(),
{
    if digits.len() > 0 {
        assert(all_digits(digits.drop_last()));
        lemma_decimal_value_nonneg(digits.drop_last());
        assert(digits.last() >= 48);
    }
}

/// A digit buffer denotes a number no less than any of its prefixes.
proof fn lemma_decimal_value_prefix(digits: Seq<u8>, i: int)
    requires
        all_digits(digits),
        0 <= i <= digits.len(),
    ensures
        0 <= decimal_value(digits.take(i)) <= decimal_value(digits),
    decreases digits.len() - i,
{
    assert(all_digits(digits.take(i)));
    lemma_decimal_value_nonneg(digits.take(i));
    if i == digits.len() {
        assert(digits.take(i) =~= digits);
    } else {
        lemma_decimal_value_prefix(digits, i + 1);
        assert(digits.take(i + 1).drop_last() =~= digits.take(i));
        assert(digits.take(i + 1).last() == digits[i]);
        assert(decimal_value(digits.take(i + 1)) == decimal_value(digits.take(i)) * 10 + (
        digits[i] - 48));
    }
}

/// Reads the number a digit buffer denotes, as the user's account choice:
/// succeeds exactly on values up to `max`, and reports separately a value
/// too large for the machine word and one merely over the bound.
pub fn parse_u32(digits: &[u8], max: u32) -> (r: Result<u32, String>)
    requires
        all_digits(digits@),
    ensures
        match r {
            Ok(v) => v == decimal_value(digits@) && decimal_value(digits@) <= max,
            Err(e) => decimal_value(digits@) > max && e@ == (if decimal_value(digits@)
                > u32::MAX {
                "Addition overflow, input exceeds max allowed"@
            } else {
                "Output exceeded maximum"@
            }),
        },
{
    let mut acc: u32 = 0;
    let n = digits.len();
    proof {
        assert(digits@.take(0) =~= Seq::<u8>::empty());
    }
    for i in 0..n
        invariant
            n == digits@.len(),
            all_digits(digits@),
            acc == decimal_value(digits@.take(i as int)),
            max <= u32::MAX,
    {
        let d = ascii_to_dec(digits[i]);
        proof {
            assert(digits@.take(i + 1).drop_last() =~= digits@.take(i as int));
            assert(decimal_value(digits@.take(i + 1)) == acc * 10 + (digits@[i as int] - 48));
            lemma_decimal_value_prefix(digits@, i + 1);
        }
        let acc10 = match acc.checked_mul(10) {
            Some(x) => x,
            None => {
                return Err("Addition overflow, input exceeds max allowed".to_string());
            },
        };
        acc = match acc10.checked_add(d as u32) {
            Some(x) => x,
            None => {
                return Err("Addition overflow, input exceeds max allowed".to_string());
            },
        };
    }
    proof {
        assert(digits@.take(n as int) =~= digits@);
    }
    if acc > max {
        Err("Output exceeded maximum".to_string())
    } else {
        Ok(acc)
    }
}

} // verus!
