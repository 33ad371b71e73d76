//! Rounding a value to a multiple of an alignment.
//!
//! These specification functions define what the alignment-changing casts on
//! [`crate::Address`] compute, and the lemmas prove that the rounded value is
//! the *nearest* suitably aligned one — for any positive alignment, power of
//! two or not.

use vstd::arithmetic::div_mod::lemma_fundamental_div_mod;
use vstd::arithmetic::div_mod::lemma_mod_division_less_than_divisor;
use vstd::arithmetic::div_mod::lemma_mod_multiples_basic;
use vstd::arithmetic::div_mod::lemma_small_mod;
use vstd::arithmetic::div_mod::lemma_sub_mod_noop;
use vstd::arithmetic::mul::lemma_mul_is_commutative;
use vstd::prelude::*;

verus! {

/// The smallest multiple of `align` that is at least `value`
/// (what [`crate::Address::raise`] computes).
pub open spec fn round_up(value: int, align: int) -> int
    recommends
        0 <= value,
        0 < align,
{
    ((value + align - 1) / align) * align
}

/// The largest multiple of `align` that is at most `value`
/// (what [`crate::Address::lower`] computes).
pub open spec fn round_down(value: int, align: int) -> int
    recommends
        0 <= value,
        0 < align,
{
    (value / align) * align
}

/// Law: for every value `v >= 0` and every positive alignment `a`,
/// `round_up(v, a)` is the smallest `r >= v` with `r % a == 0`.
pub proof fn lemma_round_up_is_least_aligned(value: int, align: int)
    requires
        0 <= value,
        0 < align,
    ensures
        round_up(value, align) % align == 0,
        value <= round_up(value, align) < value + align,
        forall|r: int| value <= r < round_up(value, align) ==> #[trigger] (r % align) != 0,
{
    let x = value + align - 1;
    let q = x / align;
    lemma_fundamental_div_mod(x, align);
    lemma_mod_division_less_than_divisor(x, align);
    lemma_mul_is_commutative(q, align);
    lemma_mod_multiples_basic(q, align);
    assert forall|r: int| value <= r < round_up(value, align) implies #[trigger] (r % align)
        != 0 by {
        if r % align == 0 {
            let gap = round_up(value, align) - r;
            lemma_sub_mod_noop(round_up(value, align), r, align);
            lemma_small_mod(0nat, align as nat);
            assert(gap % align == 0);
            if gap < align {
                lemma_small_mod(gap as nat, align as nat);
            }
            assert(gap >= align);
            assert(r <= round_up(value, align) - align < value);
        }
    }
}

/// Law: for every value `v >= 0` and every positive alignment `a`,
/// `round_down(v, a)` is the largest `r <= v` with `r % a == 0`.
pub proof fn lemma_round_down_is_greatest_aligned(value: int, align: int)
    requires
        0 <= value,
        0 < align,
    ensures
        round_down(value, align) % align == 0,
        value - align < round_down(value, align) <= value,
        forall|r: int| round_down(value, align) < r <= value ==> #[trigger] (r % align) != 0,
{
    let q = value / align;
    lemma_fundamental_div_mod(value, align);
    lemma_mod_division_less_than_divisor(value, align);
    lemma_mul_is_commutative(q, align);
    lemma_mod_multiples_basic(q, align);
    assert forall|r: int| round_down(value, align) < r <= value implies #[trigger] (r % align)
        != 0 by {
        if r % align == 0 {
            let gap = r - round_down(value, align);
            lemma_sub_mod_noop(r, round_down(value, align), align);
            lemma_small_mod(0nat, align as nat);
            assert(gap % align == 0);
            if gap < align {
                lemma_small_mod(gap as nat, align as nat);
            }
            assert(gap >= align);
            assert(r >= round_down(value, align) + align > value);
        }
    }
}

/// Law: rounding a byte distance down to whole items and scaling it back up
/// restores the original distance, whenever the distance is an exact number
/// of items. This is the inverse law behind `b + (a - b) == a` on addresses.
pub proof fn lemma_round_trip_restores_address(a: int, b: int, size: int)
    requires
        0 < size,
        b <= a,
        (a - b) % size == 0,
    ensures
        b + ((a - b) / size) * size == a,
{
    let q = (a - b) / size;
    lemma_fundamental_div_mod(a - b, size);
    lemma_mul_is_commutative(q, size);
}

} // verus!
