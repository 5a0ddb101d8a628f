//! Alignment arithmetic: power-of-two predicates and rounding of addresses
//! up or down to a multiple of an alignment, with the facts the allocator's
//! proofs need.

use vstd::arithmetic::div_mod::lemma_div_is_ordered;
use vstd::arithmetic::div_mod::lemma_fundamental_div_mod;
use vstd::arithmetic::div_mod::lemma_mod_bound;
use vstd::arithmetic::div_mod::lemma_mod_multiples_basic;
use vstd::prelude::*;

verus! {

/// `n` is a positive power of two.
pub open spec fn is_pow2(n: int) -> bool
    decreases n,
{
    if n <= 0 {
        false
    } else if n == 1 {
        true
    } else {
        n % 2 == 0 && is_pow2(n / 2)
    }
}

/// `pos` rounded up to the nearest multiple of `align` at or above `pos`.
pub open spec fn align_up(pos: int, align: int) -> int {
    if pos % align == 0 {
        pos
    } else {
        pos + align - pos % align
    }
}

/// `pos` rounded down to the nearest multiple of `align` at or below `pos`.
pub open spec fn align_down(pos: int, align: int) -> int {
    pos - pos % align
}

/// A power of two is positive.
pub proof fn lemma_pow2_pos(n: int)
    requires
        is_pow2(n),
    ensures
        n >= 1,
{
}

/// Rounding up lands on a multiple of `align` within `align` of `pos`.
pub proof fn lemma_align_up(pos: int, align: int)
    requires
        align >= 1,
    ensures
        pos <= align_up(pos, align) < pos + align,
        align_up(pos, align) % align == 0,
{
    lemma_mod_bound(pos, align);
    if pos % align != 0 {
        lemma_fundamental_div_mod(pos, align);
        let q = pos / align;
        assert(align_up(pos, align) == (q + 1) * align) by (nonlinear_arith)
            requires
                pos == align * q + pos % align,
                align_up(pos, align) == pos + align - pos % align,
        ;
        lemma_mod_multiples_basic(q + 1, align);
    }
}

/// Rounding down lands on a multiple of `align` within `align` below `pos`,
/// and agrees with truncating division.
pub proof fn lemma_align_down(pos: int, align: int)
    requires
        align >= 1,
    ensures
        pos - align < align_down(pos, align) <= pos,
        align_down(pos, align) % align == 0,
        align_down(pos, align) == align * (pos / align),
        align_down(pos, align) == (pos / align) * align,
{
    lemma_mod_bound(pos, align);
    lemma_fundamental_div_mod(pos, align);
    lemma_mod_multiples_basic(pos / align, align);
    assert(align * (pos / align) == (pos / align) * align) by (nonlinear_arith);
}

/// A smaller power of two divides a larger one.
pub proof fn lemma_pow2_divides(small: int, big: int)
    requires
        is_pow2(small),
        is_pow2(big),
        small <= big,
    ensures
        big % small == 0,
    decreases big,
{
    lemma_pow2_pos(small);
    lemma_pow2_pos(big);
    if small == 1 {
        lemma_mod_bound(big, 1);
    } else {
        lemma_pow2_divides(small / 2, big / 2);
        let q = (big / 2) / (small / 2);
        lemma_fundamental_div_mod(big / 2, small / 2);
        assert(big == q * small) by (nonlinear_arith)
            requires
                big == 2 * (big / 2),
                small == 2 * (small / 2),
                big / 2 == (small / 2) * q,
        ;
        lemma_mod_multiples_basic(q, small);
    }
}

/// A multiple of `mid` is a multiple of any divisor of `mid`.
pub proof fn lemma_multiple_of_divisor(x: int, mid: int, div: int)
    requires
        mid >= 1,
        div >= 1,
        x % mid == 0,
        mid % div == 0,
    ensures
        x % div == 0,
{
    lemma_fundamental_div_mod(x, mid);
    lemma_fundamental_div_mod(mid, div);
    let qx = x / mid;
    let qm = mid / div;
    assert(x == (qm * qx) * div) by (nonlinear_arith)
        requires
            x == mid * qx,
            mid == div * qm,
    ;
    lemma_mod_multiples_basic(qm * qx, div);
}

/// The difference of two multiples of `div` is a multiple of `div`.
pub proof fn lemma_multiple_difference(x: int, y: int, div: int)
    requires
        div >= 1,
        x % div == 0,
        y % div == 0,
    ensures
        (x - y) % div == 0,
{
    lemma_fundamental_div_mod(x, div);
    lemma_fundamental_div_mod(y, div);
    assert(x - y == (x / div - y / div) * div) by (nonlinear_arith)
        requires
            x == div * (x / div),
            y == div * (y / div),
    ;
    lemma_mod_multiples_basic(x / div - y / div, div);
}

/// Dividing a smaller numerator by the same positive divisor never gives a
/// larger quotient.
pub proof fn lemma_div_ordered(x: int, y: int, div: int)
    requires
        x <= y,
        div >= 1,
    ensures
        x / div <= y / div,
{
    lemma_div_is_ordered(x, y, div);
}

} // verus!
