use vstd::prelude::*;

verus! {

/// `a * num / den` with the quotient rounded toward zero.
pub open spec fn scaled(a: int, num: int, den: int) -> int {
    if a >= 0 {
        (a * num) / den
    } else {
        -(((-a) * num) / den)
    }
}

proof fn lemma_fraction_le(mag: int, num: int, den: int)
    requires
        mag >= 0,
        0 <= num <= den,
        den > 0,
    ensures
        0 <= (mag * num) / den <= mag,
{
    assert(mag * num <= mag * den) by (nonlinear_arith)
        requires
            mag >= 0,
            num <= den,
    ;
    assert(0 <= mag * num) by (nonlinear_arith)
        requires
            mag >= 0,
            num >= 0,
    ;
    assert((mag * num) / den <= (mag * den) / den) by (nonlinear_arith)
        requires
            mag * num <= mag * den,
            den > 0,
    ;
    assert((mag * den) / den == mag) by (nonlinear_arith)
        requires
            den > 0,
    ;
    assert(0 <= (mag * num) / den) by (nonlinear_arith)
        requires
            0 <= mag * num,
            den > 0,
    ;
}

/// The fraction `num / den` of `a`, rounded toward zero.
pub fn mul_div(a: i64, num: u64, den: u64) -> (r: i64)
    requires
        den > 0,
        num <= den,
    ensures
        r == scaled(a as int, num as int, den as int),
        a >= 0 ==> 0 <= r <= a,
        a < 0 ==> a <= r <= 0,
{
    let mag: u128 = if a >= 0 {
        a as u128
    } else {
        (-(a as i128)) as u128
    };
    proof {
        lemma_fraction_le(mag as int, num as int, den as int);
        assert(mag as int * num as int <= u128::MAX) by (nonlinear_arith)
            requires
                mag <= 0x8000_0000_0000_0000u128,
                num <= 0xffff_ffff_ffff_ffffu64,
        ;
    }
    let q: u128 = mag * (num as u128) / (den as u128);
    if a >= 0 {
        q as i64
    } else {
        (-(q as i128)) as i64
    }
}

} // verus!
