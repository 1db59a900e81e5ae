//! Numbers that the CSS tokenizer reads, taken from the bits of their IEEE
//! single-precision encoding and scaled to whole pixels with integer arithmetic.
use vstd::prelude::*;
use vstd::arithmetic::div_mod::lemma_basic_div;
use vstd::arithmetic::power2::{lemma2_to64, lemma2_to64_rest, lemma_pow2_pos, lemma_pow2_strictly_increases, lemma_pow2_unfold, pow2};

verus! {

/// The biased exponent field.
pub open spec fn exp_field(b: u32) -> int {
    (b as int / 0x80_0000) % 0x100
}

/// The fraction field.
pub open spec fn fraction(b: u32) -> int {
    b as int % 0x80_0000
}

pub open spec fn is_negative(b: u32) -> bool {
    b >= 0x8000_0000
}

/// Neither infinite nor not-a-number.
pub open spec fn is_finite(b: u32) -> bool {
    exp_field(b) != 0xFF
}

pub open spec fn is_nan(b: u32) -> bool {
    exp_field(b) == 0xFF && fraction(b) != 0
}

/// A finite number's magnitude is `significand(b) * 2^exponent(b)`.
pub open spec fn significand(b: u32) -> nat {
    if exp_field(b) == 0 {
        fraction(b) as nat
    } else {
        (fraction(b) + 0x80_0000) as nat
    }
}

pub open spec fn exponent(b: u32) -> int {
    if exp_field(b) == 0 {
        -149
    } else {
        exp_field(b) - 150
    }
}

/// `k` times the magnitude of the finite number `b`, rounded to the nearest
/// integer (halves away from zero).
pub open spec fn scaled_magnitude(b: u32, k: nat) -> nat {
    let m = k * significand(b);
    if exponent(b) >= 0 {
        m * pow2(exponent(b) as nat)
    } else {
        ((m + pow2((-exponent(b) - 1) as nat)) / pow2((-exponent(b)) as nat)) as nat
    }
}

pub open spec fn min_int(a: int, b: int) -> int {
    if a <= b { a } else { b }
}

/// `k` times the magnitude of the finite number `b`, rounded to the nearest
/// integer and capped at `cap`.
pub fn scaled_magnitude_capped(b: u32, k: i64, cap: i64) -> (r: i64)
    requires
        is_finite(b),
        1 <= k <= 0x1_0000_0000,
        0 <= cap <= 0x0400_0000_0000_0000,
    ensures
        r == min_int(cap as int, scaled_magnitude(b, k as nat) as int),
{
    let e_field: u32 = (b / 0x80_0000) % 0x100;
    let frac: u32 = b % 0x80_0000;
    let sig: i128 = if e_field == 0 { frac as i128 } else { frac as i128 + 0x80_0000 };
    assert(sig == significand(b));
    assert(0 <= k * sig <= 0x1_0000_0000 * 0x100_0000) by (nonlinear_arith)
        requires
            1 <= k <= 0x1_0000_0000,
            0 <= sig < 0x100_0000,
    ;
    let m: i128 = k as i128 * sig;
    if e_field >= 150 {
        let e: u32 = e_field - 150;
        let mut v: i128 = m;
        let mut i: u32 = 0;
        proof {
            lemma_pow2_pos(0);
            lemma2_to64();
        }
        while i < e
            invariant
                i <= e,
                e == exponent(b),
                1 <= k <= 0x1_0000_0000,
                is_finite(b),
                m == k * significand(b),
                0 <= m,
                v == m * pow2(i as nat),
                0 <= v,
                i > 0 ==> v <= 2 * cap,
                v <= 0x1_0000_0000 * 0x100_0000 || v <= 2 * cap,
                0 <= cap <= 0x0400_0000_0000_0000,
            decreases e - i,
        {
            if v > cap as i128 {
                proof {
                    lemma_pow2_pos((e - i) as nat);
                    vstd::arithmetic::power2::lemma_pow2_adds(i as nat, (e - i) as nat);
                    let rest = pow2((e - i) as nat);
                    assert(m * pow2(e as nat) == v * rest) by (nonlinear_arith)
                        requires
                            v == m * pow2(i as nat),
                            pow2(i as nat) * rest == pow2(e as nat),
                    ;
                    assert(v * rest >= v) by (nonlinear_arith)
                        requires
                            rest >= 1,
                            v >= 0,
                    ;
                    assert(exponent(b) >= 0);
                    assert((k as nat) * significand(b) == m);
                    assert(exponent(b) as nat == e as nat);
                    assert(scaled_magnitude(b, k as nat) == m * pow2(e as nat));
                }
                return cap;
            }
            proof {
                lemma_pow2_unfold((i + 1) as nat);
                assert(m * pow2((i + 1) as nat) == 2 * (m * pow2(i as nat))) by (nonlinear_arith)
                    requires
                        pow2((i + 1) as nat) == 2 * pow2(i as nat),
                ;
            }
            v = v * 2;
            i = i + 1;
        }
        if v > cap as i128 {
            cap
        } else {
            v as i64
        }
    } else {
        let s: u32 = if e_field == 0 { 149 } else { 150 - e_field };
        assert(s as int == -exponent(b));
        proof {
            lemma_pow2_unfold(s as nat);
        }
        if s > 62 {
            proof {
                lemma2_to64_rest();
                if s - 1 > 62 {
                    lemma_pow2_strictly_increases(62, (s - 1) as nat);
                }
                lemma_basic_div(m + pow2((s - 1) as nat), pow2(s as nat) as int);
            }
            return 0;
        }
        let mut p: i128 = 1;
        let mut i: u32 = 0;
        proof {
            lemma2_to64();
            lemma2_to64_rest();
        }
        while i < s
            invariant
                i <= s <= 62,
                p == pow2(i as nat),
                p <= pow2(62),
            decreases s - i,
        {
            proof {
                lemma_pow2_unfold((i + 1) as nat);
                lemma2_to64_rest();
                if i + 1 < 62 {
                    lemma_pow2_strictly_increases((i + 1) as nat, 62);
                }
            }
            p = p * 2;
            i = i + 1;
        }
        proof {
            lemma2_to64_rest();
            lemma_pow2_pos((s - 1) as nat);
        }
        let q: i128 = (m + p / 2) / p;
        proof {
            let (qi, mi, pi) = (q as int, m as int, p as int);
            assert(qi <= mi + 1) by (nonlinear_arith)
                requires
                    qi == (mi + pi / 2) / pi,
                    pi >= 2,
                    mi >= 0,
            ;
        }
        if q > cap as i128 {
            cap
        } else {
            q as i64
        }
    }
}

} // verus!
