//! Single-precision (IEEE 754 binary32) values as their 32-bit patterns.
//!
//! The daemon carries these numbers far more often than it computes with
//! them. The two computations that belong to its own formats, a quotient of
//! integers and a comparison with one, are done exactly on the patterns.

use vstd::arithmetic::power2::*;
use vstd::prelude::*;

verus! {

/// The pattern of `0.0`.
pub const ZERO: u32 = 0;

/// The pattern of `1.0`.
pub const ONE: u32 = 0x3f80_0000;

/// The pattern of the sign alone.
pub const SIGN: u32 = 0x8000_0000;

/// The pattern of positive infinity.
pub const INFINITY: u32 = 0x7f80_0000;

/// The integer nearest to `n / d`, the even one of two that are as near.
pub open spec fn round_div(n: nat, d: nat) -> nat {
    let q = n / d;
    let r = n % d;
    if 2 * r < d || (2 * r == d && q % 2 == 0) {
        q
    } else {
        q + 1
    }
}

/// `n / d` divided by two to the `e`, as a fraction of naturals.
pub open spec fn scaled(n: nat, d: nat, e: int) -> (nat, nat) {
    if e >= 0 {
        (n, d * pow2(e as nat))
    } else {
        (n * pow2((-e) as nat), d)
    }
}

/// Whether `n / d`, divided by two to the `e`, has a 24-bit integer part:
/// `e` is the weight of the last bit of the significand.
pub open spec fn fits_at(n: nat, d: nat, e: int) -> bool {
    let (p, q) = scaled(n, d, e);
    0x80_0000 * q <= p < 0x100_0000 * q
}

/// The pattern whose significand is `n / d` rounded at weight `e`. Rounding up
/// to the next power of two carries into the exponent field.
pub open spec fn pattern_at(n: nat, d: nat, e: int) -> int {
    let (p, q) = scaled(n, d, e);
    (e + 150) * 0x80_0000 + round_div(p, q) - 0x80_0000
}

/// Whether `bits` is the single-precision number nearest to `n / d`, ties to
/// even.
pub open spec fn is_ratio(bits: u32, n: nat, d: nat) -> bool {
    if n == 0 {
        bits == ZERO
    } else {
        exists|e: int| #[trigger] fits_at(n, d, e) && bits == pattern_at(n, d, e)
    }
}

/// The single-precision number nearest to `n / d`.
pub open spec fn ratio_bits(n: nat, d: nat) -> u32 {
    choose|bits: u32| is_ratio(bits, n, d)
}

proof fn lemma_scale_step(n: nat, d: nat, e: int, f: int)
    requires
        0 < n,
        0 < d,
        e < f,
        fits_at(n, d, e),
    ensures
        !fits_at(n, d, f),
    decreases f - e,
{
    if e >= 0 {
        lemma_pow2_strictly_increases(e as nat, f as nat);
        lemma_pow2_unfold(f as nat);
        lemma_pow2_pos(e as nat);
        if f - 1 > e {
            lemma_pow2_strictly_increases(e as nat, (f - 1) as nat);
        }
        assert(pow2(f as nat) >= 2 * pow2(e as nat));
        assert(d * pow2(f as nat) >= 2 * (d * pow2(e as nat))) by (nonlinear_arith)
            requires
                pow2(f as nat) >= 2 * pow2(e as nat),
        ;
    } else if f <= 0 {
        let i = (-f) as nat;
        let j = (-e) as nat;
        lemma_pow2_unfold(j);
        lemma_pow2_pos(i);
        if j - 1 > i {
            lemma_pow2_strictly_increases(i, (j - 1) as nat);
        }
        assert(pow2(j) >= 2 * pow2(i));
        assert(n * pow2(j) >= 2 * (n * pow2(i))) by (nonlinear_arith)
            requires
                pow2(j) >= 2 * pow2(i),
        ;
        if f == 0 {
            lemma2_to64();
            assert(n * pow2(0) == n);
            assert(d * pow2(0) == d);
        }
    } else {
        let j = (-e) as nat;
        lemma_pow2_unfold(j);
        lemma_pow2_unfold(f as nat);
        lemma_pow2_pos((j - 1) as nat);
        lemma_pow2_pos((f - 1) as nat);
        assert(n * pow2(j) >= 2 * n) by (nonlinear_arith)
            requires
                pow2(j) >= 2,
        ;
        assert(d * pow2(f as nat) >= 2 * d) by (nonlinear_arith)
            requires
                pow2(f as nat) >= 2,
        ;
    }
}

/// At most one pattern is nearest to a quotient.
pub proof fn law_ratio_is_unique(a: u32, b: u32, n: nat, d: nat)
    requires
        0 < d,
        is_ratio(a, n, d),
        is_ratio(b, n, d),
    ensures
        a == b,
        a == ratio_bits(n, d),
{
    lemma_unique(a, b, n, d);
    lemma_unique(a, ratio_bits(n, d), n, d);
}

proof fn lemma_unique(a: u32, b: u32, n: nat, d: nat)
    requires
        0 < d,
        is_ratio(a, n, d),
        is_ratio(b, n, d),
    ensures
        a == b,
{
    if n > 0 {
        let e = choose|e: int| #[trigger] fits_at(n, d, e) && a == pattern_at(n, d, e);
        let f = choose|e: int| #[trigger] fits_at(n, d, e) && b == pattern_at(n, d, e);
        if e < f {
            lemma_scale_step(n, d, e, f);
        } else if f < e {
            lemma_scale_step(n, d, f, e);
        }
    }
}

/// A weight at or above `e` at which the quotient fits, when it is not too
/// small for `e`.
proof fn lemma_fits_from(n: nat, d: nat, e: int) -> (f: int)
    requires
        0 < n <= 0x1_0000_0000,
        0 < d <= 0x1_0000_0000,
        -60 <= e <= 41,
        scaled(n, d, e).0 >= 0x80_0000 * scaled(n, d, e).1,
    ensures
        -60 <= f <= 41,
        fits_at(n, d, f),
    decreases 41 - e,
{
    let (p, q) = scaled(n, d, e);
    if p < 0x100_0000 * q {
        e
    } else {
        lemma2_to64();
        lemma2_to64_rest();
        if e >= 0 {
            let k = e as nat;
            lemma_pow2_unfold(k + 1);
            assert(d * (2 * pow2(k)) == 2 * (d * pow2(k))) by (nonlinear_arith);
            lemma_pow2_pos(k);
            if e >= 32 {
                if e > 32 {
                    lemma_pow2_strictly_increases(32, k);
                }
                assert(d * pow2(k) >= pow2(k)) by (nonlinear_arith)
                    requires
                        d >= 1,
                ;
                assert(false);
            }
        } else if e == -1 {
            assert(d * pow2(0) == d);
            assert(n * pow2(1) == 2 * n) by (nonlinear_arith)
                requires
                    pow2(1) == 2,
            ;
        } else {
            let k = (-e) as nat;
            lemma_pow2_unfold(k);
            assert(n * (2 * pow2((k - 1) as nat)) == 2 * (n * pow2((k - 1) as nat)))
                by (nonlinear_arith);
        }
        lemma_fits_from(n, d, e + 1)
    }
}

/// Every quotient of 32-bit numbers has a number nearest to it.
pub proof fn law_ratio_exists(n: nat, d: nat)
    requires
        n <= 0x1_0000_0000,
        0 < d <= 0x1_0000_0000,
    ensures
        is_ratio(ratio_bits(n, d), n, d),
        ratio_bits(n, d) < 0x8000_0000,
        n == 0 ==> ratio_bits(n, d) == 0,
{
    if n == 0 {
        law_ratio_is_unique(ZERO, ZERO, n, d);
    } else {
        lemma2_to64();
        lemma2_to64_rest();
        assert(n * pow2(60) >= pow2(60)) by (nonlinear_arith)
            requires
                n >= 1,
        ;
        let e = lemma_fits_from(n, d, -60);
        let (p, q) = scaled(n, d, e);
        if e >= 0 {
            lemma_pow2_pos(e as nat);
            assert(d * pow2(e as nat) > 0) by (nonlinear_arith)
                requires
                    d > 0,
                    pow2(e as nat) > 0,
            ;
        }
        lemma_round_div(p, q);
        let bits = pattern_at(n, d, e) as u32;
        assert(is_ratio(bits, n, d));
        law_ratio_is_unique(bits, bits, n, d);
    }
}

/// Whether the positive number with pattern `bits` is as near to `n / d` as any
/// other. The number is its significand times two to its exponent; it misses
/// the quotient by no more than half of its last place, by no more than a
/// quarter where the numbers below lie twice as close, and of two that are as
/// near it is the one with the even significand.
pub open spec fn is_nearest(bits: u32, n: nat, d: nat) -> bool {
    let m = bits % 0x80_0000 + 0x80_0000;
    let e = bits / 0x80_0000 - 150;
    let (off, last) = if e < 0 {
        (n * pow2((-e) as nat) - m * d, d as int)
    } else {
        (n - m * (d * pow2(e as nat)), (d * pow2(e as nat)) as int)
    };
    &&& -last <= 2 * off <= last
    &&& m == 0x80_0000 ==> -last <= 4 * off
    &&& 2 * off == last || 2 * off == -last ==> m % 2 == 0
}

/// A quotient in single precision is the number nearest to it.
pub proof fn law_ratio_is_nearest(bits: u32, n: nat, d: nat)
    requires
        0 < n,
        0 < d,
        is_ratio(bits, n, d),
    ensures
        is_nearest(bits, n, d),
{
    let e = choose|e: int| #[trigger] fits_at(n, d, e) && bits == pattern_at(n, d, e);
    let (p, q) = scaled(n, d, e);
    let r = round_div(p, q);
    if e >= 0 {
        lemma_pow2_pos(e as nat);
        assert(d * pow2(e as nat) > 0) by (nonlinear_arith)
            requires
                d > 0,
                pow2(e as nat) > 0,
        ;
    }
    lemma_round_div(p, q);
    lemma_pow2_unfold((if e < 0 { -e } else { e + 1 }) as nat);
    if r < 0x100_0000 {
        assert(bits / 0x80_0000 == e + 150);
        assert(bits % 0x80_0000 + 0x80_0000 == r);
    } else {
        assert(bits / 0x80_0000 == e + 151);
        assert(bits % 0x80_0000 == 0);
        if e < -1 {
            let k = (-e) as nat;
            assert(n * pow2(k) == 2 * (n * pow2((k - 1) as nat))) by (nonlinear_arith)
                requires
                    pow2(k) == 2 * pow2((k - 1) as nat),
            ;
        } else if e == -1 {
            lemma2_to64();
            assert(d * pow2(0) == d);
        } else {
            let k = e as nat;
            assert(d * pow2(k + 1) == 2 * (d * pow2(k))) by (nonlinear_arith)
                requires
                    pow2(k + 1) == 2 * pow2(k),
            ;
        }
    }
}

/// Rounding misses by at most a half, and an exact half goes to an even number.
proof fn lemma_round_div(p: nat, q: nat)
    requires
        0 < q,
        0x80_0000 * q <= p < 0x100_0000 * q,
    ensures
        0x80_0000 <= round_div(p, q) <= 0x100_0000,
        -q <= 2 * (p - round_div(p, q) * q) <= q,
        2 * (p - round_div(p, q) * q) == q || 2 * (p - round_div(p, q) * q) == -q ==> round_div(
            p,
            q,
        ) % 2 == 0,
        round_div(p, q) == 0x80_0000 ==> p - round_div(p, q) * q >= 0,
{
    let k = p / q;
    vstd::arithmetic::div_mod::lemma_fundamental_div_mod(p as int, q as int);
    assert(q * k == k * q) by (nonlinear_arith);
    assert((k + 1) * q == k * q + q) by (nonlinear_arith);
    assert(0x80_0000 <= k < 0x100_0000) by (nonlinear_arith)
        requires
            p == k * q + p % q,
            0 <= p % q < q,
            0x80_0000 * q <= p < 0x100_0000 * q,
    ;
}

fn round_div_exec(n: u64, d: u64) -> (r: u64)
    requires
        0 < d <= 0x8000_0000_0000_0000,
        n < u64::MAX,
    ensures
        r == round_div(n as nat, d as nat),
{
    let q: u64 = n / d;
    let r: u64 = n % d;
    assert(q <= n) by (nonlinear_arith)
        requires
            q == n / d,
            0 < d,
    ;
    let gap: u64 = d - r;
    if r < gap || (r == gap && q % 2 == 0) {
        q
    } else {
        q + 1
    }
}

/// `n / d` in single precision.
pub fn ratio(n: u64, d: u64) -> (bits: u32)
    requires
        n <= 0x1_0000_0000,
        0 < d <= 0x1_0000_0000,
    ensures
        is_ratio(bits, n as nat, d as nat),
        bits == ratio_bits(n as nat, d as nat),
        bits < SIGN,
{
    if n == 0 {
        proof {
            law_ratio_is_unique(ZERO, ZERO, 0, d as nat);
        }
        return ZERO;
    }
    let mut p: u64 = n;
    let mut q: u64 = d;
    let mut e: i64 = 0;
    proof {
        lemma2_to64();
        assert(n * pow2(0) == n);
        assert(d * pow2(0) == d);
    }
    if n < d * 0x80_0000 {
        while p < d * 0x80_0000
            invariant
                0 < n <= 0x1_0000_0000,
                0 < d <= 0x1_0000_0000,
                n < d * 0x80_0000,
                e <= 0,
                p == n * pow2((-e) as nat),
                p < d * 0x100_0000,
                pow2((-e) as nat) <= p,
                -60 <= e,
            decreases d * 0x100_0000 - p,
        {
            let ghost k = (-e) as nat;
            proof {
                lemma_pow2_unfold(k + 1);
                lemma_pow2_pos(k);
                assert(n * (2 * pow2(k)) == 2 * (n * pow2(k))) by (nonlinear_arith);
                assert(n * pow2(k) >= pow2(k)) by (nonlinear_arith)
                    requires
                        n >= 1,
                ;
                if k >= 58 {
                    lemma2_to64_rest();
                    lemma2_to64();
                    if k > 58 {
                        lemma_pow2_strictly_increases(58, k);
                    }
                    assert(false);
                }
            }
            p = p * 2;
            e = e - 1;
        }
    } else {
        while p >= q * 0x100_0000
            invariant
                0 < n <= 0x1_0000_0000,
                0 < d <= 0x1_0000_0000,
                p == n,
                0 <= e <= 60,
                q == d * pow2(e as nat),
                0 < q <= 0x1_0000_0000,
                q * 0x80_0000 <= p,
                pow2(e as nat) <= q,
            decreases p - q,
        {
            proof {
                lemma_pow2_unfold((e + 1) as nat);
                lemma_pow2_pos(e as nat);
                assert(d * (2 * pow2(e as nat)) == 2 * (d * pow2(e as nat))) by (nonlinear_arith);
                if e >= 33 {
                    lemma2_to64();
                    lemma2_to64_rest();
                    if e > 33 {
                        lemma_pow2_strictly_increases(33, e as nat);
                    }
                    assert(false);
                }
            }
            q = q * 2;
            e = e + 1;
        }
    }
    let m: u64 = round_div_exec(p, q);
    proof {
        assert(scaled(n as nat, d as nat, e as int) == (p as nat, q as nat));
        assert(fits_at(n as nat, d as nat, e as int));
        assert(0x80_0000 <= p / q <= 0xff_ffff) by (nonlinear_arith)
            requires
                0 < q,
                0x80_0000 * q <= p < 0x100_0000 * q,
        ;
    }
    let bits: u32 = ((e + 150) as u64 * 0x80_0000 + m - 0x80_0000) as u32;
    proof {
        assert(bits == pattern_at(n as nat, d as nat, e as int));
        law_ratio_is_unique(bits, bits, n as nat, d as nat);
    }
    bits
}

/// `n` rounded to 24 significant bits, ties to even: the integer that `n`
/// becomes in single precision.
pub open spec fn round24(n: nat) -> nat {
    if n < 0x100_0000 {
        n
    } else if n < 0x200_0000 {
        2 * round_div(n, 2)
    } else if n < 0x400_0000 {
        4 * round_div(n, 4)
    } else if n < 0x800_0000 {
        8 * round_div(n, 8)
    } else if n < 0x1000_0000 {
        16 * round_div(n, 16)
    } else if n < 0x2000_0000 {
        32 * round_div(n, 32)
    } else if n < 0x4000_0000 {
        64 * round_div(n, 64)
    } else if n < 0x8000_0000 {
        128 * round_div(n, 128)
    } else {
        256 * round_div(n, 256)
    }
}

/// Rounding to 24 bits keeps a number positive and within 32 bits.
pub proof fn lemma_round24(n: nat)
    requires
        0 < n <= u32::MAX,
    ensures
        0 < round24(n) <= 0x1_0000_0000,
{
}

fn round24_exec(n: u32) -> (r: u64)
    ensures
        r == round24(n as nat),
        r <= 0x1_0000_0000,
        n > 0 ==> r > 0,
{
    let unit: u64 = if n < 0x100_0000 {
        1
    } else if n < 0x200_0000 {
        2
    } else if n < 0x400_0000 {
        4
    } else if n < 0x800_0000 {
        8
    } else if n < 0x1000_0000 {
        16
    } else if n < 0x2000_0000 {
        32
    } else if n < 0x4000_0000 {
        64
    } else if n < 0x8000_0000 {
        128
    } else {
        256
    };
    unit * round_div_exec(n as u64, unit)
}

/// The quotient of two integers that are each first brought to single
/// precision.
pub open spec fn quotient_bits(n: nat, d: nat) -> u32 {
    ratio_bits(round24(n), round24(d))
}

/// `n / d` with both operands and the result in single precision.
pub fn quotient(n: u32, d: u32) -> (bits: u32)
    requires
        0 < d,
    ensures
        bits == quotient_bits(n as nat, d as nat),
        is_ratio(bits, round24(n as nat), round24(d as nat)),
{
    ratio(round24_exec(n), round24_exec(d))
}

/// Whether the number with pattern `bits` is below one. Not-a-number is not.
pub open spec fn below_one(bits: u32) -> bool {
    if bits < SIGN {
        bits < ONE
    } else {
        bits <= SIGN + INFINITY
    }
}

pub fn is_below_one(bits: u32) -> (r: bool)
    ensures
        r == below_one(bits),
{
    if bits < SIGN {
        bits < ONE
    } else {
        bits - SIGN <= INFINITY
    }
}

/// The quotient of two integers that are exact in single precision is the
/// number nearest to it.
pub proof fn law_quotient_is_nearest(n: u32, d: u32, bits: u32)
    requires
        call_ensures(quotient, (n, d), bits),
        n < 0x100_0000,
        0 < d < 0x100_0000,
    ensures
        n == 0 ==> bits == 0,
        n > 0 ==> is_nearest(bits, n as nat, d as nat),
{
    if n > 0 {
        law_ratio_is_nearest(bits, n as nat, d as nat);
    }
}

/// A larger integer is first brought to the nearest multiple of the last place
/// that 24 bits leave it.
pub proof fn law_large_integers_lose_their_last_places(n: nat)
    requires
        n <= u32::MAX,
    ensures
        n < 0x100_0000 ==> round24(n) == n,
        0x100_0000 <= n < 0x200_0000 ==> round24(n) % 2 == 0 && -1 <= round24(n) - n <= 1,
        0x200_0000 <= n < 0x400_0000 ==> round24(n) % 4 == 0 && -2 <= round24(n) - n <= 2,
        0x400_0000 <= n < 0x800_0000 ==> round24(n) % 8 == 0 && -4 <= round24(n) - n <= 4,
        0x800_0000 <= n < 0x1000_0000 ==> round24(n) % 16 == 0 && -8 <= round24(n) - n <= 8,
        0x1000_0000 <= n < 0x2000_0000 ==> round24(n) % 32 == 0 && -16 <= round24(n) - n <= 16,
        0x2000_0000 <= n < 0x4000_0000 ==> round24(n) % 64 == 0 && -32 <= round24(n) - n <= 32,
        0x4000_0000 <= n < 0x8000_0000 ==> round24(n) % 128 == 0 && -64 <= round24(n) - n <= 64,
        0x8000_0000 <= n ==> round24(n) % 256 == 0 && -128 <= round24(n) - n <= 128,
{
}

/// A number is below one when it is negative, the infinite one too, or positive
/// and smaller than one; not-a-number is not.
pub proof fn law_below_one(bits: u32, r: bool)
    requires
        call_ensures(is_below_one, (bits,), r),
    ensures
        r <==> bits < 0x3f80_0000 || 0x8000_0000 <= bits <= 0xff80_0000,
{
}

/// Different small integers have different quotients by the same small
/// integer.
pub proof fn law_small_quotients_differ(a: nat, b: nat, d: nat)
    requires
        a <= 255,
        b <= 255,
        0 < d <= 255,
        ratio_bits(a, d) == ratio_bits(b, d),
    ensures
        a == b,
{
    law_ratio_exists(a, d);
    law_ratio_exists(b, d);
    if a > 0 {
        law_ratio_is_nearest(ratio_bits(a, d), a, d);
    }
    if b > 0 {
        law_ratio_is_nearest(ratio_bits(b, d), b, d);
    }
    if a < b {
        lemma_small_quotients_differ(a, b, d);
    } else if b < a {
        lemma_small_quotients_differ(b, a, d);
    }
}

/// A larger integer has another quotient.
proof fn lemma_small_quotients_differ(a: nat, b: nat, d: nat)
    requires
        a < b <= 255,
        0 < d <= 255,
        a == 0 ==> ratio_bits(a, d) == 0,
        a > 0 ==> is_nearest(ratio_bits(a, d), a, d),
        is_nearest(ratio_bits(b, d), b, d),
    ensures
        ratio_bits(a, d) != ratio_bits(b, d),
{
    let bits = ratio_bits(b, d);
    let m = (bits % 0x80_0000 + 0x80_0000) as int;
    let e = bits / 0x80_0000 - 150;
    if e >= 0 {
        let q = pow2(e as nat) as int;
        lemma_pow2_pos(e as nat);
        let unit = d * q;
        assert(unit >= 1) by (nonlinear_arith)
            requires
                unit == d * q,
                d >= 1,
                q >= 1,
        ;
        assert(m * unit >= 0x80_0000 * unit) by (nonlinear_arith)
            requires
                m >= 0x80_0000,
                unit >= 1,
        ;
        assert(m * (d * pow2(e as nat)) == m * unit);
    } else {
        let p = pow2((-e) as nat) as int;
        lemma_pow2_pos((-e) as nat);
        assert(m * d >= 0x80_0000 * d) by (nonlinear_arith)
            requires
                m >= 0x80_0000,
                d >= 1,
        ;
        if a == 0 {
            lemma2_to64();
            lemma2_to64_rest();
            lemma_pow2_strictly_increases(60, 150);
            assert(b * p >= p) by (nonlinear_arith)
                requires
                    b >= 1,
                    p >= 1,
            ;
            assert(bits == 0 ==> e == -150 && m == 0x80_0000);
        } else {
            assert(b * p >= a * p + p) by (nonlinear_arith)
                requires
                    b >= a + 1,
                    p >= 1,
            ;
            assert(a * p <= 255 * p) by (nonlinear_arith)
                requires
                    a <= 255,
                    p >= 1,
            ;
        }
    }
}

} // verus!
