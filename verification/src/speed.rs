//! The step interval a speed command sets.
//!
//! A `Speed` packet carries a single-precision multiplier as four raw bytes.
//! The desired step interval is `tick_skip / (base_rate * multiplier)`
//! seconds, at the fixed base rate of 120 ticks per second. The computation
//! here is exact integer arithmetic on the multiplier's bit pattern: the
//! interval in whole nanoseconds, rounded down, saturated at `u64::MAX`.
//!
//! Multipliers that are not positive, finite and normal set no interval: a
//! zero, negative, subnormal, infinite or not-a-number multiplier is ignored,
//! rather than crashing the loop or setting a nonsensical cadence.

use vstd::prelude::*;
use vstd::arithmetic::power2::{
    lemma2_to64, lemma2_to64_rest, lemma_pow2_adds, lemma_pow2_pos, lemma_pow2_strictly_increases,
    pow2,
};
use vstd::arithmetic::div_mod::{
    lemma_basic_div, lemma_div_is_ordered, lemma_div_multiples_vanish,
    lemma_div_multiples_vanish_quotient,
};

verus! {

/// The simulator's base tick rate, in ticks per second.
pub const BASE_TICK_RATE: u32 = 120;

/// Nanoseconds per second.
pub const NANOS_PER_SEC: u64 = 1_000_000_000;

/// Whether a multiplier's bit pattern is a positive, finite, normal
/// single-precision value: sign bit clear, biased exponent neither zero nor
/// all ones.
pub open spec fn spec_speed_valid(bits: u32) -> bool {
    bits < 0x8000_0000 && 1 <= (bits >> 23u32) && (bits >> 23u32) < 255
}

/// The exact interval in nanoseconds, as an unbounded integer, rounded down:
/// `tick_skip * 10^9 / (120 * speed)` where the multiplier is
/// `(2^23 + mantissa) * 2^(exponent - 150)`.
pub open spec fn spec_exact_interval_nanos(tick_skip: u32, bits: u32) -> int {
    let e = (bits >> 23u32) as int;
    let f = ((bits & 0x007F_FFFF) + 0x0080_0000) as int;
    (tick_skip * NANOS_PER_SEC * pow2(149)) / (BASE_TICK_RATE * f * pow2((e - 1) as nat))
}

/// The interval a valid speed command sets: the exact value, saturated at
/// `u64::MAX`.
pub open spec fn spec_interval_nanos(tick_skip: u32, bits: u32) -> u64 {
    if spec_exact_interval_nanos(tick_skip, bits) > u64::MAX {
        u64::MAX
    } else {
        spec_exact_interval_nanos(tick_skip, bits) as u64
    }
}

/// A doubled speed at eight ticks per step and the base rate of 120 sets
/// the step interval to `8 / (120 * 2)` seconds: 33,333,333 whole
/// nanoseconds.
pub proof fn lemma_double_speed_interval()
    ensures
        spec_speed_valid(0x4000_0000),
        spec_interval_nanos(8, 0x4000_0000) == 33_333_333,
{
    assert(0x4000_0000u32 >> 23u32 == 128u32) by (bit_vector);
    assert((0x4000_0000u32 & 0x007F_FFFFu32) == 0u32) by (bit_vector);
    lemma_pow2_pos(127);
    lemma_pow2_adds(22, 127);
    lemma2_to64();
    let a = 8 * NANOS_PER_SEC * pow2(22);
    let d = 120 * 0x0080_0000;
    lemma_div_multiples_vanish_quotient(pow2(127) as int, a as int, d as int);
    assert(pow2(127) * a == 8 * NANOS_PER_SEC * pow2(149)) by (nonlinear_arith)
        requires
            a == 8 * NANOS_PER_SEC * pow2(22),
            pow2(22) * pow2(127) == pow2(149),
    ;
    assert(pow2(127) * d == BASE_TICK_RATE * 0x0080_0000 * pow2(127)) by (nonlinear_arith)
        requires
            d == 120 * 0x0080_0000,
            BASE_TICK_RATE == 120,
    ;
    assert(a == 33_554_432_000_000_000) by {
        assert(pow2(22) == 0x400000);
    }
    assert(a as int / d as int == 33_333_333);
}

/// A unit speed multiplier sets the base cadence: `tick_skip / 120` seconds,
/// which is the interval a fresh session starts with.
pub proof fn lemma_unit_speed_interval(tick_skip: u32)
    ensures
        spec_speed_valid(0x3F80_0000),
        spec_interval_nanos(tick_skip, 0x3F80_0000) == tick_skip * NANOS_PER_SEC as int
            / BASE_TICK_RATE as int,
{
    assert(0x3F80_0000u32 >> 23u32 == 127u32) by (bit_vector);
    assert((0x3F80_0000u32 & 0x007F_FFFFu32) == 0u32) by (bit_vector);
    lemma_pow2_pos(126);
    lemma_pow2_pos(23);
    lemma_pow2_adds(23, 126);
    lemma2_to64();
    lemma2_to64_rest();
    let a = tick_skip * NANOS_PER_SEC;
    lemma_div_multiples_vanish_quotient(
        pow2(126) as int,
        (a * pow2(23)) as int,
        (120 * 0x0080_0000) as int,
    );
    assert(pow2(126) * (a * pow2(23)) == a * pow2(149)) by (nonlinear_arith)
        requires
            pow2(23) * pow2(126) == pow2(149),
    ;
    assert(pow2(126) * (120 * 0x0080_0000) == BASE_TICK_RATE * 0x0080_0000 * pow2(126))
        by (nonlinear_arith)
        requires
            BASE_TICK_RATE == 120,
    ;
    lemma_div_multiples_vanish_quotient(pow2(23) as int, a as int, 120);
    assert(pow2(23) * a == a * pow2(23)) by (nonlinear_arith);
    assert(pow2(23) * 120 == 120 * 0x0080_0000) by (nonlinear_arith)
        requires
            pow2(23) == 0x0080_0000,
    ;
    assert(a / 120 <= a) by {
        vstd::arithmetic::div_mod::lemma_div_nonincreasing(a as int, 120);
    }
    assert(a < 0x8000_0000_0000_0000) by (nonlinear_arith)
        requires
            a == tick_skip * NANOS_PER_SEC,
            0 <= tick_skip < 0x1_0000_0000,
            NANOS_PER_SEC == 1_000_000_000,
    ;
}

/// A quotient of nonnegative values is at least `k` when the numerator is at
/// least `k` denominators.
proof fn lemma_div_at_least(x: int, y: int, k: int)
    requires
        y > 0,
        k >= 0,
        x >= k * y,
    ensures
        x / y >= k,
{
    lemma_div_multiples_vanish(k, y);
    assert(y * k == k * y) by (nonlinear_arith);
    lemma_div_is_ordered(k * y, x, y);
}

/// `2^k` as a 128-bit value.
fn pow2_u128(k: u32) -> (r: u128)
    requires
        k <= 126,
    ensures
        r == pow2(k as nat),
{
    let mut r: u128 = 1;
    let mut i: u32 = 0;
    proof {
        lemma2_to64();
    }
    while i < k
        invariant
            i <= k <= 126,
            r == pow2(i as nat),
        decreases k - i,
    {
        proof {
            lemma2_to64();
            lemma2_to64_rest();
            lemma_pow2_adds(i as nat, 1);
            lemma_pow2_strictly_increases(i as nat, 126);
            lemma_pow2_adds(126, 1);
            lemma_pow2_strictly_increases(127, 128);
            lemma_pow2_adds(64, 64);
        }
        r = r * 2;
        i = i + 1;
    }
    r
}

/// Compute the interval a valid speed multiplier sets, in nanoseconds.
///
/// The exponent cases split at 84 (the multiplier is so small that the
/// interval overflows 64 bits), at 150 (the scale factor widens the
/// numerator) and above it (the scale factor widens the denominator).
pub fn interval_nanos_from_speed(tick_skip: u32, bits: u32) -> (r: u64)
    requires
        spec_speed_valid(bits),
    ensures
        r == spec_interval_nanos(tick_skip, bits),
{
    let e: u32 = bits >> 23u32;
    let m: u32 = bits & 0x007F_FFFF;
    proof {
        assert((bits & 0x007F_FFFF) <= 0x007F_FFFF) by (bit_vector);
    }
    let f: u32 = m + 0x0080_0000;
    let ghost ge = e as int;
    let ghost gf = f as int;
    let ghost num = tick_skip * NANOS_PER_SEC * pow2(149);
    let ghost den = BASE_TICK_RATE * gf * pow2((ge - 1) as nat);
    proof {
        lemma_pow2_pos((ge - 1) as nat);
        lemma_pow2_pos(149);
        assert(den > 0 && num >= 0) by (nonlinear_arith)
            requires
                den == BASE_TICK_RATE * gf * pow2((ge - 1) as nat),
                num == tick_skip * NANOS_PER_SEC * pow2(149),
                gf > 0,
                tick_skip >= 0,
                pow2((ge - 1) as nat) > 0,
                pow2(149) > 0,
        ;
    }
    if tick_skip == 0 {
        proof {
            assert(num == 0) by (nonlinear_arith)
                requires
                    num == tick_skip * NANOS_PER_SEC * pow2(149),
                    tick_skip == 0,
            ;
            lemma_basic_div(0, den);
        }
        return 0;
    }
    if e <= 84 {
        proof {
            lemma2_to64();
            lemma2_to64_rest();
            lemma_pow2_pos(83);
            if ge - 1 < 83 {
                lemma_pow2_strictly_increases((ge - 1) as nat, 83);
            }
            lemma_pow2_adds(7, 24);
            lemma_pow2_adds(31, 83);
            lemma_pow2_adds(64, 114);
            lemma_pow2_adds(29, 149);
            assert(den < pow2(114)) by (nonlinear_arith)
                requires
                    den == BASE_TICK_RATE * gf * pow2((ge - 1) as nat),
                    BASE_TICK_RATE == 120,
                    0 < gf < 0x0100_0000,
                    120 * 0x0100_0000 <= pow2(31),
                    0 < pow2((ge - 1) as nat) <= pow2(83),
                    pow2(114) == pow2(31) * pow2(83),
            ;
            assert((u64::MAX + 1) * den < pow2(178)) by (nonlinear_arith)
                requires
                    0 < den < pow2(114),
                    u64::MAX + 1 == pow2(64),
                    pow2(178) == pow2(64) * pow2(114),
            ;
            assert(num >= pow2(178)) by (nonlinear_arith)
                requires
                    num == tick_skip * NANOS_PER_SEC * pow2(149),
                    tick_skip >= 1,
                    NANOS_PER_SEC >= pow2(29),
                    pow2(178) == pow2(29) * pow2(149),
                    pow2(149) > 0,
            ;
            lemma_div_at_least(num, den, u64::MAX + 1);
        }
        return u64::MAX;
    }
    if e <= 150 {
        let shift: u32 = 150 - e;
        let p = pow2_u128(shift);
        let a: u128 = (tick_skip as u128) * (NANOS_PER_SEC as u128);
        proof {
            lemma2_to64();
            lemma2_to64_rest();
            lemma_pow2_pos(shift as nat);
            lemma_pow2_strictly_increases(shift as nat, 66);
            lemma_pow2_adds(62, 66);
            lemma_pow2_adds(64, 64);
            assert(a * pow2(shift as nat) < pow2(128)) by (nonlinear_arith)
                requires
                    a == tick_skip * NANOS_PER_SEC,
                    0 <= tick_skip < 0x1_0000_0000,
                    NANOS_PER_SEC == 1_000_000_000,
                    pow2(62) == 0x4000_0000_0000_0000,
                    0 < pow2(shift as nat) <= pow2(66),
                    pow2(128) == pow2(62) * pow2(66),
            ;
        }
        let n: u128 = a * p;
        let d: u128 = 120u128 * (f as u128);
        let q: u128 = n / d;
        proof {
            lemma_pow2_adds((ge - 1) as nat, shift as nat);
            lemma_div_multiples_vanish_quotient(
                pow2((ge - 1) as nat) as int,
                n as int,
                d as int,
            );
            assert(pow2((ge - 1) as nat) * (n as int) == num) by (nonlinear_arith)
                requires
                    n == a * pow2(shift as nat),
                    a == tick_skip * NANOS_PER_SEC,
                    num == tick_skip * NANOS_PER_SEC * pow2(149),
                    pow2((ge - 1) as nat) * pow2(shift as nat) == pow2(149),
            ;
            assert(pow2((ge - 1) as nat) * (d as int) == den) by (nonlinear_arith)
                requires
                    d == 120 * gf,
                    den == BASE_TICK_RATE * gf * pow2((ge - 1) as nat),
                    BASE_TICK_RATE == 120,
            ;
            assert(q == num / den);
        }
        if q > u64::MAX as u128 {
            return u64::MAX;
        }
        return q as u64;
    }
    // e is 151 ..= 254: the multiplier is at least two
    let shift: u32 = e - 150;
    if shift >= 66 {
        proof {
            lemma2_to64();
            lemma2_to64_rest();
            lemma_pow2_pos(66);
            lemma_pow2_pos((ge - 150) as nat);
            if 66 < ge - 150 {
                lemma_pow2_strictly_increases(66, (ge - 150) as nat);
            }
            lemma_pow2_strictly_increases(62, 66);
            lemma_pow2_adds(149, (ge - 150) as nat);
            let small = tick_skip * NANOS_PER_SEC;
            let wide = BASE_TICK_RATE * gf * pow2((ge - 150) as nat);
            assert(0 <= small < pow2(62)) by (nonlinear_arith)
                requires
                    small == tick_skip * NANOS_PER_SEC,
                    0 <= tick_skip < 0x1_0000_0000,
                    NANOS_PER_SEC == 1_000_000_000,
                    pow2(62) == 0x4000_0000_0000_0000,
            ;
            assert(wide >= pow2(66)) by (nonlinear_arith)
                requires
                    wide == BASE_TICK_RATE * gf * pow2((ge - 150) as nat),
                    BASE_TICK_RATE == 120,
                    gf >= 1,
                    pow2((ge - 150) as nat) >= pow2(66),
                    pow2(66) > 0,
            ;
            assert(pow2(149) * small == num) by (nonlinear_arith)
                requires
                    small == tick_skip * NANOS_PER_SEC,
                    num == tick_skip * NANOS_PER_SEC * pow2(149),
            ;
            assert(pow2(149) * wide == den) by (nonlinear_arith)
                requires
                    wide == BASE_TICK_RATE * gf * pow2((ge - 150) as nat),
                    den == BASE_TICK_RATE * gf * pow2((ge - 1) as nat),
                    pow2(149) * pow2((ge - 150) as nat) == pow2((ge - 1) as nat),
            ;
            lemma_div_multiples_vanish_quotient(pow2(149) as int, small, wide);
            lemma_basic_div(small, wide);
        }
        return 0;
    }
    let p = pow2_u128(shift);
    let a: u128 = (tick_skip as u128) * (NANOS_PER_SEC as u128);
    proof {
        lemma2_to64();
        lemma2_to64_rest();
        lemma_pow2_pos(shift as nat);
        lemma_pow2_strictly_increases(shift as nat, 66);
        lemma_pow2_strictly_increases(97, 128);
        lemma_pow2_adds(31, 66);
        lemma_pow2_adds(64, 64);
        assert((120 * gf) * pow2(shift as nat) < pow2(128)) by (nonlinear_arith)
            requires
                0 < gf < 0x0100_0000,
                0 < pow2(shift as nat) <= pow2(66),
                pow2(97) == pow2(31) * pow2(66),
                120 * 0x0100_0000 <= pow2(31),
                pow2(97) < pow2(128),
        ;
    }
    let d: u128 = (120u128 * (f as u128)) * p;
    proof {
        assert(d > 0) by (nonlinear_arith)
            requires
                d == (120 * gf) * pow2(shift as nat),
                gf > 0,
                pow2(shift as nat) > 0,
        ;
    }
    let q: u128 = a / d;
    proof {
        lemma_pow2_adds(149, shift as nat);
        lemma_div_multiples_vanish_quotient(pow2(149) as int, a as int, d as int);
        assert(pow2(149) * (a as int) == num) by (nonlinear_arith)
            requires
                a == tick_skip * NANOS_PER_SEC,
                num == tick_skip * NANOS_PER_SEC * pow2(149),
        ;
        assert(pow2(149) * (d as int) == den) by (nonlinear_arith)
            requires
                d == (120 * gf) * pow2(shift as nat),
                den == BASE_TICK_RATE * gf * pow2((ge - 1) as nat),
                BASE_TICK_RATE == 120,
                pow2(149) * pow2(shift as nat) == pow2((ge - 1) as nat),
        ;
        assert(q == num / den);
    }
    if q > u64::MAX as u128 {
        return u64::MAX;
    }
    q as u64
}

} // verus!
