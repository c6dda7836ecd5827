//! Elapsed time as a log line shows it.
//!
//! A line shows the seconds since the logger started, to five decimal
//! places. The number shown is the one that double-precision arithmetic
//! gives: the nanoseconds are taken as a double, multiplied by the double
//! nearest to 10⁻⁹, and the product is rounded to five places. Here that
//! arithmetic is carried out on whole numbers, in units of 2⁻⁸² second, so
//! that every step is exact and the rounding of each step is stated.

use vstd::arithmetic::div_mod::{
    lemma_div_by_multiple,
    lemma_div_denominator,
    lemma_div_is_ordered,
    lemma_div_multiples_vanish_quotient,
    lemma_fundamental_div_mod,
    lemma_truncate_middle,
};
use vstd::arithmetic::power2::{
    lemma2_to64,
    lemma_pow2_adds,
    lemma_pow2_strictly_increases,
    lemma_pow2_unfold,
    pow2,
};
use vstd::prelude::*;

verus! {

/// Two to the power of 53: a double keeps 53 significant bits.
pub const MANTISSA_LIMIT: u128 = 0x20_0000_0000_0000;

/// The double nearest to 10⁻⁹, in units of 2⁻⁸² second.
pub const NANOSECOND: u128 = 4_835_703_278_458_517;

/// Two to the power of 82: one second, in units of 2⁻⁸² second.
pub const UNITS_PER_SECOND: u128 = 0x4_0000_0000_0000_0000_0000;

/// A tick is the last decimal place shown: 10⁻⁵ second.
pub const TICKS_PER_SECOND: u128 = 100_000;

/// `n / d` rounded to the nearest whole number, a half to the even one.
pub open spec fn round_half_even(n: nat, d: nat) -> nat
    recommends
        d > 0,
{
    let q = n / d;
    let r = n % d;
    if 2 * r > d || (2 * r == d && q % 2 == 1) {
        q + 1
    } else {
        q
    }
}

/// How many of the low bits of `n` a double has no room for.
pub open spec fn spare_bits(n: nat) -> nat
    decreases n,
{
    if n < MANTISSA_LIMIT {
        0
    } else {
        1 + spare_bits(n / 2)
    }
}

/// The weight of the last bit that a double keeps of `n`.
pub open spec fn ulp(n: nat) -> nat {
    pow2(spare_bits(n))
}

/// The whole number `n` as a double holds it: rounded to 53 significant
/// bits, a half to the even mantissa.
pub open spec fn to_double(n: nat) -> nat {
    round_half_even(n, ulp(n)) * ulp(n)
}

/// The seconds in `elapsed_ns` nanoseconds as double arithmetic has them,
/// in units of 2⁻⁸² second.
pub open spec fn seconds(elapsed_ns: u64) -> nat {
    to_double((to_double(elapsed_ns as nat) * NANOSECOND) as nat)
}

/// The ticks shown for `elapsed_ns` nanoseconds.
pub open spec fn ticks(elapsed_ns: u64) -> nat {
    round_half_even((seconds(elapsed_ns) * TICKS_PER_SECOND) as nat, UNITS_PER_SECOND as nat)
}

proof fn lemma_round_bounds(n: nat, d: nat)
    requires
        d > 0,
    ensures
        n / d <= round_half_even(n, d) <= n / d + 1,
        (n / d) * d <= n < (n / d) * d + d,
        n % d == n - (n / d) * d,
{
    lemma_fundamental_div_mod(n as int, d as int);
    assert(d * (n / d) == (n / d) * d) by (nonlinear_arith);
}

/// Rounding keeps the order of what it rounds.
pub proof fn lemma_round_monotonic(a: nat, b: nat, d: nat)
    requires
        a <= b,
        d > 0,
    ensures
        round_half_even(a, d) <= round_half_even(b, d),
{
    lemma_round_bounds(a, d);
    lemma_round_bounds(b, d);
    lemma_div_is_ordered(a as int, b as int, d as int);
}

/// A fraction rounds as it does after both of its terms are multiplied by
/// the same number.
proof fn lemma_round_scale(a: nat, d: nat, c: nat)
    requires
        d > 0,
        c > 0,
    ensures
        round_half_even(a * c, d * c) == round_half_even(a, d),
{
    lemma_div_multiples_vanish_quotient(c as int, a as int, d as int);
    lemma_truncate_middle(a as int, c as int, d as int);
    assert(a * c == c * a && d * c == c * d) by (nonlinear_arith);
    let r = a % d;
    assert((2 * (c * r) > d * c) == (2 * r > d)) by (nonlinear_arith)
        requires
            c > 0,
    ;
    assert((2 * (c * r) == d * c) == (2 * r == d)) by (nonlinear_arith)
        requires
            c > 0,
    ;
}

/// A number lies below 2⁵³ ulps of its own, and, where it is rounded at
/// all, at or above 2⁵² of them.
proof fn lemma_ulp_bounds(n: nat)
    ensures
        ulp(n) > 0,
        n < MANTISSA_LIMIT * ulp(n),
        spare_bits(n) > 0 ==> n >= (MANTISSA_LIMIT / 2) * ulp(n),
    decreases n,
{
    lemma2_to64();
    if n >= MANTISSA_LIMIT {
        lemma_ulp_bounds(n / 2);
        lemma_pow2_unfold(spare_bits(n));
        let p = ulp(n / 2);
        assert((MANTISSA_LIMIT / 2) * (2 * p) == 2 * ((MANTISSA_LIMIT / 2) * p))
            by (nonlinear_arith);
    }
}

proof fn lemma_spare_bits_monotonic(a: nat, b: nat)
    requires
        a <= b,
    ensures
        spare_bits(a) <= spare_bits(b),
    decreases b,
{
    if a >= MANTISSA_LIMIT {
        lemma_spare_bits_monotonic(a / 2, b / 2);
    }
}

/// Taking whole numbers as doubles keeps their order.
pub proof fn lemma_to_double_monotonic(a: nat, b: nat)
    requires
        a <= b,
    ensures
        to_double(a) <= to_double(b),
{
    lemma_spare_bits_monotonic(a, b);
    lemma_ulp_bounds(a);
    lemma_ulp_bounds(b);
    let ua = ulp(a);
    let ub = ulp(b);
    lemma_round_bounds(a, ua);
    lemma_round_bounds(b, ub);
    if spare_bits(a) == spare_bits(b) {
        lemma_round_monotonic(a, b, ua);
        assert(round_half_even(a, ua) * ua <= round_half_even(b, ua) * ua) by (nonlinear_arith)
            requires
                round_half_even(a, ua) <= round_half_even(b, ua),
        ;
    } else {
        // `a` rounds to 2⁵³ of its ulps at most, `b` to 2⁵² of its own at
        // least, and an ulp of `b` is two of `a` or more.
        lemma_pow2_unfold(spare_bits(a) + 1);
        if spare_bits(a) + 1 < spare_bits(b) {
            lemma_pow2_strictly_increases(spare_bits(a) + 1, spare_bits(b));
        }
        let qa = a / ua;
        let qb = b / ub;
        assert(qa < MANTISSA_LIMIT) by (nonlinear_arith)
            requires
                qa * ua <= a,
                a < MANTISSA_LIMIT * ua,
                ua > 0,
        ;
        assert(qb >= MANTISSA_LIMIT / 2) by (nonlinear_arith)
            requires
                b < qb * ub + ub,
                b >= (MANTISSA_LIMIT / 2) * ub,
                ub > 0,
        ;
        assert(round_half_even(a, ua) * ua <= MANTISSA_LIMIT * ua) by (nonlinear_arith)
            requires
                round_half_even(a, ua) <= qa + 1,
                qa < MANTISSA_LIMIT,
        ;
        assert(round_half_even(b, ub) * ub >= (MANTISSA_LIMIT / 2) * (2 * ua))
            by (nonlinear_arith)
            requires
                round_half_even(b, ub) >= qb,
                qb >= MANTISSA_LIMIT / 2,
                2 * ua <= ub,
        ;
    }
}

/// More nanoseconds never show as fewer ticks.
pub proof fn lemma_ticks_monotonic(earlier: u64, later: u64)
    requires
        earlier <= later,
    ensures
        ticks(earlier) <= ticks(later),
{
    let a = to_double(earlier as nat);
    let b = to_double(later as nat);
    lemma_to_double_monotonic(earlier as nat, later as nat);
    assert(a * NANOSECOND <= b * NANOSECOND) by (nonlinear_arith)
        requires
            a <= b,
    ;
    lemma_to_double_monotonic((a * NANOSECOND) as nat, (b * NANOSECOND) as nat);
    assert(seconds(earlier) * TICKS_PER_SECOND <= seconds(later) * TICKS_PER_SECOND)
        by (nonlinear_arith)
        requires
            seconds(earlier) <= seconds(later),
    ;
    lemma_round_monotonic(
        (seconds(earlier) * TICKS_PER_SECOND) as nat,
        (seconds(later) * TICKS_PER_SECOND) as nat,
        UNITS_PER_SECOND as nat,
    );
}

fn rounded_quotient(n: u128, d: u128) -> (q: u128)
    requires
        d > 0,
        2 * d <= u128::MAX,
        n / d < u128::MAX,
    ensures
        q == round_half_even(n as nat, d as nat),
{
    let q = n / d;
    let r = n % d;
    if 2 * r > d || (2 * r == d && q % 2 == 1) {
        q + 1
    } else {
        q
    }
}

/// Rounds `n` to 53 significant bits: the mantissa, and the weight of its
/// last bit.
fn round_to_double(n: u128) -> (parts: (u128, u128))
    requires
        n < 0x100_0000_0000_0000_0000_0000_0000_0000,
    ensures
        parts.1 == ulp(n as nat),
        parts.0 == round_half_even(n as nat, ulp(n as nat)),
        parts.0 * parts.1 == to_double(n as nat),
        parts.0 <= MANTISSA_LIMIT,
        parts.0 * parts.1 <= 2 * n + 1,
{
    let mut m = n;
    let mut unit: u128 = 1;
    let ghost mut bits: nat = 0;
    proof {
        lemma2_to64();
    }
    while m >= MANTISSA_LIMIT
        invariant
            n < 0x100_0000_0000_0000_0000_0000_0000_0000,
            unit == pow2(bits),
            unit > 0,
            m == n / unit,
            unit * m <= n,
            unit == 1 || m >= MANTISSA_LIMIT / 2,
            spare_bits(n as nat) == bits + spare_bits(m as nat),
        decreases m,
    {
        proof {
            lemma_div_denominator(n as int, unit as int, 2);
            lemma_pow2_unfold(bits + 1);
            assert(unit * 2 <= n) by (nonlinear_arith)
                requires
                    unit * m <= n,
                    m >= 2,
                    unit > 0,
            ;
            lemma_round_bounds(n as nat, (unit * 2) as nat);
            let twice = (unit * 2) as nat;
            assert(twice * (m / 2) == (n as nat / twice) * twice) by (nonlinear_arith)
                requires
                    (m / 2) as nat == n as nat / twice,
            ;
            bits = bits + 1;
        }
        m = m / 2;
        unit = unit * 2;
    }
    proof {
        assert(unit <= n + 1) by (nonlinear_arith)
            requires
                unit * m <= n,
                unit > 0,
                m >= 1 || unit == 1,
        ;
    }
    let mantissa = rounded_quotient(n, unit);
    proof {
        assert(mantissa * unit <= m * unit + unit) by (nonlinear_arith)
            requires
                mantissa <= m + 1,
        ;
    }
    (mantissa, unit)
}

/// Computes the ticks that a line shows for `elapsed_ns` nanoseconds.
pub fn ticks_of(elapsed_ns: u64) -> (shown: u128)
    ensures
        shown == ticks(elapsed_ns),
{
    let (m1, u1) = round_to_double(elapsed_ns as u128);
    let double_ns = m1 * u1;
    assert(double_ns * NANOSECOND < 0x100_0000_0000_0000_0000_0000_0000_0000)
        by (nonlinear_arith)
        requires
            double_ns <= 2 * 0xffff_ffff_ffff_ffff + 1,
            NANOSECOND == 4_835_703_278_458_517,
    ;
    let product = double_ns * NANOSECOND;
    let (m2, u2) = round_to_double(product);
    proof {
        // The ulp of the product is a power of two below 2⁸², so it
        // divides a second.
        let bits = spare_bits(product as nat);
        lemma_ulp_bounds(product as nat);
        lemma2_to64();
        lemma_pow2_adds(64, 18);
        if bits > 82 {
            lemma_pow2_strictly_increases(82, bits);
            assert((MANTISSA_LIMIT / 2) * pow2(bits) > product) by (nonlinear_arith)
                requires
                    pow2(bits) > UNITS_PER_SECOND,
                    UNITS_PER_SECOND == 0x4_0000_0000_0000_0000_0000,
                    product < 0x100_0000_0000_0000_0000_0000_0000_0000,
                    MANTISSA_LIMIT == 0x20_0000_0000_0000,
            ;
        }
        lemma_pow2_adds(bits, (82 - bits) as nat);
        lemma_div_by_multiple(pow2((82 - bits) as nat) as int, u2 as int);
        assert(pow2(bits) * pow2((82 - bits) as nat) == pow2((82 - bits) as nat) * u2)
            by (nonlinear_arith)
            requires
                u2 == pow2(bits),
        ;
    }
    let rest = UNITS_PER_SECOND / u2;
    proof {
        assert(rest > 0) by (nonlinear_arith)
            requires
                rest * u2 == UNITS_PER_SECOND,
                UNITS_PER_SECOND > 0,
        ;
        assert(rest <= UNITS_PER_SECOND) by (nonlinear_arith)
            requires
                rest * u2 == UNITS_PER_SECOND,
                u2 >= 1,
        ;
        assert(m2 * TICKS_PER_SECOND <= MANTISSA_LIMIT * TICKS_PER_SECOND) by (nonlinear_arith)
            requires
                m2 <= MANTISSA_LIMIT,
        ;
        lemma_round_scale((m2 * TICKS_PER_SECOND) as nat, rest as nat, u2 as nat);
        assert((m2 * TICKS_PER_SECOND) * u2 == (m2 * u2) * TICKS_PER_SECOND) by (nonlinear_arith);
    }
    rounded_quotient(m2 * TICKS_PER_SECOND, rest)
}

} // verus!
