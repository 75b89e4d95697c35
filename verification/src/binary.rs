//! Binary numbers of 53 significant bits, rounded to nearest with ties to even.
//!
//! Sizes are shown as decimal fractions of a quotient that was rounded to double precision first.
//! This module states those roundings over the integers and computes them exactly. The numbers are
//! never negative and, for 64-bit operands, stay clear of the ends of the exponent range.

use vstd::prelude::*;

verus! {

/// Two to the power of 52: the least significand of a normal number.
pub const LOW: u128 = 4503599627370496;

/// Two to the power of 53.
pub const HIGH: u128 = 9007199254740992;

/// The number `mant * 2^exp`.
pub struct Binary {
    pub mant: nat,
    pub exp: int,
}

/// Two to the power of `k`.
pub open spec fn two_to(k: nat) -> nat
    decreases k,
{
    if k == 0 {
        1
    } else {
        2 * two_to((k - 1) as nat)
    }
}

/// `n / d` rounded to an integer, a tie to the even neighbour.
pub open spec fn round_even(n: nat, d: nat) -> nat {
    let q = n / d;
    let r = n % d;
    if 2 * r < d || (2 * r == d && q % 2 == 0) {
        q
    } else {
        q + 1
    }
}

/// `n / d` rounded to 53 significant bits: the fraction is scaled by two until its integer part has
/// 53 bits, and then rounded.
pub open spec fn nearest(n: nat, d: nat) -> Binary
    decreases
            if n < d * LOW {
                d * LOW - n
            } else if n >= d * HIGH {
                n - d * HIGH + 1
            } else {
                0
            },
{
    if n == 0 || d == 0 {
        Binary { mant: 0, exp: 0 }
    } else if n < d * LOW {
        let r = nearest(2 * n, d);
        Binary { mant: r.mant, exp: r.exp - 1 }
    } else if n >= d * HIGH {
        let r = nearest(n, 2 * d);
        Binary { mant: r.mant, exp: r.exp + 1 }
    } else {
        Binary { mant: round_even(n, d), exp: 0 }
    }
}

/// An integer as a double.
pub open spec fn of_int(n: nat) -> Binary {
    nearest(n, 1)
}

/// The quotient of two doubles.
pub open spec fn over(a: Binary, b: Binary) -> Binary {
    let r = nearest(a.mant, b.mant);
    Binary { mant: r.mant, exp: r.exp + a.exp - b.exp }
}

/// The product of a double and a small integer.
pub open spec fn times(a: Binary, k: nat) -> Binary {
    let r = nearest(a.mant * k, 1);
    Binary { mant: r.mant, exp: r.exp + a.exp }
}

/// The integer part.
pub open spec fn whole(a: Binary) -> nat {
    if a.exp >= 0 {
        a.mant * two_to(a.exp as nat)
    } else {
        a.mant / two_to((-a.exp) as nat)
    }
}

/// The number of tenths, rounded to nearest with ties to even.
pub open spec fn tenths(a: Binary) -> nat {
    if a.exp >= 0 {
        10 * a.mant * two_to(a.exp as nat)
    } else {
        round_even(10 * a.mant, two_to((-a.exp) as nat))
    }
}

/// The executable form of [`Binary`].
#[derive(Clone, Copy, Debug, PartialEq, Eq)]
pub struct Scaled {
    pub mant: u128,
    pub exp: i128,
}

impl View for Scaled {
    type V = Binary;

    open spec fn view(&self) -> Binary {
        Binary { mant: self.mant as nat, exp: self.exp as int }
    }
}

pub proof fn lemma_two_to_grows(a: nat, b: nat)
    requires
        a <= b,
    ensures
        0 < two_to(a) <= two_to(b),
    decreases b,
{
    if a < b {
        lemma_two_to_grows(a, (b - 1) as nat);
    } else if a > 0 {
        lemma_two_to_grows((a - 1) as nat, (a - 1) as nat);
    }
}

/// Rounding is exact on multiples and never moves a fraction by more than one half.
pub proof fn rounding_is_close(n: nat, d: nat)
    requires
        d > 0,
    ensures
        -(d as int) <= 2 * (round_even(n, d) * d - n) <= d,
        n % d == 0 ==> round_even(n, d) * d == n,
{
    let q = n / d;
    let r = n % d;
    vstd::arithmetic::div_mod::lemma_fundamental_div_mod(n as int, d as int);
    assert((q + 1) * d == q * d + d) by (nonlinear_arith);
    assert(q * d == d * q) by (nonlinear_arith);
}

proof fn lemma_round_range(n: nat, d: nat)
    requires
        d > 0,
        d * LOW <= n < d * HIGH,
    ensures
        LOW <= round_even(n, d) <= HIGH,
{
    let q = n / d;
    vstd::arithmetic::div_mod::lemma_fundamental_div_mod(n as int, d as int);
    assert(q >= LOW) by (nonlinear_arith)
        requires
            d * LOW <= n,
            n == d * q + n % d,
            0 <= n % d < d,
            d > 0,
    ;
    assert(q < HIGH) by (nonlinear_arith)
        requires
            n < d * HIGH,
            n == d * q + n % d,
            0 <= n % d < d,
            d > 0,
    ;
}

/// The significand of a non-zero number has 53 bits, or is the power of two just above.
pub proof fn significand_range(n: nat, d: nat)
    requires
        n > 0,
        d > 0,
    ensures
        LOW <= nearest(n, d).mant <= HIGH,
    decreases
            if n < d * LOW {
                d * LOW - n
            } else if n >= d * HIGH {
                n - d * HIGH + 1
            } else {
                0
            },
{
    if n < d * LOW {
        significand_range(2 * n, d);
    } else if n >= d * HIGH {
        significand_range(n, 2 * d);
    } else {
        lemma_round_range(n, d);
    }
}

/// The exponent of a quotient is at most `k` where the quotient is below two to the power of
/// `53 + k`.
pub proof fn exponent_at_most(n: nat, d: nat, k: nat)
    requires
        d > 0,
        n < d * HIGH * two_to(k),
    ensures
        nearest(n, d).exp <= k,
    decreases k,
{
    if n == 0 {
    } else if n < d * HIGH {
        exponent_of_small(n, d);
    } else {
        if k == 0 {
            assert(two_to(0) == 1);
            assert(d * HIGH * 1 == d * HIGH) by (nonlinear_arith);
        }
        let t = two_to((k - 1) as nat);
        assert(d * HIGH * (2 * t) == (2 * d) * HIGH * t) by (nonlinear_arith);
        exponent_at_most(n, 2 * d, (k - 1) as nat);
    }
}

proof fn exponent_of_small(n: nat, d: nat)
    requires
        d > 0,
        0 < n < d * HIGH,
    ensures
        nearest(n, d).exp <= 0,
    decreases
            if n < d * LOW {
                d * LOW - n
            } else {
                0
            },
{
    if n < d * LOW {
        exponent_of_small(2 * n, d);
    }
}

/// The exponent of a quotient is at least `-k` where the quotient is not below two to the power of
/// `52 - k`.
pub proof fn exponent_at_least(n: nat, d: nat, k: nat)
    requires
        d > 0,
        n > 0,
        n * two_to(k) >= d * LOW,
    ensures
        nearest(n, d).exp >= -(k as int),
    decreases k,
{
    if n < d * LOW {
        if k == 0 {
            assert(two_to(0) == 1);
            assert(n * 1 == n) by (nonlinear_arith);
        }
        let t = two_to((k - 1) as nat);
        assert(n * (2 * t) == (2 * n) * t) by (nonlinear_arith);
        exponent_at_least(2 * n, d, (k - 1) as nat);
    } else if n >= d * HIGH {
        exponent_of_large(n, d);
    }
}

proof fn exponent_of_large(n: nat, d: nat)
    requires
        d > 0,
        n >= d * LOW,
    ensures
        nearest(n, d).exp >= 0,
    decreases
            if n >= d * HIGH {
                n - d * HIGH + 1
            } else {
                0
            },
{
    if n >= d * HIGH {
        exponent_of_large(n, 2 * d);
    }
}

// ---------------------------------------------------------------------------
// Order

/// Whether a rounded number is no more than another: their exponents decide, and then their
/// significands.
pub open spec fn no_more(a: Binary, b: Binary) -> bool {
    a.mant == 0 || a.exp < b.exp || (a.exp == b.exp && a.mant <= b.mant)
}

/// Whether a number has been rounded to 53 bits and is not zero.
pub open spec fn is_rounded(a: Binary) -> bool {
    LOW <= a.mant <= HIGH
}

/// Rounding to an integer keeps the order.
proof fn lemma_round_keeps_order(n: nat, m: nat, d: nat)
    requires
        d > 0,
        n <= m,
    ensures
        round_even(n, d) <= round_even(m, d),
{
    vstd::arithmetic::div_mod::lemma_div_is_ordered(n as int, m as int, d as int);
    vstd::arithmetic::div_mod::lemma_fundamental_div_mod(n as int, d as int);
    vstd::arithmetic::div_mod::lemma_fundamental_div_mod(m as int, d as int);
    if n / d == m / d {
        assert(n % d <= m % d);
    }
}

/// Rounding to an integer does not depend on how a fraction is written.
proof fn lemma_round_doubled(n: nat, d: nat)
    requires
        d > 0,
    ensures
        round_even(2 * n, 2 * d) == round_even(n, d),
{
    let q = n / d;
    let r = n % d;
    vstd::arithmetic::div_mod::lemma_fundamental_div_mod(n as int, d as int);
    assert(2 * n == q * (2 * d) + 2 * r) by (nonlinear_arith)
        requires
            n == d * q + r,
    ;
    vstd::arithmetic::div_mod::lemma_fundamental_div_mod_converse(
        (2 * n) as int,
        (2 * d) as int,
        q as int,
        (2 * r) as int,
    );
}

/// Rounding keeps the order: a greater integer, over the same divisor, is not rounded to less.
pub proof fn rounding_keeps_order(n: nat, m: nat, d: nat)
    requires
        d > 0,
        n <= m,
    ensures
        no_more(nearest(n, d), nearest(m, d)),
    decreases
            if m < d * LOW {
                d * LOW - m
            } else if n >= d * HIGH {
                n - d * HIGH + 1
            } else {
                0
            },
{
    if n == 0 {
    } else if m < d * LOW {
        rounding_keeps_order(2 * n, 2 * m, d);
    } else if n >= d * HIGH {
        rounding_keeps_order(n, m, 2 * d);
    } else if n < d * LOW {
        exponent_of_small(2 * n, d);
        exponent_of_large(m, d);
    } else if m >= d * HIGH {
        exponent_of_large(m, 2 * d);
    } else {
        lemma_round_keeps_order(n, m, d);
    }
}

proof fn lemma_nearest_doubled_twice(n: nat, d: nat)
    requires
        n > 0,
        d > 0,
    ensures
        nearest(2 * n, 2 * d) == nearest(n, d),
    decreases
            if n < d * LOW {
                d * LOW - n
            } else if n >= d * HIGH {
                n - d * HIGH + 1
            } else {
                0
            },
{
    if n < d * LOW {
        lemma_nearest_doubled_twice(2 * n, d);
    } else if n >= d * HIGH {
        lemma_nearest_doubled_twice(n, 2 * d);
    } else {
        lemma_round_doubled(n, d);
    }
}

/// Twice a number has the same significand, and an exponent that is one more.
proof fn lemma_nearest_doubled(n: nat, d: nat)
    requires
        n > 0,
        d > 0,
    ensures
        nearest(2 * n, d) == (Binary { mant: nearest(n, d).mant, exp: nearest(n, d).exp + 1 }),
{
    if n >= d * LOW {
        lemma_nearest_doubled_twice(n, d);
    }
}

/// Dividing by the same number keeps the order.
pub proof fn division_keeps_order(a: Binary, b: Binary, c: Binary)
    requires
        is_rounded(a),
        is_rounded(b),
        is_rounded(c),
        no_more(a, b),
    ensures
        no_more(over(a, c), over(b, c)),
        is_rounded(over(a, c)),
        is_rounded(over(b, c)),
{
    significand_range(a.mant, c.mant);
    significand_range(b.mant, c.mant);
    if a.exp < b.exp {
        rounding_keeps_order(a.mant, 2 * b.mant, c.mant);
        lemma_nearest_doubled(b.mant, c.mant);
    } else {
        rounding_keeps_order(a.mant, b.mant, c.mant);
    }
}

proof fn lemma_tenths_at_exponent(m: nat, n: nat, exp: int)
    requires
        m <= n,
    ensures
        tenths(Binary { mant: m, exp }) <= tenths(Binary { mant: n, exp }),
{
    if exp >= 0 {
        let t = two_to(exp as nat);
        assert(10 * m * t <= 10 * n * t) by (nonlinear_arith)
            requires
                m <= n,
        ;
    } else {
        lemma_two_to_grows(0, (-exp) as nat);
        lemma_round_keeps_order(10 * m, 10 * n, two_to((-exp) as nat));
    }
}

proof fn lemma_tenths_doubled(m: nat, exp: int)
    ensures
        tenths(Binary { mant: 2 * m, exp }) == tenths(Binary { mant: m, exp: exp + 1 }),
{
    if exp >= 0 {
        let t = two_to(exp as nat);
        assert(two_to((exp + 1) as nat) == 2 * t);
        assert(10 * (2 * m) * t == 10 * m * (2 * t)) by (nonlinear_arith);
    } else {
        let t = two_to((-exp - 1) as nat);
        lemma_two_to_grows(0, (-exp - 1) as nat);
        assert(two_to((-exp) as nat) == 2 * t);
        lemma_round_doubled(10 * m, t);
        assert(round_even(10 * (2 * m), 2 * t) == round_even(10 * m, t));
        if exp == -1 {
            assert(t == 1);
            rounding_is_close(10 * m, 1);
            assert(10 * m * t == 10 * m);
        } else {
            assert((-(exp + 1)) as nat == (-exp - 1) as nat);
        }
    }
}

/// A rounded number that is no more than another does not have more tenths.
pub proof fn tenths_keep_order(a: Binary, b: Binary)
    requires
        is_rounded(a),
        is_rounded(b),
        no_more(a, b),
    ensures
        tenths(a) <= tenths(b),
    decreases b.exp - a.exp,
{
    if a.exp == b.exp {
        lemma_tenths_at_exponent(a.mant, b.mant, a.exp);
    } else {
        let next = Binary { mant: LOW as nat, exp: a.exp + 1 };
        lemma_tenths_at_exponent(a.mant, HIGH as nat, a.exp);
        lemma_tenths_doubled(LOW as nat, a.exp);
        tenths_keep_order(next, b);
    }
}

/// Two to the power of `k`.
pub fn power_of_two(k: u32) -> (r: u128)
    requires
        k <= 120,
    ensures
        r == two_to(k as nat),
        0 < r <= 0x100_0000_0000_0000_0000_0000_0000_0000,
{
    let mut r: u128 = 1;
    proof {
        lemma_two_to_grows(0, k as nat);
        lemma_two_to_grows(k as nat, 120);
        powers_of_two();
    }
    for i in 0..k
        invariant
            k <= 120,
            r == two_to(i as nat),
            two_to(120) == 0x100_0000_0000_0000_0000_0000_0000_0000,
    {
        proof {
            lemma_two_to_grows((i + 1) as nat, 120);
        }
        r = 2 * r;
    }
    r
}

proof fn lemma_two_to_adds(a: nat, b: nat)
    ensures
        two_to(a + b) == two_to(a) * two_to(b),
    decreases b,
{
    if b == 0 {
        assert(two_to(a) * 1 == two_to(a)) by (nonlinear_arith);
    } else {
        lemma_two_to_adds(a, (b - 1) as nat);
        let x = two_to(a);
        let y = two_to((b - 1) as nat);
        assert(x * (2 * y) == 2 * (x * y)) by (nonlinear_arith);
    }
}

/// The powers of two that the bounds of this module speak of.
pub proof fn powers_of_two()
    ensures
        two_to(11) == 0x800,
        two_to(52) == LOW,
        two_to(53) == HIGH,
        two_to(64) == 0x1_0000_0000_0000_0000,
        two_to(120) == 0x100_0000_0000_0000_0000_0000_0000_0000,
{
    assert(two_to(3) == 8 && two_to(4) == 16 && two_to(8) == 256) by {
        reveal_with_fuel(two_to, 9);
    }
    lemma_two_to_adds(8, 3);
    lemma_two_to_adds(8, 8);
    assert(two_to(16) == 0x1_0000);
    lemma_two_to_adds(16, 16);
    assert(two_to(32) == 0x1_0000_0000);
    lemma_two_to_adds(32, 32);
    lemma_two_to_adds(32, 16);
    assert(two_to(48) == 0x1_0000_0000_0000);
    lemma_two_to_adds(48, 4);
    assert(two_to(52) == LOW);
    assert(two_to(53) == 2 * two_to(52));
    lemma_two_to_adds(64, 48);
    lemma_two_to_adds(112, 8);
}

/// `n / d` rounded to an integer, a tie to the even neighbour.
pub fn round_half_even(n: u128, d: u128) -> (r: u128)
    requires
        0 < d < 0x4000_0000_0000_0000_0000_0000_0000_0000,
        n < 0x4000_0000_0000_0000_0000_0000_0000_0000,
    ensures
        r == round_even(n as nat, d as nat),
{
    let q: u128 = n / d;
    let r: u128 = n % d;
    proof {
        vstd::arithmetic::div_mod::lemma_div_is_ordered_by_denominator(n as int, 1, d as int);
    }
    if 2 * r < d || (2 * r == d && q % 2 == 0) {
        q
    } else {
        q + 1
    }
}

/// `n / d` rounded to 53 significant bits.
pub fn nearest_double(n: u128, d: u128) -> (r: Scaled)
    requires
        n < 0x100_0000_0000_0000_0000,
        0 < d < 0x100_0000_0000_0000_0000,
    ensures
        r@ == nearest(n as nat, d as nat),
{
    if n == 0 {
        return Scaled { mant: 0, exp: 0 };
    }
    let mut n2: u128 = n;
    let mut d2: u128 = d;
    let mut exp: i128 = 0;
    proof {
        assert(d * LOW < 0x10_0000_0000_0000_0000_0000_0000_0000_00) by (nonlinear_arith)
            requires
                d < 0x100_0000_0000_0000_0000,
        ;
    }
    while n2 < d2 * LOW
        invariant
            0 < d2 < 0x100_0000_0000_0000_0000,
            d2 == d,
            0 < n2 < 0x20_0000_0000_0000_0000_0000_0000_0000_00,
            d2 * LOW < 0x10_0000_0000_0000_0000_0000_0000_0000_00,
            -n2 < exp <= 0,
            exp == 0 ==> n2 == n,
            nearest(n as nat, d as nat).mant == nearest(n2 as nat, d2 as nat).mant,
            nearest(n as nat, d as nat).exp == nearest(n2 as nat, d2 as nat).exp + exp,
        decreases
                if n2 < d2 * LOW {
                    d2 * LOW - n2
                } else {
                    0
                },
    {
        n2 = 2 * n2;
        exp = exp - 1;
    }
    assert(d2 * HIGH == 2 * (d2 * LOW));
    while n2 >= d2 * HIGH
        invariant
            0 < d2,
            0 < n2 < 0x20_0000_0000_0000_0000_0000_0000_0000_00,
            d2 * HIGH < 0x40_0000_0000_0000_0000_0000_0000_0000_00,
            d2 * LOW <= n2,
            -0x20_0000_0000_0000_0000_0000_0000_0000_00 < exp < d2,
            nearest(n as nat, d as nat).mant == nearest(n2 as nat, d2 as nat).mant,
            nearest(n as nat, d as nat).exp == nearest(n2 as nat, d2 as nat).exp + exp,
        decreases
                if n2 >= d2 * HIGH {
                    n2 - d2 * HIGH + 1
                } else {
                    0
                },
    {
        d2 = 2 * d2;
        exp = exp + 1;
    }
    Scaled { mant: round_half_even(n2, d2), exp }
}

// ---------------------------------------------------------------------------
// Accuracy

/// The power of two by which a significand is multiplied.
pub open spec fn factor(exp: int) -> nat {
    if exp >= 0 {
        two_to(exp as nat)
    } else {
        1
    }
}

/// The power of two by which a significand is divided.
pub open spec fn divisor(exp: int) -> nat {
    if exp >= 0 {
        1
    } else {
        two_to((-exp) as nat)
    }
}

/// Whether a number is `n / d`, but for an error of `k` parts in two to the power of 53.
pub open spec fn is_near(a: Binary, n: nat, d: nat, k: nat) -> bool {
    (HIGH - k) * (n * divisor(a.exp)) <= HIGH * (a.mant * factor(a.exp) * d) <= (HIGH + k) * (n
        * divisor(a.exp))
}

/// Rounding to 53 bits moves a fraction by no more than one part in two to the power of 53.
#[verifier::spinoff_prover]
pub proof fn rounded_fractions_are_near(n: nat, d: nat)
    requires
        d > 0,
    ensures
        is_near(nearest(n, d), n, d, 1),
    decreases
            if n < d * LOW {
                d * LOW - n
            } else if n >= d * HIGH {
                n - d * HIGH + 1
            } else {
                0
            },
{
    let r = nearest(n, d);
    if n == 0 {
        assert(0 * divisor(r.exp) == 0 && 0 * factor(r.exp) == 0 && 0 * d == 0)
            by (nonlinear_arith);
    } else if n < d * LOW {
        let s = nearest(2 * n, d);
        rounded_fractions_are_near(2 * n, d);
        exponent_of_small(2 * n, d);
        let t = divisor(s.exp);
        assert(divisor(r.exp) == 2 * t) by {
            assert(two_to((-r.exp) as nat) == 2 * two_to((-s.exp) as nat));
            assert(two_to(0) == 1);
        }
        assert(factor(s.exp) == 1) by {
            assert(two_to(0) == 1);
        }
        assert(n * (2 * t) == (2 * n) * t) by (nonlinear_arith);
    } else if n >= d * HIGH {
        let s = nearest(n, 2 * d);
        rounded_fractions_are_near(n, 2 * d);
        exponent_of_large(n, 2 * d);
        let t = factor(s.exp);
        assert(factor(r.exp) == 2 * t);
        let m = s.mant;
        assert(m * (2 * t) * d == m * t * (2 * d)) by (nonlinear_arith);
    } else {
        let m = round_even(n, d);
        rounding_is_close(n, d);
        assert(two_to(0) == 1);
        assert(m * 1 * d == m * d && n * 1 == n) by (nonlinear_arith);
        assert(d * LOW <= n);
    }
}

/// Two to the power of `exp`, times a unit of two to the power of `k`.
spec fn scaled(exp: int, k: nat) -> nat {
    two_to((exp + k) as nat)
}

/// [`is_near`] with both sides in units of two to the power of `k`.
spec fn is_near_in_units(a: Binary, n: nat, d: nat, e: nat, k: nat) -> bool {
    (HIGH - e) * (n * two_to(k)) <= HIGH * (a.mant * scaled(a.exp, k) * d) <= (HIGH + e) * (n
        * two_to(k))
}

#[verifier::spinoff_prover]
proof fn lemma_units(a: Binary, n: nat, d: nat, e: nat, k: nat)
    requires
        e <= HIGH,
        -(k as int) <= a.exp,
    ensures
        is_near(a, n, d, e) <==> is_near_in_units(a, n, d, e, k),
{
    let p = two_to(k);
    let (f, g, s) = (factor(a.exp), divisor(a.exp), scaled(a.exp, k));
    lemma_two_to_grows(0, k);
    assert(g > 0) by {
        if a.exp < 0 {
            lemma_two_to_grows(0, (-a.exp) as nat);
        }
    }
    assert(f * p == s * g) by {
        if a.exp >= 0 {
            lemma_two_to_adds(a.exp as nat, k);
            assert(s * 1 == s) by (nonlinear_arith);
        } else {
            lemma_two_to_adds((a.exp + k) as nat, (-a.exp) as nat);
            assert(1 * p == p) by (nonlinear_arith);
        }
    }
    let m = a.mant;
    let (x, y) = (m * f * d, n * g);
    let (u, v) = (m * s * d, n * p);
    assert(x * p == u * g) by (nonlinear_arith)
        requires
            f * p == s * g,
            x == m * f * d,
            u == m * s * d,
    ;
    assert(y * p == v * g) by (nonlinear_arith)
        requires
            y == n * g,
            v == n * p,
    ;
    let (lo, hi) = (HIGH - e, HIGH + e);
    lemma_cross(lo, y as int, HIGH as int, x as int, p as int, v as int, u as int, g as int);
    lemma_cross(HIGH as int, x as int, hi, y as int, p as int, u as int, v as int, g as int);
}

/// An inequality stays one when its sides are written in other units.
proof fn lemma_cross(a: int, x: int, b: int, y: int, p: int, u: int, v: int, g: int)
    requires
        p > 0,
        g > 0,
        x * p == u * g,
        y * p == v * g,
    ensures
        a * x <= b * y <==> a * u <= b * v,
{
    assert(a * x <= b * y <==> (a * x) * p <= (b * y) * p) by (nonlinear_arith)
        requires
            p > 0,
    ;
    assert(a * u <= b * v <==> (a * u) * g <= (b * v) * g) by (nonlinear_arith)
        requires
            g > 0,
    ;
    assert((a * x) * p == (a * u) * g) by (nonlinear_arith)
        requires
            x * p == u * g,
    ;
    assert((b * y) * p == (b * v) * g) by (nonlinear_arith)
        requires
            y * p == v * g,
    ;
}

/// The quotient of two integers, each of them rounded to 53 bits, is their quotient, but for an error
/// of four parts in two to the power of 53.
#[verifier::spinoff_prover]
pub proof fn quotients_are_near(a: nat, b: nat)
    requires
        b > 0,
    ensures
        is_near(over(of_int(a), of_int(b)), a, b, 4),
{
    let (x, y) = (of_int(a), of_int(b));
    let q = over(x, y);
    if a == 0 {
        assert(x.mant == 0);
        assert(0 * divisor(q.exp) == 0 && 0 * factor(q.exp) == 0 && 0 * b == 0)
            by (nonlinear_arith);
    } else {
        significand_range(b, 1);
        rounded_fractions_are_near(a, 1);
        rounded_fractions_are_near(b, 1);
        rounded_fractions_are_near(x.mant, y.mant);
        let r = nearest(x.mant, y.mant);
        let k = lemma_common_unit(x.exp, y.exp, r.exp, q.exp);
        lemma_units(x, a, 1, 1, k);
        lemma_units(y, b, 1, 1, k);
        lemma_units(r, x.mant, y.mant, 1, k);
        lemma_units(q, a, b, 4, k);
        let p = two_to(k);
        lemma_two_to_grows(0, k);
        let (sx, sy, sr, sq) = (
            scaled(x.exp, k),
            scaled(y.exp, k),
            scaled(r.exp, k),
            scaled(q.exp, k),
        );
        lemma_two_to_adds((r.exp + k) as nat, (x.exp + k) as nat);
        lemma_two_to_adds((q.exp + k) as nat, (y.exp + k) as nat);
        assert(sr * sx == sq * sy);
        let h = HIGH as int;
        // The three roundings, over the two integers in units.
        let (alpha, beta) = ((a * p) as int, (b * p) as int);
        let (gx, gy, gm) = ((x.mant * sx) as int, (y.mant * sy) as int, (r.mant * sq) as int);
        assert(x.mant * sx * 1 == gx && y.mant * sy * 1 == gy) by (nonlinear_arith)
            requires
                gx == x.mant * sx,
                gy == y.mant * sy,
        ;
        assert((h - 1) * alpha <= h * gx <= (h + 1) * alpha);
        assert((h - 1) * beta <= h * gy <= (h + 1) * beta);
        assert((h - 1) * (gx * p) <= h * (gm * gy) <= (h + 1) * (gx * p)) by {
            let inner = (r.mant * sr * y.mant) as int;
            let n = (x.mant * p) as int;
            assert((h - 1) * n <= h * inner <= (h + 1) * n);
            assert(inner * sx == gm * gy) by (nonlinear_arith)
                requires
                    inner == r.mant * sr * y.mant,
                    gm == r.mant * sq,
                    gy == y.mant * sy,
                    sr * sx == sq * sy,
            ;
            assert(n * sx == gx * p) by (nonlinear_arith)
                requires
                    n == x.mant * p,
                    gx == x.mant * sx,
            ;
            assert((h - 1) * (n * sx) <= h * (inner * sx) <= (h + 1) * (n * sx))
                by (nonlinear_arith)
                requires
                    (h - 1) * n <= h * inner <= (h + 1) * n,
                    sx >= 0,
            ;
        }
        let (t, s) = (gm * beta, alpha * p);
        let (my, xp) = (gm * gy, gx * p);
        assert((h - 1) * t <= h * my <= (h + 1) * t) by (nonlinear_arith)
            requires
                (h - 1) * beta <= h * gy <= (h + 1) * beta,
                gm >= 0,
                t == gm * beta,
                my == gm * gy,
        ;
        assert((h - 1) * s <= h * xp <= (h + 1) * s) by (nonlinear_arith)
            requires
                (h - 1) * alpha <= h * gx <= (h + 1) * alpha,
                p >= 0,
                s == alpha * p,
                xp == gx * p,
        ;
        assert(0 <= s) by (nonlinear_arith)
            requires
                s == alpha * p,
                alpha >= 0,
                p >= 0,
        ;
        assert((HIGH - 4) * s <= HIGH * t <= (HIGH + 4) * s);
        // Back to the integers.
        let c = (r.mant * sq * b) as int;
        assert(t == c * p) by (nonlinear_arith)
            requires
                t == gm * beta,
                gm == r.mant * sq,
                beta == b * p,
                c == r.mant * sq * b,
        ;
        assert((HIGH - 4) * alpha <= HIGH * c <= (HIGH + 4) * alpha) by (nonlinear_arith)
            requires
                (HIGH - 4) * s <= HIGH * t <= (HIGH + 4) * s,
                t == c * p,
                s == alpha * p,
                p > 0,
        ;
    }
}

/// A unit that is small enough for four exponents.
proof fn lemma_common_unit(a: int, b: int, c: int, d: int) -> (k: nat)
    ensures
        -(k as int) <= a,
        -(k as int) <= b,
        -(k as int) <= c,
        -(k as int) <= d,
{
    let ka = if a < 0 {
        -a
    } else {
        0
    };
    let kb = if b < 0 {
        -b
    } else {
        0
    };
    let kc = if c < 0 {
        -c
    } else {
        0
    };
    let kd = if d < 0 {
        -d
    } else {
        0
    };
    (ka + kb + kc + kd) as nat
}

#[verifier::spinoff_prover]
proof fn lemma_errors_add_up(w: int, half: int, x: int, y: int)
    requires
        -half <= 2 * (w - 10 * x) <= half,
        (HIGH - 4) * y <= HIGH * x <= (HIGH + 4) * y,
    ensures
        -(HIGH * half + 80 * y) <= 2 * HIGH * w - 20 * HIGH * y <= HIGH * half + 80 * y,
{
    let h = HIGH as int;
    let e = 2 * (w - 10 * x);
    assert(-(h * half) <= h * e <= h * half) by (nonlinear_arith)
        requires
            -half <= e <= half,
            h > 0,
    ;
    assert(h * e == 2 * h * w - 20 * (h * x)) by (nonlinear_arith)
        requires
            e == 2 * (w - 10 * x),
    ;
    assert((h - 4) * y == h * y - 4 * y && (h + 4) * y == h * y + 4 * y) by (nonlinear_arith);
    assert(20 * h * y == 20 * (h * y)) by (nonlinear_arith);
}

/// The number of tenths of a quotient is the nearest one, but for the error of the quotient.
#[verifier::spinoff_prover]
pub proof fn tenths_are_near(q: Binary, a: nat, b: nat)
    requires
        b > 0,
        is_near(q, a, b, 4),
    ensures
        -(HIGH * b + 80 * a) <= 2 * HIGH * (tenths(q) * b - 10 * a) <= HIGH * b + 80 * a,
{
    let t = tenths(q) as int;
    let (f, g) = (factor(q.exp) as int, divisor(q.exp) as int);
    let m = q.mant as int;
    assert(g > 0) by {
        if q.exp < 0 {
            lemma_two_to_grows(0, (-q.exp) as nat);
        }
    }
    assert(-g <= 2 * (t * g - 10 * (m * f)) <= g) by {
        if q.exp >= 0 {
            assert(10 * m * f == 10 * (m * f)) by (nonlinear_arith);
            assert(t * 1 == t) by (nonlinear_arith);
        } else {
            rounding_is_close(10 * q.mant, g as nat);
            assert(m * 1 == m) by (nonlinear_arith);
        }
    }
    let (x, y) = (m * f * b, a * g);
    assert((HIGH - 4) * y <= HIGH * x <= (HIGH + 4) * y);
    assert(-(g * b) <= 2 * (t * g * b - 10 * x) <= g * b) by (nonlinear_arith)
        requires
            -g <= 2 * (t * g - 10 * (m * f)) <= g,
            x == m * f * b,
            b > 0,
    ;
    let w = t * g * b;
    let gb = g * b;
    lemma_errors_add_up(w, gb, x, y);
    let diff = t * b - 10 * a;
    let bound = HIGH * b + 80 * a;
    assert(2 * HIGH * w - 20 * HIGH * y == (2 * HIGH * diff) * g) by (nonlinear_arith)
        requires
            w == t * g * b,
            y == a * g,
            diff == t * b - 10 * a,
    ;
    assert(HIGH * gb + 80 * y == bound * g) by (nonlinear_arith)
        requires
            gb == g * b,
            y == a * g,
            bound == HIGH * b + 80 * a,
    ;
    assert(-bound <= 2 * HIGH * diff <= bound) by (nonlinear_arith)
        requires
            -(bound * g) <= (2 * HIGH * diff) * g <= bound * g,
            g > 0,
    ;
}

/// A small multiple of a quotient is that multiple of it, but for the error of the quotient and the
/// one of the multiplication.
#[verifier::spinoff_prover]
pub proof fn multiples_are_near(q: Binary, a: nat, b: nat, c: nat)
    requires
        c > 0,
        is_near(q, a, b, 4),
    ensures
        is_near(times(q, c), c * a, b, 6),
{
    let r = nearest(q.mant * c, 1);
    let v = times(q, c);
    rounded_fractions_are_near(q.mant * c, 1);
    let k = lemma_common_unit(q.exp, r.exp, v.exp, 0);
    lemma_units(q, a, b, 4, k);
    lemma_units(r, q.mant * c, 1, 1, k);
    lemma_units(v, c * a, b, 6, k);
    let p = two_to(k) as int;
    lemma_two_to_grows(0, k);
    let (sq, sr, sv) = (scaled(q.exp, k) as int, scaled(r.exp, k) as int, scaled(v.exp, k) as int);
    lemma_two_to_adds((r.exp + k) as nat, (q.exp + k) as nat);
    lemma_two_to_adds((v.exp + k) as nat, k);
    assert(sr * sq == sv * p);
    let h = HIGH as int;
    let (m, n) = (q.mant * sq, r.mant * sv);
    assert((h - 1) * (c * m) <= h * n <= (h + 1) * (c * m)) by {
        let inner = (r.mant * sr * 1) as int;
        let outer = (q.mant * c * p) as int;
        assert((h - 1) * outer <= h * inner <= (h + 1) * outer);
        assert(inner * sq == n * p) by (nonlinear_arith)
            requires
                inner == r.mant * sr * 1,
                n == r.mant * sv,
                sr * sq == sv * p,
        ;
        assert(outer * sq == (c * m) * p) by (nonlinear_arith)
            requires
                outer == q.mant * c * p,
                m == q.mant * sq,
        ;
        let cm = c * m;
        assert((h - 1) * cm <= h * n <= (h + 1) * cm) by (nonlinear_arith)
            requires
                (h - 1) * outer <= h * inner <= (h + 1) * outer,
                inner * sq == n * p,
                outer * sq == cm * p,
                sq >= 0,
                p > 0,
        ;
    }
    let x = m * b;
    let s = a * p;
    assert((h - 4) * s <= h * x <= (h + 4) * s) by {
        assert(q.mant * sq * b == x);
    }
    let (cx, cs, nb) = (c * x, c * s, n * b);
    assert((h - 4) * cs <= h * cx <= (h + 4) * cs) by (nonlinear_arith)
        requires
            (h - 4) * s <= h * x <= (h + 4) * s,
            c > 0,
            cx == c * x,
            cs == c * s,
    ;
    assert((h - 1) * cx <= h * nb <= (h + 1) * cx) by (nonlinear_arith)
        requires
            (h - 1) * (c * m) <= h * n <= (h + 1) * (c * m),
            b >= 0,
            x == m * b,
            cx == c * x,
            nb == n * b,
    ;
    assert(cs >= 0) by (nonlinear_arith)
        requires
            cs == c * s,
            s == a * p,
            c >= 0,
            a >= 0,
            p >= 0,
    ;
    assert((HIGH - 6) * cs <= HIGH * nb <= (HIGH + 6) * cs);
    assert(cs == (c * a) * p) by (nonlinear_arith)
        requires
            cs == c * s,
            s == a * p,
    ;
    assert(r.mant * sv * b == nb);
}

/// The integer part of a number is the greatest integer that is not above it.
#[verifier::spinoff_prover]
pub proof fn wholes_are_cut(a: Binary, n: nat, d: nat, k: nat)
    requires
        d > 0,
        k <= HIGH,
        is_near(a, n, d, k),
    ensures
        HIGH * (whole(a) * d) <= (HIGH + k) * n,
        (HIGH - k) * n < HIGH * ((whole(a) + 1) * d),
{
    let w = whole(a) as int;
    let (f, g) = (factor(a.exp) as int, divisor(a.exp) as int);
    let m = a.mant as int;
    assert(g > 0) by {
        if a.exp < 0 {
            lemma_two_to_grows(0, (-a.exp) as nat);
        }
    }
    assert(w * g <= m * f < (w + 1) * g) by {
        if a.exp >= 0 {
            assert(w * 1 == w && (w + 1) * 1 == w + 1) by (nonlinear_arith);
        } else {
            vstd::arithmetic::div_mod::lemma_fundamental_div_mod(m, g);
            assert(m * 1 == m) by (nonlinear_arith);
            assert(w * g <= m < (w + 1) * g) by (nonlinear_arith)
                requires
                    m == g * w + m % g,
                    0 <= m % g < g,
            ;
        }
    }
    let x = m * f * d;
    let y = n * g;
    let (lo, hi) = (HIGH - k, HIGH + k);
    let h = HIGH as int;
    assert(lo * y <= h * x <= hi * y);
    let (wd, vd) = (w * d, (w + 1) * d);
    assert(wd * g <= x < vd * g) by (nonlinear_arith)
        requires
            w * g <= m * f < (w + 1) * g,
            x == m * f * d,
            wd == w * d,
            vd == (w + 1) * d,
            d > 0,
    ;
    assert(h * wd <= hi * n) by (nonlinear_arith)
        requires
            wd * g <= x,
            h * x <= hi * y,
            y == n * g,
            g > 0,
            h > 0,
    ;
    assert(lo * n < h * vd) by (nonlinear_arith)
        requires
            x < vd * g,
            lo * y <= h * x,
            y == n * g,
            g > 0,
            h > 0,
    ;
}

} // verus!
