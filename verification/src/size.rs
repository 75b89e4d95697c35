//! Sizes of files and disks, as people read them.

use vstd::prelude::*;

use crate::binary;
use crate::binary::{nearest_double, power_of_two, round_half_even, Scaled};
use crate::text;
use crate::text::{decimal_text, join2, wide_decimal_text};

verus! {

/// A number of tenths with one digit behind the point.
pub open spec fn one_decimal(tenths: nat) -> Seq<char> {
    text::decimal(tenths / 10).push('.').push(text::digit(tenths % 10))
}

/// `bytes` in units of `unit` bytes: the quotient in double precision, shown with one decimal.
pub open spec fn in_units(bytes: nat, unit: nat) -> Seq<char> {
    one_decimal(binary::tenths(binary::over(binary::of_int(bytes), binary::of_int(unit))))
}

/// A size as text: "-" for nothing, whole bytes below a thousand, and otherwise kilobytes,
/// megabytes or gigabytes (powers of a thousand) with one decimal.
pub open spec fn size_text(bytes: nat) -> Seq<char> {
    if bytes == 0 {
        "-"@
    } else if bytes >= 1_000_000_000 {
        in_units(bytes, 1_000_000_000) + " GB"@
    } else if bytes >= 1_000_000 {
        in_units(bytes, 1_000_000) + " MB"@
    } else if bytes >= 1_000 {
        in_units(bytes, 1_000) + " KB"@
    } else {
        text::decimal(bytes) + " B"@
    }
}

/// The share of `total` that is free, in percent: the quotient in double precision, times a
/// hundred, cut to an integer and kept within 32 bits. Zero where the total is zero.
pub open spec fn free_percent(free: nat, total: nat) -> int {
    if total == 0 {
        0
    } else {
        let p = binary::whole(
            binary::times(binary::over(binary::of_int(free), binary::of_int(total)), 100),
        );
        if p > i32::MAX {
            i32::MAX as int
        } else {
            p as int
        }
    }
}

/// The quotient of two 64-bit integers, each as a double.
pub(crate) fn quotient(a: u64, b: u64) -> (r: Scaled)
    requires
        b > 0,
    ensures
        r@ == binary::over(binary::of_int(a as nat), binary::of_int(b as nat)),
        a > 0 ==> binary::LOW <= r.mant <= binary::HIGH,
        a == 0 ==> r.mant == 0 && r.exp <= 52,
        -116 <= r.exp <= 63,
{
    let x = nearest_double(a as u128, 1);
    let y = nearest_double(b as u128, 1);
    proof {
        binary::powers_of_two();
        binary::significand_range(b as nat, 1);
        binary::exponent_at_most(b as nat, 1, 11);
        binary::exponent_at_least(b as nat, 1, 52);
        if a > 0 {
            let m = x.mant as nat;
            let n = y.mant as nat;
            binary::significand_range(a as nat, 1);
            binary::exponent_at_most(a as nat, 1, 11);
            binary::exponent_at_least(a as nat, 1, 52);
            binary::significand_range(m, n);
            assert(binary::two_to(0) == 1);
            binary::exponent_at_most(m, n, 0);
            binary::exponent_at_least(m, n, 53);
        }
    }
    let z = nearest_double(x.mant, y.mant);
    Scaled { mant: z.mant, exp: z.exp + x.exp - y.exp }
}

/// `bytes` in units of `unit` bytes, with one decimal.
fn unit_text(bytes: u64, unit: u64) -> (r: String)
    requires
        unit > 0,
    ensures
        r@ == in_units(bytes as nat, unit as nat),
{
    let q = quotient(bytes, unit);
    proof {
        binary::powers_of_two();
    }
    let tenths: u128 = if q.exp >= 0 {
        let scale = power_of_two(q.exp as u32);
        proof {
            binary::lemma_two_to_grows(q.exp as nat, 64);
            assert(10 * q.mant * scale <= 10 * binary::HIGH * 0x1_0000_0000_0000_0000)
                by (nonlinear_arith)
                requires
                    q.mant <= binary::HIGH,
                    scale <= 0x1_0000_0000_0000_0000,
            ;
        }
        10 * q.mant * scale
    } else {
        round_half_even(10 * q.mant, power_of_two((-q.exp) as u32))
    };
    let mut s = wide_decimal_text(tenths / 10);
    s.push('.');
    let last: u8 = (tenths % 10) as u8;
    s.push((48 + last) as char);
    s
}

/// Format file size as human-readable string.
pub fn format_size(bytes: u64) -> (r: String)
    ensures
        r@ == size_text(bytes as nat),
{
    if bytes == 0 {
        return "-".to_owned();
    }
    if bytes >= 1_000_000_000 {
        join2(unit_text(bytes, 1_000_000_000).as_str(), " GB")
    } else if bytes >= 1_000_000 {
        join2(unit_text(bytes, 1_000_000).as_str(), " MB")
    } else if bytes >= 1_000 {
        join2(unit_text(bytes, 1_000).as_str(), " KB")
    } else {
        join2(decimal_text(bytes).as_str(), " B")
    }
}

/// The share of a disk that is free, in percent.
pub fn storage_percent(free: u64, total: u64) -> (r: i32)
    ensures
        r == free_percent(free as nat, total as nat),
{
    if total == 0 {
        return 0;
    }
    let q = quotient(free, total);
    let p = nearest_double(q.mant * 100, 1);
    proof {
        binary::powers_of_two();
        if free > 0 {
            binary::significand_range((q.mant * 100) as nat, 1);
            binary::exponent_at_most((q.mant * 100) as nat, 1, 11);
            binary::exponent_at_least((q.mant * 100) as nat, 1, 52);
        }
    }
    let exp: i128 = p.exp + q.exp;
    let ghost result = binary::times(
        binary::over(binary::of_int(free as nat), binary::of_int(total as nat)),
        100,
    );
    assert(result == (binary::Binary { mant: p.mant as nat, exp: exp as int }));
    if p.mant == 0 {
        assert(binary::whole(result) == 0) by {
            if exp >= 0 {
                assert(0 * binary::two_to(exp as nat) == 0) by (nonlinear_arith);
            } else {
                binary::lemma_two_to_grows(0, (-exp) as nat);
                vstd::arithmetic::div_mod::lemma_div_basics(binary::two_to((-exp) as nat) as int);
            }
        }
        0
    } else if exp >= 0 {
        proof {
            binary::lemma_two_to_grows(0, exp as nat);
            let t = binary::two_to(exp as nat);
            assert(p.mant * t >= p.mant) by (nonlinear_arith)
                requires
                    t >= 1,
            ;
        }
        i32::MAX
    } else if exp <= -64 {
        proof {
            binary::lemma_two_to_grows(64, (-exp) as nat);
            vstd::arithmetic::div_mod::lemma_basic_div(
                p.mant as int,
                binary::two_to((-exp) as nat) as int,
            );
        }
        0
    } else {
        let whole: u128 = p.mant / power_of_two((-exp) as u32);
        if whole > i32::MAX as u128 {
            i32::MAX
        } else {
            whole as i32
        }
    }
}

// ---------------------------------------------------------------------------
// Laws

/// The unit in which a size is shown: bytes, and then each unit is a thousand of the one before.
pub open spec fn unit_of(bytes: nat) -> nat {
    if bytes >= 1_000_000_000 {
        3
    } else if bytes >= 1_000_000 {
        2
    } else if bytes >= 1_000 {
        1
    } else {
        0
    }
}

/// The bytes in a unit.
pub open spec fn unit_size(unit: nat) -> nat {
    if unit == 3 {
        1_000_000_000
    } else if unit == 2 {
        1_000_000
    } else if unit == 1 {
        1_000
    } else {
        1
    }
}

/// The name of a unit.
pub open spec fn unit_name(unit: nat) -> Seq<char> {
    if unit == 3 {
        " GB"@
    } else if unit == 2 {
        " MB"@
    } else if unit == 1 {
        " KB"@
    } else {
        " B"@
    }
}

/// The number that is shown in front of the unit, in tenths.
pub open spec fn shown_tenths(bytes: nat) -> nat {
    if unit_of(bytes) == 0 {
        10 * bytes
    } else {
        binary::tenths(
            binary::over(binary::of_int(bytes), binary::of_int(unit_size(unit_of(bytes)))),
        )
    }
}

/// A larger size is never shown as a smaller one: not in a smaller unit, and in the same unit not
/// by a smaller number. The text of a size is that number and the name of that unit.
pub proof fn larger_sizes_read_larger(a: nat, b: nat)
    requires
        0 < a <= b,
    ensures
        unit_of(a) <= unit_of(b),
        unit_of(a) == unit_of(b) ==> shown_tenths(a) <= shown_tenths(b),
        forall|n: nat|
            n > 0 ==> #[trigger] size_text(n) == if unit_of(n) == 0 {
                text::decimal(shown_tenths(n) / 10)
            } else {
                one_decimal(shown_tenths(n))
            } + unit_name(unit_of(n)),
{
    if unit_of(a) == unit_of(b) && unit_of(a) > 0 {
        let unit = unit_size(unit_of(a));
        let (x, y, u) = (binary::of_int(a), binary::of_int(b), binary::of_int(unit));
        binary::significand_range(a, 1);
        binary::significand_range(b, 1);
        binary::significand_range(unit, 1);
        binary::rounding_keeps_order(a, b, 1);
        binary::division_keeps_order(x, y, u);
        binary::tenths_keep_order(binary::over(x, u), binary::over(y, u));
    }
}

/// A size is shown in bytes below a thousand, in kilobytes below a million, in megabytes below a
/// billion and in gigabytes from there on, and nothing as a dash. Whole bytes are shown as they are,
/// and any other size with one digit behind the point.
pub proof fn sizes_are_shown_in_their_unit(bytes: nat)
    ensures
        size_text(0) == "-"@,
        0 < bytes < 1_000 ==> size_text(bytes) == text::decimal(bytes) + " B"@,
        bytes >= 1_000 ==> ({
            let t = shown_tenths(bytes);
            let number = text::decimal(t / 10) + seq!['.', text::digit(t % 10)];
            &&& bytes < 1_000_000 ==> size_text(bytes) == number + " KB"@
            &&& 1_000_000 <= bytes < 1_000_000_000 ==> size_text(bytes) == number + " MB"@
            &&& 1_000_000_000 <= bytes ==> size_text(bytes) == number + " GB"@
        }),
{
    if bytes >= 1_000 {
        let t = shown_tenths(bytes);
        assert(one_decimal(t) =~= text::decimal(t / 10) + seq!['.', text::digit(t % 10)]);
    }
}

#[verifier::spinoff_prover]
proof fn lemma_off_by_little(off: int, bytes: int, unit: int)
    requires
        0 <= bytes <= 0xffff_ffff_ffff_ffff,
        bytes < 1_000 * unit || unit == 1_000_000_000,
        unit >= 1_000,
        -(binary::HIGH * unit + 80 * bytes) <= 2 * binary::HIGH * off <= binary::HIGH * unit + 80
            * bytes,
    ensures
        -(6 * unit) <= 10 * off <= 6 * unit,
{
    let h = binary::HIGH as int;
    assert(h == 9007199254740992);
    assert(800 * bytes <= h * unit) by (nonlinear_arith)
        requires
            h == 9007199254740992,
            0 <= bytes <= 0xffff_ffff_ffff_ffff,
            bytes < 1_000 * unit || unit == 1_000_000_000,
            unit >= 1_000,
    ;
    assert(-(6 * unit) <= 10 * off <= 6 * unit) by (nonlinear_arith)
        requires
            h == 9007199254740992,
            800 * bytes <= h * unit,
            -(h * unit + 80 * bytes) <= 2 * h * off <= h * unit + 80 * bytes,
            unit >= 1_000,
    ;
}

/// The number that is shown is the size in its unit, to the nearest tenth: it is off by no more than
/// six tenths of a tenth, for any size of 64 bits.
#[verifier::spinoff_prover]
pub proof fn shown_sizes_are_accurate(bytes: nat)
    requires
        bytes <= u64::MAX,
    ensures
        bytes < 1_000 ==> shown_tenths(bytes) == 10 * bytes,
        1_000 <= bytes < 1_000_000 ==> -600 <= shown_tenths(bytes) * 1_000 - 10 * bytes <= 600,
        1_000_000 <= bytes < 1_000_000_000 ==> -600_000 <= shown_tenths(bytes) * 1_000_000 - 10
            * bytes <= 600_000,
        1_000_000_000 <= bytes ==> -600_000_000 <= shown_tenths(bytes) * 1_000_000_000 - 10 * bytes
            <= 600_000_000,
{
    let x = binary::of_int(bytes);
    let t = shown_tenths(bytes) as int;
    if bytes >= 1_000_000_000 {
        binary::quotients_are_near(bytes, 1_000_000_000);
        binary::tenths_are_near(
            binary::over(x, binary::of_int(1_000_000_000)),
            bytes,
            1_000_000_000,
        );
        lemma_off_by_little(t * 1_000_000_000 - 10 * bytes, bytes as int, 1_000_000_000);
    } else if bytes >= 1_000_000 {
        binary::quotients_are_near(bytes, 1_000_000);
        binary::tenths_are_near(binary::over(x, binary::of_int(1_000_000)), bytes, 1_000_000);
        lemma_off_by_little(t * 1_000_000 - 10 * bytes, bytes as int, 1_000_000);
    } else if bytes >= 1_000 {
        binary::quotients_are_near(bytes, 1_000);
        binary::tenths_are_near(binary::over(x, binary::of_int(1_000)), bytes, 1_000);
        lemma_off_by_little(t * 1_000 - 10 * bytes, bytes as int, 1_000);
    }
}

/// The free share of a disk lies between zero and a hundred percent. It is cut to whole percents:
/// less is free than one percent more, and not less than that, but for the thousandth part of a
/// percent. Of a disk without any space nothing is free.
#[verifier::spinoff_prover]
pub proof fn free_shares_are_in_percent(free: nat, total: nat)
    requires
        free <= total <= u64::MAX,
    ensures
        0 <= free_percent(free, total) <= 100,
        total == 0 ==> free_percent(free, total) == 0,
        total > 0 ==> 1000 * (free_percent(free, total) * total) <= 100_000 * free + total,
        total > 0 ==> 100_000 * free < 1000 * ((free_percent(free, total) + 1) * total) + total,
{
    if total > 0 {
        let q = binary::over(binary::of_int(free), binary::of_int(total));
        binary::quotients_are_near(free, total);
        binary::multiples_are_near(q, free, total, 100);
        binary::wholes_are_cut(binary::times(q, 100), 100 * free, total, 6);
        let w = binary::whole(binary::times(q, 100));
        assert(w <= 100) by (nonlinear_arith)
            requires
                binary::HIGH * (w * total) <= (binary::HIGH + 6) * (100 * free),
                free <= total,
                total > 0,
        ;
    }
}

} // verus!
