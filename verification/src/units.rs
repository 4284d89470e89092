//! Human-readable byte sizes.
//!
//! A size of at least one kibibyte is shown with two decimals in the
//! largest binary unit that it reaches (KB, MB, GB or TB), exactly as the
//! format `{:.2}` prints the `f64` quotient `bytes as f64 / unit as f64`:
//! the byte count is first rounded to the nearest `f64` (ties to even),
//! the quotient by a power of two is exact, and the decimal expansion is
//! rounded to two places, ties to even.  All of it is done here with
//! integers.

use vstd::prelude::*;
use crate::text::{decimal, decimal_text, digit_char};
use vstd::arithmetic::power2::{pow2, lemma_pow2_adds, lemma_pow2_strictly_increases, lemma_pow2_unfold, lemma2_to64, lemma2_to64_rest};

verus! {

/// Bytes in a kibibyte.
pub const KB: u64 = 1024;
/// Bytes in a mebibyte.
pub const MB: u64 = 1048576;
/// Bytes in a gibibyte.
pub const GB: u64 = 1073741824;
/// Bytes in a tebibyte.
pub const TB: u64 = 1099511627776;

/// The unit in which a byte count is shown.
#[derive(Clone, Copy, Debug, PartialEq, Eq, Structural)]
pub enum ByteUnit {
    B,
    KB,
    MB,
    GB,
    TB,
}

/// The largest unit that `bytes` reaches.
pub open spec fn unit_of(bytes: nat) -> ByteUnit {
    if bytes >= TB {
        ByteUnit::TB
    } else if bytes >= GB {
        ByteUnit::GB
    } else if bytes >= MB {
        ByteUnit::MB
    } else if bytes >= KB {
        ByteUnit::KB
    } else {
        ByteUnit::B
    }
}

/// The number of bytes in one `unit`.
pub open spec fn unit_size(unit: ByteUnit) -> nat {
    match unit {
        ByteUnit::B => 1,
        ByteUnit::KB => KB as nat,
        ByteUnit::MB => MB as nat,
        ByteUnit::GB => GB as nat,
        ByteUnit::TB => TB as nat,
    }
}

/// The text that follows the number: a space and the unit's symbol.
pub open spec fn unit_suffix(unit: ByteUnit) -> Seq<char> {
    match unit {
        ByteUnit::B => " B"@,
        ByteUnit::KB => " KB"@,
        ByteUnit::MB => " MB"@,
        ByteUnit::GB => " GB"@,
        ByteUnit::TB => " TB"@,
    }
}

/// `n / d` rounded to the nearest integer, ties to the even one.
pub open spec fn round_half_even(n: nat, d: nat) -> nat {
    let q = n / d;
    let r = n % d;
    if 2 * r > d || (2 * r == d && q % 2 == 1) {
        q + 1
    } else {
        q
    }
}

/// The distance between neighbouring `f64` values around `b`: 1 below
/// 2^53, doubling with each further binary digit.
pub open spec fn f64_spacing(b: nat) -> nat
    decreases b,
{
    if b < 9007199254740992 {
        1
    } else {
        2 * f64_spacing(b / 2)
    }
}

/// The value of `b as f64`: `b` rounded to the nearest `f64`, ties to even.
pub open spec fn f64_value(b: nat) -> nat {
    round_half_even(b, f64_spacing(b)) * f64_spacing(b)
}

/// `bytes as f64 / unit as f64` times one hundred, rounded as `{:.2}` rounds it.
pub open spec fn hundredths(bytes: nat, unit: ByteUnit) -> nat {
    round_half_even(f64_value(bytes) * 100, unit_size(unit))
}

/// A count of hundredths written with two decimals (`1234` is `12.34`).
pub open spec fn two_decimals(h: nat) -> Seq<char> {
    decimal(h / 100) + seq!['.', digit_char((h / 10) % 10), digit_char(h % 10)]
}

/// The text that shows `bytes`: the plain count and ` B` below a
/// kibibyte, else two decimals in the largest unit reached.
pub open spec fn bytes_text(bytes: nat) -> Seq<char> {
    let unit = unit_of(bytes);
    if unit == ByteUnit::B {
        decimal(bytes) + unit_suffix(unit)
    } else {
        two_decimals(hundredths(bytes, unit)) + unit_suffix(unit)
    }
}

/// The largest unit that `bytes` reaches.
pub fn byte_unit(bytes: u64) -> (u: ByteUnit)
    ensures
        u == unit_of(bytes as nat),
{
    if bytes >= TB {
        ByteUnit::TB
    } else if bytes >= GB {
        ByteUnit::GB
    } else if bytes >= MB {
        ByteUnit::MB
    } else if bytes >= KB {
        ByteUnit::KB
    } else {
        ByteUnit::B
    }
}

fn unit_size_of(unit: ByteUnit) -> (r: u64)
    ensures
        r as nat == unit_size(unit),
{
    match unit {
        ByteUnit::B => 1,
        ByteUnit::KB => KB,
        ByteUnit::MB => MB,
        ByteUnit::GB => GB,
        ByteUnit::TB => TB,
    }
}

fn unit_suffix_text(unit: ByteUnit) -> (r: &'static str)
    ensures
        r@ == unit_suffix(unit),
{
    match unit {
        ByteUnit::B => " B",
        ByteUnit::KB => " KB",
        ByteUnit::MB => " MB",
        ByteUnit::GB => " GB",
        ByteUnit::TB => " TB",
    }
}

/// `n / d` rounded to the nearest integer, ties to the even one.
fn round_div(n: u128, d: u128) -> (r: u128)
    requires
        d > 0,
        n / d < u128::MAX,
    ensures
        r as nat == round_half_even(n as nat, d as nat),
{
    let q = n / d;
    let rem = n % d;
    if rem > d - rem || (rem == d - rem && q % 2 == 1) {
        q + 1
    } else {
        q
    }
}

/// The value of `b as f64`, as an integer.
fn f64_rounded(b: u64) -> (r: u128)
    ensures
        r as nat == f64_value(b as nat),
        r <= 18446744073709555712,
{
    let mut c: u64 = b;
    let mut p: u64 = 1;
    proof {
        assert(f64_spacing(b as nat) == p * f64_spacing(c as nat)) by (nonlinear_arith)
            requires p == 1, c == b;
    }
    while c >= 9007199254740992
        invariant
            1 <= p <= 4096,
            c as int == b as int / p as int,
            f64_spacing(b as nat) == p * f64_spacing(c as nat),
            b < 18446744073709551616,
        decreases c,
    {
        proof {
            vstd::arithmetic::div_mod::lemma_fundamental_div_mod(b as int, p as int);
            assert(b as int % p as int >= 0) by {
                vstd::arithmetic::div_mod::lemma_mod_pos_bound(b as int, p as int);
            }
            assert(p <= 2048) by (nonlinear_arith)
                requires
                    c >= 9007199254740992,
                    b == p * c + (b as int % p as int),
                    b as int % p as int >= 0,
                    b < 18446744073709551616,
            ;
            vstd::arithmetic::div_mod::lemma_div_denominator(b as int, p as int, 2);
            let s = f64_spacing((c / 2) as nat);
            assert(f64_spacing(c as nat) == 2 * s);
            assert(p * (2 * s) == (p * 2) * s) by (nonlinear_arith);
        }
        c = c / 2;
        p = p * 2;
    }
    proof {
        let s = f64_spacing(c as nat);
        assert(s == 1);
        assert(p * s == p) by (nonlinear_arith) requires s == 1;
        vstd::arithmetic::div_mod::lemma_fundamental_div_mod(b as int, p as int);
        vstd::arithmetic::div_mod::lemma_mod_pos_bound(b as int, p as int);
    }
    let q = round_div(b as u128, p as u128);
    assert(q <= c + 1);
    proof {
        assert(q * p <= 18446744073709555712) by (nonlinear_arith)
            requires
                p <= 4096,
                q <= c + 1,
                c == b as int / p as int,
                b == p * c + (b as int % p as int),
                b as int % p as int >= 0,
                (b as int % p as int) < p,
                b < 18446744073709551616,
                p >= 1,
        ;
    }
    q * (p as u128)
}

/// The text that shows a byte count, as `format_bytes` prints it:
/// `512 B`, `1.50 KB`, `3.00 GB`.
pub fn format_bytes(bytes: u64) -> (r: String)
    ensures
        r@ == bytes_text(bytes as nat),
{
    let unit = byte_unit(bytes);
    match unit {
        ByteUnit::B => {
            let mut r = decimal_text(bytes);
            r.append(unit_suffix_text(unit));
            r
        },
        _ => {
            let value = f64_rounded(bytes);
            let size = unit_size_of(unit) as u128;
            let h = round_div(value * 100, size);
            assert(h as int <= (value * 100) as int / size as int + 1);
            assert(h < 18446744073709551615) by (nonlinear_arith)
                requires h as int <= (value * 100) as int / size as int + 1, value <= 18446744073709555712, size >= 1024;
            let h = h as u64;
            let mut r = decimal_text(h / 100);
            r.append(".");
            r.append(crate::text::digit_text((h / 10) % 10));
            r.append(crate::text::digit_text(h % 10));
            r.append(unit_suffix_text(unit));
            proof {
                reveal_strlit(".");
            }
            assert(r@ =~= bytes_text(bytes as nat));
            r
        },
    }
}

/// Below 2^53 every byte count is exactly an `f64`.
pub proof fn lemma_small_counts_exact(b: nat)
    requires
        b < 9007199254740992,
    ensures
        f64_value(b) == b,
{
    assert(f64_spacing(b) == 1);
    assert(b / 1 == b && b % 1 == 0) by (nonlinear_arith);
}

/// `round_half_even(n, d)` lies between `n / d` and one more.
pub proof fn lemma_round_between(n: nat, d: nat)
    requires
        d > 0,
    ensures
        n / d <= round_half_even(n, d) <= n / d + 1,
{
}

/// A size shown in kibibytes, mebibytes or gibibytes reads between 1.00
/// and 1024.00: the unit is the largest one the size reaches.
pub proof fn law_scaled_size_in_range(bytes: nat)
    requires
        KB <= bytes < TB,
    ensures
        100 <= hundredths(bytes, unit_of(bytes)) <= 102400,
{
    lemma_small_counts_exact(bytes);
    let u = unit_size(unit_of(bytes));
    let n = bytes * 100;
    assert(u <= bytes < 1024 * u);
    assert(100 * u <= n < 102400 * u) by (nonlinear_arith)
        requires u <= bytes < 1024 * u, n == bytes * 100;
    assert(100 <= n / u < 102400) by (nonlinear_arith)
        requires 100 * u <= n < 102400 * u, u > 0;
    lemma_round_between(n, u);
}


/// The amount that the text of `bytes` reads, in hundredths of a byte:
/// the number shown times the size of its unit, times one hundred.
pub open spec fn shown_amount(bytes: nat) -> nat {
    let u = unit_of(bytes);
    if u == ByteUnit::B {
        100 * bytes
    } else {
        hundredths(bytes, u) * unit_size(u)
    }
}

/// The spacing of `f64` values around `x` is a power of two, `x` lies below
/// 2^53 spacings, and from 2^53 on at or above 2^52 spacings.
pub proof fn lemma_spacing_bounds(x: nat) -> (k: nat)
    ensures
        f64_spacing(x) == pow2(k),
        f64_spacing(x) >= 1,
        x < 9007199254740992 * f64_spacing(x),
        x >= 9007199254740992 ==> 4503599627370496 * f64_spacing(x) <= x,
        x < 9007199254740992 ==> f64_spacing(x) == 1 && k == 0,
    decreases x,
{
    lemma2_to64();
    if x < 9007199254740992 {
        0
    } else {
        let h = x / 2;
        let k1 = lemma_spacing_bounds(h);
        let s1 = f64_spacing(h);
        lemma_pow2_unfold(k1 + 1);
        assert(f64_spacing(x) == 2 * s1);
        assert(x < 9007199254740992 * (2 * s1)) by (nonlinear_arith)
            requires h < 9007199254740992 * s1, h == x / 2, s1 >= 1;
        if h >= 9007199254740992 {
            assert(4503599627370496 * (2 * s1) <= x) by (nonlinear_arith)
                requires 4503599627370496 * s1 <= h, h == x / 2;
        } else {
            assert(s1 == 1);
        }
        k1 + 1
    }
}

/// The spacing grows with the number.
pub proof fn lemma_spacing_monotone(a: nat, b: nat)
    requires
        a <= b,
    ensures
        f64_spacing(a) <= f64_spacing(b),
    decreases b,
{
    lemma_spacing_bounds(a);
    lemma_spacing_bounds(b);
    if a >= 9007199254740992 {
        lemma_spacing_monotone(a / 2, b / 2);
    }
}

/// Rounding to the nearest multiple keeps the order of the numerators.
pub proof fn lemma_round_monotone(a: nat, b: nat, d: nat)
    requires
        a <= b,
        d > 0,
    ensures
        round_half_even(a, d) <= round_half_even(b, d),
{
    vstd::arithmetic::div_mod::lemma_fundamental_div_mod(a as int, d as int);
    vstd::arithmetic::div_mod::lemma_fundamental_div_mod(b as int, d as int);
    vstd::arithmetic::div_mod::lemma_div_is_ordered(a as int, b as int, d as int);
    let qa = a / d;
    let qb = b / d;
    if qa == qb {
        assert(d * qa == d * qb);
        assert(a % d <= b % d);
    }
}

/// Rounding to the nearest multiple of `d` is off by at most half of `d`.
pub proof fn lemma_round_error(n: nat, d: nat)
    requires
        d > 0,
    ensures
        2 * (round_half_even(n, d) * d - n) <= d,
        2 * (n - round_half_even(n, d) * d) <= d,
{
    vstd::arithmetic::div_mod::lemma_fundamental_div_mod(n as int, d as int);
    vstd::arithmetic::div_mod::lemma_mod_pos_bound(n as int, d as int);
    let q = n / d;
    let r = n % d;
    assert((q + 1) * d == q * d + d) by (nonlinear_arith);
    assert(q * d == d * q) by (nonlinear_arith);
}

/// `b as f64` is `b` rounded to the nearest multiple of its spacing.
pub proof fn lemma_f64_error(b: nat)
    ensures
        2 * (f64_value(b) - b) <= f64_spacing(b),
        2 * (b - f64_value(b)) <= f64_spacing(b),
{
    lemma_spacing_bounds(b);
    lemma_round_error(b, f64_spacing(b));
}

/// A larger count never converts to a smaller `f64`.
pub proof fn lemma_f64_monotone(a: nat, b: nat)
    requires
        a <= b,
        b < 18446744073709551616,
    ensures
        f64_value(a) <= f64_value(b),
{
    let ka = lemma_spacing_bounds(a);
    let kb = lemma_spacing_bounds(b);
    lemma_spacing_monotone(a, b);
    let sa = f64_spacing(a);
    let sb = f64_spacing(b);
    let qa = round_half_even(a, sa);
    let qb = round_half_even(b, sb);
    if sa == sb {
        lemma_round_monotone(a, b, sa);
        assert(qa * sa <= qb * sa) by (nonlinear_arith) requires qa <= qb, sa >= 1;
    } else {
        lemma2_to64();
        lemma2_to64_rest();
        if kb <= ka {
            if kb < ka {
                lemma_pow2_strictly_increases(kb, ka);
            }
            assert(false);
        }
        if kb >= 12 {
            if kb > 12 {
                lemma_pow2_strictly_increases(12, kb);
            }
            assert(4503599627370496 * sb >= 4503599627370496 * 4096) by (nonlinear_arith)
                requires sb >= 4096;
            assert(false);
        }
        // The boundary where the spacing changes: 2^53 spacings of `a`.
        let m = pow2((53 + ka - kb) as nat);
        lemma_pow2_adds(53, ka);
        lemma_pow2_adds(kb, (53 + ka - kb) as nat);
        let bound = pow2(53) * sa;
        assert(bound == sb * m);
        lemma_pow2_adds(1, ka);
        lemma_pow2_adds(1, (kb - ka - 1) as nat);
        lemma_pow2_adds((ka + 1) as nat, (kb - ka - 1) as nat);
        assert(pow2((kb - ka - 1) as nat) >= 1) by {
            vstd::arithmetic::power2::lemma_pow2_pos((kb - ka - 1) as nat);
        }
        assert(sb >= 2 * sa) by (nonlinear_arith)
            requires sb == pow2(1) * sa * pow2((kb - ka - 1) as nat), pow2(1) == 2,
                pow2((kb - ka - 1) as nat) >= 1, sa >= 1;
        // `a` rounds to at most the boundary.
        vstd::arithmetic::div_mod::lemma_fundamental_div_mod(a as int, sa as int);
        vstd::arithmetic::div_mod::lemma_mod_pos_bound(a as int, sa as int);
        assert(a / sa < 9007199254740992) by (nonlinear_arith)
            requires a < 9007199254740992 * sa, a == sa * (a / sa) + a % sa, a % sa >= 0, sa >= 1;
        lemma_round_between(a, sa);
        assert(qa * sa <= bound) by (nonlinear_arith)
            requires qa <= 9007199254740992, bound == 9007199254740992 * sa, sa >= 1;
        // `b` rounds to at least the boundary.
        assert(b >= 9007199254740992) by {
            if b < 9007199254740992 {
                assert(sb == 1);
            }
        }
        assert(b >= sb * m) by (nonlinear_arith)
            requires 4503599627370496 * sb <= b, sb >= 2 * sa, bound == 9007199254740992 * sa,
                bound == sb * m;
        vstd::arithmetic::div_mod::lemma_fundamental_div_mod(b as int, sb as int);
        vstd::arithmetic::div_mod::lemma_mod_pos_bound(b as int, sb as int);
        assert(b / sb >= m) by (nonlinear_arith)
            requires b >= sb * m, b == sb * (b / sb) + b % sb, b % sb < sb, sb >= 1;
        lemma_round_between(b, sb);
        assert(qb * sb >= m * sb) by (nonlinear_arith) requires qb >= m, sb >= 1;
    }
}

/// A larger byte count never reads smaller: the amount shown (the number
/// times its unit) grows with the count, across unit changes too.
pub proof fn law_format_bytes_monotone(a: nat, b: nat)
    requires
        a <= b,
        b < 18446744073709551616,
    ensures
        shown_amount(a) <= shown_amount(b),
{
    let ua = unit_of(a);
    let ub = unit_of(b);
    lemma_f64_monotone(a, b);
    lemma_small_counts_exact(TB as nat);
    if ua == ub {
        if ua != ByteUnit::B {
            let u = unit_size(ua);
            lemma_round_monotone(f64_value(a) * 100, f64_value(b) * 100, u);
            let ha = hundredths(a, ua);
            let hb = hundredths(b, ub);
            assert(ha * u <= hb * u) by (nonlinear_arith) requires ha <= hb, u >= 1;
        }
    } else {
        // The count `a` reads at most 1024.00 in its unit, which is at most
        // 1.00 in the larger unit of `b`.
        let sa_unit = unit_size(ua);
        let sb_unit = unit_size(ub);
        assert(sb_unit >= 1024 * sa_unit);
        if ua == ByteUnit::B {
            assert(shown_amount(a) <= 102400 * sa_unit);
        } else {
            law_scaled_size_in_range(a);
            let ha = hundredths(a, ua);
            assert(ha * sa_unit <= 102400 * sa_unit) by (nonlinear_arith)
                requires ha <= 102400, sa_unit >= 1;
        }
        let hb = hundredths(b, ub);
        if ub == ByteUnit::TB {
            lemma_f64_monotone(TB as nat, b);
            lemma_round_monotone(f64_value(TB as nat) * 100, f64_value(b) * 100, TB as nat);
            assert(round_half_even(TB as nat * 100, TB as nat) == 100);
        } else {
            law_scaled_size_in_range(b);
        }
        assert(hb * sb_unit >= 100 * sb_unit) by (nonlinear_arith) requires hb >= 100, sb_unit >= 1;
    }
}

/// The amount shown is accurate to half a hundredth of the unit, plus the
/// rounding of the count to an `f64` (at most 1024 bytes, and none below
/// 2^53 bytes).
pub proof fn law_format_bytes_accuracy(b: nat)
    requires
        b < 18446744073709551616,
    ensures
        2 * (shown_amount(b) - 100 * b) <= unit_size(unit_of(b)) + 100 * f64_spacing(b),
        2 * (100 * b - shown_amount(b)) <= unit_size(unit_of(b)) + 100 * f64_spacing(b),
        f64_spacing(b) <= 2048,
        b < 9007199254740992 ==> f64_spacing(b) == 1,
{
    let k = lemma_spacing_bounds(b);
    let s = f64_spacing(b);
    lemma2_to64();
    lemma2_to64_rest();
    if k >= 12 {
        if k > 12 {
            lemma_pow2_strictly_increases(12, k);
        }
        assert(4503599627370496 * s >= 4503599627370496 * 4096) by (nonlinear_arith)
            requires s >= 4096;
    }
    if k < 11 {
        lemma_pow2_strictly_increases(k, 11);
    }
    let u = unit_of(b);
    if u != ByteUnit::B {
        let d = unit_size(u);
        let f = f64_value(b);
        lemma_f64_error(b);
        lemma_round_error(f * 100, d);
    }
}

/// Below a kibibyte a size is the plain count and ` B`; from there on it is
/// the count divided by the largest of 1024, 1024², 1024³ and 1024⁴ that it
/// reaches, in hundredths rounded to the nearest (ties to even), written with
/// two decimals and followed by ` KB`, ` MB`, ` GB` or ` TB`. (Counts from
/// 2^53 on are first rounded to an `f64`; see `law_format_bytes_accuracy`.)
pub proof fn law_bytes_text_units(b: nat)
    requires
        b < 9007199254740992,
    ensures
        b < 1024 ==> bytes_text(b) == decimal(b) + " B"@,
        1024 <= b < 1048576 ==> bytes_text(b) == two_decimals(round_half_even(b * 100, 1024)) + " KB"@,
        1048576 <= b < 1073741824 ==> bytes_text(b) == two_decimals(round_half_even(b * 100, 1048576))
            + " MB"@,
        1073741824 <= b < 1099511627776 ==> bytes_text(b) == two_decimals(
            round_half_even(b * 100, 1073741824),
        ) + " GB"@,
        1099511627776 <= b ==> bytes_text(b) == two_decimals(round_half_even(b * 100, 1099511627776))
            + " TB"@,
        forall|h: nat| #[trigger] two_decimals(h) == decimal(h / 100) + seq!['.', digit_char((h / 10) % 10), digit_char(h % 10)],
{
    lemma_small_counts_exact(b);
}

} // verus!
