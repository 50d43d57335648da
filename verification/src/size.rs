//! Sizes as the user reads them: decimal numbers, sizes in binary units, and
//! the ratio of two sizes in percent.

use vstd::prelude::*;

verus! {

/// Bytes in a kilobyte.
pub const KB: u64 = 1024;

/// Bytes in a megabyte.
pub const MB: u64 = 1048576;

/// Bytes in a gigabyte.
pub const GB: u64 = 1073741824;

/// The first whole number that a floating-point number of double precision
/// cannot tell from its neighbour: two to the power 53.
pub const EXACT_LIMIT: u64 = 0x20_0000_0000_0000;

/// The character of the decimal digit `d`.
pub open spec fn digit_char(d: nat) -> char {
    ('0' as nat + d) as char
}

/// `n` in decimal digits, without leading zeros.
pub open spec fn decimal(n: nat) -> Seq<char>
    decreases n,
{
    if n < 10 {
        seq![digit_char(n)]
    } else {
        decimal(n / 10).push(digit_char(n % 10))
    }
}

/// The whole number nearest to `a / b`; of two that are equally near, the
/// even one.
pub open spec fn round_half_even(a: nat, b: nat) -> nat
    recommends
        b > 0,
{
    let q = a / b;
    let r = a % b;
    if 2 * r > b || (2 * r == b && q % 2 == 1) {
        q + 1
    } else {
        q
    }
}

/// The distance between neighbouring floating-point numbers of double
/// precision at `n`: one up to two to the power 53, and twice as much each
/// time `n` doubles from there.
pub open spec fn float_step(n: nat) -> nat
    decreases n,
{
    if n < EXACT_LIMIT {
        1
    } else {
        2 * float_step(n / 2)
    }
}

/// The floating-point number of double precision that stands for `n`: the
/// nearest one, and of two that are equally near the one with the even
/// mantissa.
pub open spec fn as_float(n: nat) -> nat {
    round_half_even(n, float_step(n)) * float_step(n)
}

/// A number of hundredths, written with two decimal places.
pub open spec fn two_places(hundredths: nat) -> Seq<char> {
    decimal(hundredths / 100) + seq![
        '.',
        digit_char(hundredths / 10 % 10),
        digit_char(hundredths % 10),
    ]
}

/// `bytes` in units of `unit` bytes, with two decimal places: the size is
/// taken as a floating-point number of double precision and the quotient
/// rounded to the nearest hundredth, to the even one of two equally near.
pub open spec fn in_unit(bytes: nat, unit: nat) -> Seq<char> {
    two_places(round_half_even(as_float(bytes) * 100, unit))
}

/// A size as the user reads it: in the largest binary unit that it reaches,
/// with two decimal places, or in bytes below one kilobyte.
pub open spec fn formatted_bytes(bytes: u64) -> Seq<char> {
    if bytes >= GB {
        in_unit(bytes as nat, GB as nat) + " GB"@
    } else if bytes >= MB {
        in_unit(bytes as nat, MB as nat) + " MB"@
    } else if bytes >= KB {
        in_unit(bytes as nat, KB as nat) + " KB"@
    } else {
        decimal(bytes as nat) + " bytes"@
    }
}

/// The size of the output in percent of the size of the input, rounded to
/// the nearest whole number, a half upwards; 100 where the input is empty.
pub open spec fn ratio(original_size: u64, output_size: u64) -> nat {
    if original_size > 0 {
        ((200 * output_size + original_size) / (2 * original_size)) as nat
    } else {
        100
    }
}

/// The decimal digit `d` as a string.
fn digit_str(d: u8) -> (s: &'static str)
    requires
        d < 10,
    ensures
        s@ == seq![digit_char(d as nat)],
{
    proof {
        reveal_strlit("0");
        reveal_strlit("1");
        reveal_strlit("2");
        reveal_strlit("3");
        reveal_strlit("4");
        reveal_strlit("5");
        reveal_strlit("6");
        reveal_strlit("7");
        reveal_strlit("8");
        reveal_strlit("9");
    }
    let s = match d {
        0 => "0",
        1 => "1",
        2 => "2",
        3 => "3",
        4 => "4",
        5 => "5",
        6 => "6",
        7 => "7",
        8 => "8",
        _ => "9",
    };
    s
}

/// `n` in decimal digits.
pub fn decimal_string(n: u128) -> (s: String)
    ensures
        s@ == decimal(n as nat),
    decreases n,
{
    if n < 10 {
        String::from_str(digit_str(n as u8))
    } else {
        let head = decimal_string(n / 10);
        let both = head.concat(digit_str((n % 10) as u8));
        both
    }
}

/// The whole number nearest to `a / b`; of two that are equally near, the
/// even one.
fn round_div(a: u128, b: u128) -> (q: u128)
    requires
        0 < b <= 0x8000_0000,
        a <= 0xffff_ffff_ffff_ffff_ffff_ffff,
    ensures
        q == round_half_even(a as nat, b as nat),
        q <= a + 1,
{
    let q = a / b;
    let r = a % b;
    assert(q <= a) by (nonlinear_arith)
        requires
            q == a / b,
            b > 0,
    ;
    if 2 * r > b || (2 * r == b && q % 2 == 1) {
        q + 1
    } else {
        q
    }
}

/// The distance between neighbouring floating-point numbers at `n`.
fn step_at(n: u64) -> (step: u64)
    ensures
        step == float_step(n as nat),
        1 <= step <= 2048,
{
    proof {
        reveal_with_fuel(float_step, 13);
    }
    if n < EXACT_LIMIT {
        1
    } else if n < 0x40_0000_0000_0000 {
        2
    } else if n < 0x80_0000_0000_0000 {
        4
    } else if n < 0x100_0000_0000_0000 {
        8
    } else if n < 0x200_0000_0000_0000 {
        16
    } else if n < 0x400_0000_0000_0000 {
        32
    } else if n < 0x800_0000_0000_0000 {
        64
    } else if n < 0x1000_0000_0000_0000 {
        128
    } else if n < 0x2000_0000_0000_0000 {
        256
    } else if n < 0x4000_0000_0000_0000 {
        512
    } else if n < 0x8000_0000_0000_0000 {
        1024
    } else {
        2048
    }
}

/// The floating-point number of double precision that stands for `n`.
fn float_of(n: u64) -> (f: u128)
    ensures
        f == as_float(n as nat),
        f <= 0x1_0000_0000_0000_0800,
{
    let step = step_at(n) as u128;
    let q = round_div(n as u128, step);
    proof {
        let d = (n as int) / (step as int);
        let r = (n as int) % (step as int);
        assert(n == d * step + r && 0 <= r < step) by (nonlinear_arith)
            requires
                d == (n as int) / (step as int),
                r == (n as int) % (step as int),
                step > 0,
        ;
        assert((d + 1) * step == d * step + step) by (nonlinear_arith);
    }
    q * step
}

/// A number of hundredths, written with two decimal places.
fn two_places_string(hundredths: u128) -> (s: String)
    ensures
        s@ == two_places(hundredths as nat),
{
    let whole = decimal_string(hundredths / 100);
    let s = whole.concat(".").concat(digit_str((hundredths / 10 % 10) as u8)).concat(
        digit_str((hundredths % 10) as u8),
    );
    proof {
        reveal_strlit(".");
    }
    s
}

/// A size as the user reads it: in gigabytes, megabytes or kilobytes with two
/// decimal places, or in bytes below one kilobyte.
pub fn format_bytes(bytes: u64) -> (s: String)
    ensures
        s@ == formatted_bytes(bytes),
{
    if bytes >= GB {
        let h = round_div(float_of(bytes) * 100, GB as u128);
        two_places_string(h).concat(" GB")
    } else if bytes >= MB {
        let h = round_div(float_of(bytes) * 100, MB as u128);
        two_places_string(h).concat(" MB")
    } else if bytes >= KB {
        let h = round_div(float_of(bytes) * 100, KB as u128);
        two_places_string(h).concat(" KB")
    } else {
        decimal_string(bytes as u128).concat(" bytes")
    }
}

/// The size of the output in percent of the size of the input, rounded to
/// the nearest whole number; 100 where the input is empty.
pub fn ratio_percent(original_size: u64, output_size: u64) -> (percent: u128)
    ensures
        percent == ratio(original_size, output_size),
        original_size == 0 ==> percent == 100,
{
    if original_size > 0 {
        (200 * (output_size as u128) + original_size as u128) / (2 * (original_size as u128))
    } else {
        100
    }
}

} // verus!
