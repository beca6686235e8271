//! Rendering of integers and fixed-point quantities as decimal text, used by
//! result messages and by the SVG document builder.

use vstd::prelude::*;
use crate::geometry::round_ratio;

verus! {

/// Bytes per mebibyte.
pub const MIB: u64 = 1048576;

/// The character for one decimal digit.
pub open spec fn digit_char(d: int) -> char {
    if d == 0 {
        '0'
    } else if d == 1 {
        '1'
    } else if d == 2 {
        '2'
    } else if d == 3 {
        '3'
    } else if d == 4 {
        '4'
    } else if d == 5 {
        '5'
    } else if d == 6 {
        '6'
    } else if d == 7 {
        '7'
    } else if d == 8 {
        '8'
    } else {
        '9'
    }
}

/// The usual decimal rendering of a non-negative integer, without leading
/// zeros (a single zero for 0).
pub open spec fn dec_str(n: int) -> Seq<char>
    decreases n,
{
    if n < 10 {
        seq![digit_char(n)]
    } else {
        dec_str(n / 10) + seq![digit_char(n % 10)]
    }
}

/// `whole.frac` with exactly one fractional digit, for a quantity given in
/// tenths.
pub open spec fn tenths_str(t: int) -> Seq<char> {
    dec_str(t / 10) + seq!['.'] + seq![digit_char(t % 10)]
}

/// `whole.fracfrac` with exactly two fractional digits, for a quantity given
/// in hundredths.
pub open spec fn hundredths_str(h: int) -> Seq<char> {
    dec_str(h / 100) + seq!['.'] + seq![digit_char((h % 100) / 10)] + seq![digit_char(h % 10)]
}

/// A byte count in mebibytes, rounded to the nearest hundredth.
pub open spec fn mib_hundredths(bytes: int) -> int {
    round_ratio(bytes * 100, MIB as int)
}

/// A byte count in mebibytes, rounded to the nearest tenth.
pub open spec fn mib_tenths(bytes: int) -> int {
    round_ratio(bytes * 10, MIB as int)
}

/// The text for one digit.
fn digit_to_str(d: u64) -> (r: &'static str)
    requires
        d < 10,
    ensures
        r@ =~= seq![digit_char(d as int)],
{
    proof {
        reveal_strlit("0");
        reveal_strlit("1");
        reveal_strlit("2");
        reveal_strlit("3");
        reveal_strlit("4");
        reveal_strlit("5");
        reveal_strlit("6");
        reveal_strlit("7");
        reveal_strlit("8");
        reveal_strlit("9");
    }
    if d == 0 {
        "0"
    } else if d == 1 {
        "1"
    } else if d == 2 {
        "2"
    } else if d == 3 {
        "3"
    } else if d == 4 {
        "4"
    } else if d == 5 {
        "5"
    } else if d == 6 {
        "6"
    } else if d == 7 {
        "7"
    } else if d == 8 {
        "8"
    } else {
        "9"
    }
}

/// The decimal rendering of `n`.
pub fn u64_to_string(n: u64) -> (r: String)
    ensures
        r@ == dec_str(n as int),
    decreases n,
{
    if n < 10 {
        String::from_str(digit_to_str(n))
    } else {
        let high = u64_to_string(n / 10);
        let low = digit_to_str(n % 10);
        high.concat(low)
    }
}

/// Renders a quantity of tenths as `whole.frac`.
pub fn tenths_to_string(t: u64) -> (r: String)
    ensures
        r@ == tenths_str(t as int),
{
    proof {
        reveal_strlit(".");
    }
    let whole = u64_to_string(t / 10);
    whole.concat(".").concat(digit_to_str(t % 10))
}

/// Renders a quantity of hundredths as `whole.fracfrac`.
pub fn hundredths_to_string(h: u64) -> (r: String)
    ensures
        r@ == hundredths_str(h as int),
{
    proof {
        reveal_strlit(".");
    }
    let whole = u64_to_string(h / 100);
    whole.concat(".").concat(digit_to_str((h % 100) / 10)).concat(digit_to_str(h % 10))
}

/// Computes `mib_hundredths(bytes)` without overflow.
pub fn mib_hundredths_u64(bytes: u64) -> (r: u64)
    ensures
        r == mib_hundredths(bytes as int),
{
    proof {
        vstd::arithmetic::div_mod::lemma_div_pos_is_pos(
            2 * (bytes as int) * 100 + MIB as int,
            2 * (MIB as int),
        );
    }
    let wide: u128 = ((bytes as u128) * 200 + 1048576) / 2097152;
    proof {
        assert(2 * ((bytes as int) * 100) == (bytes as int) * 200) by (nonlinear_arith);
    }
    wide as u64
}

/// Computes `mib_tenths(bytes)` without overflow.
pub fn mib_tenths_u64(bytes: u64) -> (r: u64)
    ensures
        r == mib_tenths(bytes as int),
{
    proof {
        vstd::arithmetic::div_mod::lemma_div_pos_is_pos(
            2 * (bytes as int) * 10 + MIB as int,
            2 * (MIB as int),
        );
    }
    let wide: u128 = ((bytes as u128) * 20 + 1048576) / 2097152;
    proof {
        assert(2 * ((bytes as int) * 10) == (bytes as int) * 20) by (nonlinear_arith);
    }
    wide as u64
}

/// The compression ratio `100 * (1 - output/input)` in tenths of a percent,
/// rounded to nearest.
pub open spec fn ratio_tenths(input: int, output: int) -> int {
    round_ratio((input - output) * 1000, input)
}

/// Computes `ratio_tenths` without overflow.
pub fn ratio_tenths_u64(input: u64, output: u64) -> (r: u64)
    requires
        output < input,
    ensures
        r == ratio_tenths(input as int, output as int),
        r <= 1000,
{
    proof {
        crate::geometry::lemma_round_ratio_bounds((input - output) as int * 1000, input as int);
        assert(ratio_tenths(input as int, output as int) <= 1000) by {
            let a = (input - output) as int * 1000;
            let b = input as int;
            let q = round_ratio(a, b);
            assert(b * q <= a + b / 2);
            assert(a <= b * 1000) by (nonlinear_arith)
                requires
                    a == (input - output) as int * 1000,
                    output >= 0,
                    input as int - output as int <= b,
                    b == input as int,
            ;
            assert(b * q < b * 1001);
            assert(q <= 1000) by (nonlinear_arith)
                requires
                    b > 0,
                    b * q < b * 1001,
            ;
        }
    }
    let num: u128 = ((input - output) as u128) * 2000 + (input as u128);
    let wide: u128 = num / (2 * (input as u128));
    proof {
        assert(2 * ((input - output) as int * 1000) == (input - output) as int * 2000)
            by (nonlinear_arith);
        vstd::arithmetic::div_mod::lemma_div_pos_is_pos(
            (input - output) as int * 2000 + input as int,
            2 * (input as int),
        );
    }
    wide as u64
}

} // verus!
