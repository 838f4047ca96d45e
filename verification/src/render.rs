//! Plain-text rendering of numbers, times and addresses.
//!
//! Times arrive in whole microseconds and are shown as milliseconds
//! with three decimal places, which is exact. The success rate is shown
//! as a percentage with two decimal places, rounded half up.

use vstd::prelude::*;

verus! {

/// The character for one decimal digit value.
pub open spec fn spec_digit(d: int) -> char {
    if d == 0 {
        '0'
    } else if d == 1 {
        '1'
    } else if d == 2 {
        '2'
    } else if d == 3 {
        '3'
    } else if d == 4 {
        '4'
    } else if d == 5 {
        '5'
    } else if d == 6 {
        '6'
    } else if d == 7 {
        '7'
    } else if d == 8 {
        '8'
    } else {
        '9'
    }
}

/// The character for one hexadecimal digit value, lower case.
pub open spec fn spec_hex_digit(d: int) -> char {
    if d < 10 {
        spec_digit(d)
    } else if d == 10 {
        'a'
    } else if d == 11 {
        'b'
    } else if d == 12 {
        'c'
    } else if d == 13 {
        'd'
    } else if d == 14 {
        'e'
    } else {
        'f'
    }
}

/// The usual decimal writing of a non-negative integer: no sign, no
/// leading zeros, a single `0` for zero.
pub open spec fn spec_dec(n: int) -> Seq<char>
    decreases n,
{
    if n < 10 {
        seq![spec_digit(n)]
    } else {
        spec_dec(n / 10).push(spec_digit(n % 10))
    }
}

/// The hexadecimal writing of a non-negative integer, lower case, no
/// leading zeros.
pub open spec fn spec_hex(n: int) -> Seq<char>
    decreases n,
{
    if n < 16 {
        seq![spec_hex_digit(n)]
    } else {
        spec_hex(n / 16).push(spec_hex_digit(n % 16))
    }
}

/// Three decimal digits with leading zeros, for the fractional part of
/// a millisecond value.
pub open spec fn spec_pad3(n: int) -> Seq<char> {
    if n < 10 {
        seq!['0', '0'] + spec_dec(n)
    } else if n < 100 {
        seq!['0'] + spec_dec(n)
    } else {
        spec_dec(n)
    }
}

/// Two decimal digits with leading zeros, for the fractional part of a
/// percentage.
pub open spec fn spec_pad2(n: int) -> Seq<char> {
    if n < 10 {
        seq!['0'] + spec_dec(n)
    } else {
        spec_dec(n)
    }
}

/// A microsecond count written as milliseconds with exactly three
/// decimal places.
pub open spec fn spec_ms3(us: int) -> Seq<char> {
    spec_dec(us / 1000) + seq!['.'] + spec_pad3(us % 1000)
}

/// A count of hundredths written with two decimal places, as in a
/// percentage.
pub open spec fn spec_hundredths(h: int) -> Seq<char> {
    spec_dec(h / 100) + seq!['.'] + spec_pad2(h % 100)
}

/// Division rounding half up: `(a + b/2) / b`.
pub open spec fn spec_div_round(a: int, b: int) -> int {
    (a + b / 2) / b
}

/// The success rate in hundredths of a percent, rounded half up:
/// `successes * 100 / attempts` percent, to two decimal places.
pub open spec fn spec_rate_hundredths(successes: int, attempts: int) -> int {
    (successes * 100000 / attempts + 5) / 10
}

/// The decimal digit character for `d`.
fn digit_str(d: u64) -> (r: &'static str)
    requires
        d < 10,
    ensures
        r@ == seq![spec_digit(d as int)],
{
    proof {
        reveal_strlit("0");
        reveal_strlit("1");
        reveal_strlit("2");
        reveal_strlit("3");
        reveal_strlit("4");
        reveal_strlit("5");
        reveal_strlit("6");
        reveal_strlit("7");
        reveal_strlit("8");
        reveal_strlit("9");
    }
    if d == 0 {
        "0"
    } else if d == 1 {
        "1"
    } else if d == 2 {
        "2"
    } else if d == 3 {
        "3"
    } else if d == 4 {
        "4"
    } else if d == 5 {
        "5"
    } else if d == 6 {
        "6"
    } else if d == 7 {
        "7"
    } else if d == 8 {
        "8"
    } else {
        "9"
    }
}

/// The hexadecimal digit character for `d`, lower case.
fn hex_digit_str(d: u64) -> (r: &'static str)
    requires
        d < 16,
    ensures
        r@ == seq![spec_hex_digit(d as int)],
{
    proof {
        reveal_strlit("a");
        reveal_strlit("b");
        reveal_strlit("c");
        reveal_strlit("d");
        reveal_strlit("e");
        reveal_strlit("f");
    }
    if d < 10 {
        digit_str(d)
    } else if d == 10 {
        "a"
    } else if d == 11 {
        "b"
    } else if d == 12 {
        "c"
    } else if d == 13 {
        "d"
    } else if d == 14 {
        "e"
    } else {
        "f"
    }
}

/// Write `n` in decimal.
pub fn u64_to_dec(n: u64) -> (r: String)
    ensures
        r@ == spec_dec(n as int),
    decreases n,
{
    if n < 10 {
        digit_str(n).to_owned()
    } else {
        let mut s = u64_to_dec(n / 10);
        s.append(digit_str(n % 10));
        s
    }
}

/// Write `n` in lower-case hexadecimal.
pub fn u64_to_hex(n: u64) -> (r: String)
    ensures
        r@ == spec_hex(n as int),
    decreases n,
{
    if n < 16 {
        hex_digit_str(n).to_owned()
    } else {
        let mut s = u64_to_hex(n / 16);
        s.append(hex_digit_str(n % 16));
        s
    }
}

/// Write a microsecond count as milliseconds with three decimal places.
pub fn us_to_ms3(us: u64) -> (r: String)
    ensures
        r@ == spec_ms3(us as int),
{
    let mut s = u64_to_dec(us / 1000);
    s.append(".");
    proof {
        reveal_strlit(".");
        assert(s@ =~= spec_dec(us as int / 1000) + seq!['.']);
    }
    let frac = us % 1000;
    if frac < 10 {
        s.append("00");
        proof {
            reveal_strlit("00");
            assert("00"@ =~= seq!['0', '0']) by {
                reveal_strlit("0");
            }
        }
    } else if frac < 100 {
        s.append("0");
        proof {
            reveal_strlit("0");
            assert("0"@ =~= seq!['0']);
        }
    }
    let f = u64_to_dec(frac);
    s.append(f.as_str());
    proof {
        assert(s@ =~= spec_ms3(us as int));
    }
    s
}

/// Write a count of hundredths with two decimal places.
pub fn hundredths_to_dec2(h: u64) -> (r: String)
    ensures
        r@ == spec_hundredths(h as int),
{
    let mut s = u64_to_dec(h / 100);
    s.append(".");
    proof {
        reveal_strlit(".");
        assert(s@ =~= spec_dec(h as int / 100) + seq!['.']);
    }
    let frac = h % 100;
    if frac < 10 {
        s.append("0");
        proof {
            reveal_strlit("0");
            assert("0"@ =~= seq!['0']);
        }
    }
    let f = u64_to_dec(frac);
    s.append(f.as_str());
    proof {
        assert(s@ =~= spec_hundredths(h as int));
    }
    s
}

} // verus!
