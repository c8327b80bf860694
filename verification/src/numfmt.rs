//! Decimal rendering of the integer and fixed-point scalars that the
//! summary exposes as strings.

use vstd::prelude::*;

verus! {

/// The decimal digit character for a value in 0..=9.
pub open spec fn spec_digit(d: int) -> char {
    if d == 0 {
        '0'
    } else if d == 1 {
        '1'
    } else if d == 2 {
        '2'
    } else if d == 3 {
        '3'
    } else if d == 4 {
        '4'
    } else if d == 5 {
        '5'
    } else if d == 6 {
        '6'
    } else if d == 7 {
        '7'
    } else if d == 8 {
        '8'
    } else {
        '9'
    }
}

/// The decimal representation of a natural number: most significant digit
/// first, no leading zeros (a single '0' for zero).
pub open spec fn spec_u64_string(n: nat) -> Seq<char>
    decreases n,
{
    if n < 10 {
        seq![spec_digit(n as int)]
    } else {
        spec_u64_string(n / 10) + seq![spec_digit((n % 10) as int)]
    }
}

/// The decimal representation of an integer: a leading '-' for negatives.
pub open spec fn spec_i64_string(n: int) -> Seq<char> {
    if n < 0 {
        seq!['-'] + spec_u64_string((-n) as nat)
    } else {
        spec_u64_string(n as nat)
    }
}

fn digit_str(d: u64) -> (r: &'static str)
    requires
        d < 10,
    ensures
        r@ == seq![spec_digit(d as int)],
{
    proof {
        reveal_strlit("0");
        reveal_strlit("1");
        reveal_strlit("2");
        reveal_strlit("3");
        reveal_strlit("4");
        reveal_strlit("5");
        reveal_strlit("6");
        reveal_strlit("7");
        reveal_strlit("8");
        reveal_strlit("9");
    }
    let r = if d == 0 {
        "0"
    } else if d == 1 {
        "1"
    } else if d == 2 {
        "2"
    } else if d == 3 {
        "3"
    } else if d == 4 {
        "4"
    } else if d == 5 {
        "5"
    } else if d == 6 {
        "6"
    } else if d == 7 {
        "7"
    } else if d == 8 {
        "8"
    } else {
        "9"
    };
    proof {
        assert(r@ =~= seq![spec_digit(d as int)]);
    }
    r
}

/// Render a natural number in decimal.
pub fn u64_to_string(n: u64) -> (r: String)
    ensures
        r@ == spec_u64_string(n as nat),
    decreases n,
{
    if n < 10 {
        digit_str(n).to_owned()
    } else {
        let rest = u64_to_string(n / 10);
        rest.concat(digit_str(n % 10))
    }
}

/// Render a signed integer in decimal.
pub fn i64_to_string(n: i64) -> (r: String)
    ensures
        r@ == spec_i64_string(n as int),
{
    if n >= 0 {
        u64_to_string(n as u64)
    } else {
        let magnitude: u64 = if n == i64::MIN {
            9223372036854775808u64
        } else {
            (-n) as u64
        };
        proof {
            reveal_strlit("-");
            assert("-"@ =~= seq!['-']);
        }
        let sign: String = "-".to_owned();
        sign.concat(u64_to_string(magnitude).as_str())
    }
}

/// The fraction part of a fixed-point scalar: the thousandths rendered with
/// trailing zeros trimmed (at least one digit; `f` is in 1..=999).
pub open spec fn spec_frac_string(f: int) -> Seq<char> {
    if f % 10 != 0 {
        seq![spec_digit(f / 100), spec_digit((f / 10) % 10), spec_digit(f % 10)]
    } else if f % 100 != 0 {
        seq![spec_digit(f / 100), spec_digit((f / 10) % 10)]
    } else {
        seq![spec_digit(f / 100)]
    }
}

/// The decimal rendering of a fixed-point scalar held in thousandths:
/// the integer part, then a '.' and the trimmed fraction when it is nonzero.
pub open spec fn spec_millis_string(m: int) -> Seq<char> {
    let sign: Seq<char> = if m < 0 {
        seq!['-']
    } else {
        Seq::empty()
    };
    let a = if m < 0 {
        -m
    } else {
        m
    };
    if a % 1000 == 0 {
        sign + spec_u64_string((a / 1000) as nat)
    } else {
        sign + spec_u64_string((a / 1000) as nat) + seq!['.'] + spec_frac_string(a % 1000)
    }
}

/// Render a fixed-point scalar held in thousandths.
pub fn millis_to_string(m: i64) -> (r: String)
    ensures
        r@ == spec_millis_string(m as int),
{
    let a: u64 = if m < 0 {
        if m == i64::MIN {
            9223372036854775808u64
        } else {
            (-m) as u64
        }
    } else {
        m as u64
    };
    let whole = u64_to_string(a / 1000);
    let frac: u64 = a % 1000;
    let with_sign: String = if m < 0 {
        proof {
            reveal_strlit("-");
            assert("-"@ =~= seq!['-']);
        }
        "-".to_owned().concat(whole.as_str())
    } else {
        whole
    };
    if frac == 0 {
        with_sign
    } else {
        proof {
            reveal_strlit(".");
            assert("."@ =~= seq!['.']);
        }
        let dotted = with_sign.concat(".");
        if frac % 10 != 0 {
            dotted.concat(digit_str(frac / 100)).concat(digit_str((frac / 10) % 10)).concat(
                digit_str(frac % 10),
            )
        } else if frac % 100 != 0 {
            dotted.concat(digit_str(frac / 100)).concat(digit_str((frac / 10) % 10))
        } else {
            dotted.concat(digit_str(frac / 100))
        }
    }
}

} // verus!
