//! Decimal rendering of integers, used for the millisecond timestamp that
//! appears both in the canonical signing string and in the
//! `kc-api-timestamp` header.

use vstd::prelude::*;
use vstd::string::StringExecFns;

verus! {

/// The character for a single decimal digit value.
pub open spec fn dec_digit_char(d: nat) -> char {
    if d == 0 {
        '0'
    } else if d == 1 {
        '1'
    } else if d == 2 {
        '2'
    } else if d == 3 {
        '3'
    } else if d == 4 {
        '4'
    } else if d == 5 {
        '5'
    } else if d == 6 {
        '6'
    } else if d == 7 {
        '7'
    } else if d == 8 {
        '8'
    } else {
        '9'
    }
}

/// The usual decimal rendering of a natural number, without leading zeros
/// (a lone zero for zero itself).
pub open spec fn dec_str_of(n: nat) -> Seq<char>
    decreases n,
{
    if n < 10 {
        seq![dec_digit_char(n)]
    } else {
        dec_str_of(n / 10).push(dec_digit_char(n % 10))
    }
}

/// The decimal rendering of a (possibly negative) integer: a minus sign
/// followed by the magnitude when negative.
pub open spec fn dec_int_str_of(n: int) -> Seq<char> {
    if n >= 0 {
        dec_str_of(n as nat)
    } else {
        seq!['-'] + dec_str_of((-n) as nat)
    }
}

/// Whether a character is a decimal digit.
pub open spec fn is_dec_digit_char(c: char) -> bool {
    c == '0' || c == '1' || c == '2' || c == '3' || c == '4' || c == '5' || c == '6' || c == '7'
        || c == '8' || c == '9'
}

fn dec_digit_str(d: u64) -> (r: &'static str)
    requires
        d < 10,
    ensures
        r@ == seq![dec_digit_char(d as nat)],
{
    proof {
        reveal_strlit("0");
        reveal_strlit("1");
        reveal_strlit("2");
        reveal_strlit("3");
        reveal_strlit("4");
        reveal_strlit("5");
        reveal_strlit("6");
        reveal_strlit("7");
        reveal_strlit("8");
        reveal_strlit("9");
    }
    let r = match d {
        0 => "0",
        1 => "1",
        2 => "2",
        3 => "3",
        4 => "4",
        5 => "5",
        6 => "6",
        7 => "7",
        8 => "8",
        _ => "9",
    };
    proof {
        assert(r@ =~= seq![dec_digit_char(d as nat)]);
    }
    r
}

/// Renders an unsigned integer in decimal.
pub fn u64_to_dec(n: u64) -> (r: String)
    ensures
        r@ == dec_str_of(n as nat),
    decreases n,
{
    if n < 10 {
        dec_digit_str(n).to_owned()
    } else {
        let prefix = u64_to_dec(n / 10);
        let r = prefix.concat(dec_digit_str(n % 10));
        proof {
            assert(r@ =~= dec_str_of(n as nat));
        }
        r
    }
}

/// Renders a signed integer in decimal, with a leading minus sign when
/// negative.
pub fn i64_to_dec(n: i64) -> (r: String)
    ensures
        r@ == dec_int_str_of(n as int),
{
    if n >= 0 {
        u64_to_dec(n as u64)
    } else {
        let mag: u64 = if n == i64::MIN {
            9223372036854775808
        } else {
            (-n) as u64
        };
        proof {
            reveal_strlit("-");
        }
        let r = "-".to_owned().concat(u64_to_dec(mag).as_str());
        proof {
            assert(r@ =~= dec_int_str_of(n as int));
        }
        r
    }
}

} // verus!
