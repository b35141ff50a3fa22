//! Decimal text of the integers and fixed-point centi values the library
//! reports: plain base-ten digits, and a fraction only where it is nonzero.

use vstd::prelude::*;

verus! {

use vstd::string::StringExecFns;

/// The digit character of one value below ten.
pub open spec fn spec_digit_char(d: nat) -> char {
    if d == 0 {
        '0'
    } else if d == 1 {
        '1'
    } else if d == 2 {
        '2'
    } else if d == 3 {
        '3'
    } else if d == 4 {
        '4'
    } else if d == 5 {
        '5'
    } else if d == 6 {
        '6'
    } else if d == 7 {
        '7'
    } else if d == 8 {
        '8'
    } else {
        '9'
    }
}

/// The decimal text of a natural number, most significant digit first, with
/// no leading zeroes except on zero itself.
pub open spec fn spec_dec_text(n: nat) -> Seq<char>
    decreases n,
{
    if n < 10 {
        seq![spec_digit_char(n)]
    } else {
        spec_dec_text(n / 10) + seq![spec_digit_char(n % 10)]
    }
}

/// The text of a fixed-point centi value: the whole part, then a fraction
/// only if it is nonzero — one digit when the hundredths digit is zero, two
/// otherwise.
pub open spec fn spec_centi_text(c: nat) -> Seq<char> {
    let whole = c / 100;
    let fraction = c % 100;
    if fraction == 0 {
        spec_dec_text(whole)
    } else if fraction % 10 == 0 {
        spec_dec_text(whole) + seq!['.', spec_digit_char(fraction / 10)]
    } else {
        spec_dec_text(whole) + seq![
            '.',
            spec_digit_char(fraction / 10),
            spec_digit_char(fraction % 10),
        ]
    }
}

/// The text of a signed fixed-point centi value.
pub open spec fn spec_centi_text_signed(c: int) -> Seq<char> {
    if c < 0 {
        seq!['-'] + spec_centi_text((-c) as nat)
    } else {
        spec_centi_text(c as nat)
    }
}

fn digit_str(d: u64) -> (r: &'static str)
    requires
        d < 10,
    ensures
        r@ == seq![spec_digit_char(d as nat)],
{
    proof {
        reveal_strlit("0");
        reveal_strlit("1");
        reveal_strlit("2");
        reveal_strlit("3");
        reveal_strlit("4");
        reveal_strlit("5");
        reveal_strlit("6");
        reveal_strlit("7");
        reveal_strlit("8");
        reveal_strlit("9");
    }
    let r: &'static str = if d == 0 {
        "0"
    } else if d == 1 {
        "1"
    } else if d == 2 {
        "2"
    } else if d == 3 {
        "3"
    } else if d == 4 {
        "4"
    } else if d == 5 {
        "5"
    } else if d == 6 {
        "6"
    } else if d == 7 {
        "7"
    } else if d == 8 {
        "8"
    } else {
        "9"
    };
    proof {
        assert(r@ =~= seq![spec_digit_char(d as nat)]);
    }
    r
}

/// The decimal text of a value.
pub fn dec_to_string(n: u64) -> (r: String)
    ensures
        r@ == spec_dec_text(n as nat),
    decreases n,
{
    if n < 10 {
        String::from_str(digit_str(n))
    } else {
        let mut prefix = dec_to_string(n / 10);
        prefix.append(digit_str(n % 10));
        prefix
    }
}

/// The text of a fixed-point centi value.
pub fn centi_to_string(c: u64) -> (r: String)
    ensures
        r@ == spec_centi_text(c as nat),
{
    let whole = c / 100;
    let fraction = c % 100;
    let mut out = dec_to_string(whole);
    if fraction == 0 {
    } else if fraction % 10 == 0 {
        out.append(".");
        out.append(digit_str(fraction / 10));
        proof {
            reveal_strlit(".");
            assert(out@ =~= spec_centi_text(c as nat));
        }
    } else {
        out.append(".");
        out.append(digit_str(fraction / 10));
        out.append(digit_str(fraction % 10));
        proof {
            reveal_strlit(".");
            assert(out@ =~= spec_centi_text(c as nat));
        }
    }
    out
}

/// The text of a signed fixed-point centi value.
pub fn centi_signed_to_string(c: i64) -> (r: String)
    ensures
        r@ == spec_centi_text_signed(c as int),
{
    if c >= 0 {
        centi_to_string(c as u64)
    } else {
        let magnitude: u64 = ((-(c + 1)) as u64) + 1;
        assert(magnitude == (-(c as int)) as u64);
        let mut out = String::from_str("-");
        out.append(centi_to_string(magnitude).as_str());
        proof {
            reveal_strlit("-");
            assert(out@ =~= spec_centi_text_signed(c as int));
        }
        out
    }
}

} // verus!
