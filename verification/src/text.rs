//! Verified construction of decimal text: unsigned and signed integers, and
//! two-decimal fixed-point values (used where a statistic is kept in
//! hundredths), plus round-half-up division on the scaled values.

use vstd::prelude::*;
use vstd::string::StringExecFns;

verus! {

pub open spec fn spec_digit(d: int) -> char {
    if d == 0 {
        '0'
    } else if d == 1 {
        '1'
    } else if d == 2 {
        '2'
    } else if d == 3 {
        '3'
    } else if d == 4 {
        '4'
    } else if d == 5 {
        '5'
    } else if d == 6 {
        '6'
    } else if d == 7 {
        '7'
    } else if d == 8 {
        '8'
    } else {
        '9'
    }
}

/// Decimal digits of a non-negative number, most significant first.
pub open spec fn spec_udec(n: int) -> Seq<char>
    decreases n,
{
    if n < 10 {
        seq![spec_digit(n)]
    } else {
        spec_udec(n / 10).push(spec_digit(n % 10))
    }
}

/// Decimal text of a signed number: a leading minus sign when negative.
pub open spec fn spec_idec(n: int) -> Seq<char> {
    if n < 0 {
        seq!['-'] + spec_udec(-n)
    } else {
        spec_udec(n)
    }
}

/// Text of a value kept in hundredths, written with exactly two decimal
/// places: `1234` reads `12.34`.
pub open spec fn spec_dec2(h: int) -> Seq<char> {
    spec_udec(h / 100) + seq!['.', spec_digit((h % 100) / 10), spec_digit(h % 10)]
}

/// `a / b` rounded half up: halves round away from zero for non-negative
/// operands.
pub open spec fn spec_round_div(a: int, b: int) -> int
    recommends
        0 <= a,
        0 < b,
{
    (2 * a + b) / (2 * b)
}

fn digit_str(d: u64) -> (r: &'static str)
    requires
        d < 10,
    ensures
        r@ =~= seq![spec_digit(d as int)],
{
    proof {
        reveal_strlit("0");
        reveal_strlit("1");
        reveal_strlit("2");
        reveal_strlit("3");
        reveal_strlit("4");
        reveal_strlit("5");
        reveal_strlit("6");
        reveal_strlit("7");
        reveal_strlit("8");
        reveal_strlit("9");
    }
    match d {
        0 => "0",
        1 => "1",
        2 => "2",
        3 => "3",
        4 => "4",
        5 => "5",
        6 => "6",
        7 => "7",
        8 => "8",
        _ => "9",
    }
}

pub fn u64_to_string(n: u64) -> (r: String)
    ensures
        r@ == spec_udec(n as int),
    decreases n,
{
    if n < 10 {
        String::from_str(digit_str(n))
    } else {
        let mut s = u64_to_string(n / 10);
        s.append(digit_str(n % 10));
        proof {
            assert(s@ =~= spec_udec(n as int));
        }
        s
    }
}

pub fn i64_to_string(n: i64) -> (r: String)
    ensures
        r@ == spec_idec(n as int),
{
    if n >= 0 {
        u64_to_string(n as u64)
    } else {
        let m: u64 = ((-(n + 1)) as u64) + 1;
        proof {
            reveal_strlit("-");
        }
        let mut s = String::from_str("-");
        let tail = u64_to_string(m);
        s.append(tail.as_str());
        proof {
            assert(m == -(n as int));
            assert(s@ =~= spec_idec(n as int));
        }
        s
    }
}

/// Two-decimal text of a value kept in hundredths.
pub fn hundredths_to_string(h: u64) -> (r: String)
    ensures
        r@ == spec_dec2(h as int),
{
    proof {
        reveal_strlit(".");
    }
    let mut s = u64_to_string(h / 100);
    s.append(".");
    s.append(digit_str((h % 100) / 10));
    s.append(digit_str(h % 10));
    proof {
        assert((h as int % 100) / 10 == ((h / 100) as int * 100 + h as int % 100) % 100 / 10);
        assert(s@ =~= spec_dec2(h as int));
    }
    s
}

/// Character-by-character string equality.
pub fn str_eq(a: &str, b: &str) -> (r: bool)
    ensures
        r == (a@ == b@),
{
    let n = a.unicode_len();
    let m = b.unicode_len();
    if n != m {
        proof {
            assert(a@.len() != b@.len());
        }
        return false;
    }
    let mut i: usize = 0;
    while i < n
        invariant
            n == a@.len(),
            n == b@.len(),
            0 <= i <= n,
            forall|j: int| 0 <= j < i ==> a@[j] == b@[j],
        decreases n - i,
    {
        if a.get_char(i) != b.get_char(i) {
            proof {
                assert(a@[i as int] != b@[i as int]);
            }
            return false;
        }
        i = i + 1;
    }
    proof {
        assert(a@ =~= b@);
    }
    true
}

pub fn round_div_half_up(a: u64, b: u64) -> (r: u64)
    requires
        1 <= b,
    ensures
        r == spec_round_div(a as int, b as int),
        r <= a,
{
    let wide: u128 = (2 * (a as u128) + (b as u128)) / (2 * (b as u128));
    proof {
        assert(wide == spec_round_div(a as int, b as int));
        assert(spec_round_div(a as int, b as int) <= a as int) by {
            vstd::arithmetic::div_mod::lemma_div_is_ordered(
                2 * (a as int) + b as int,
                2 * (a as int) + b as int,
                2 * (b as int),
            );
            assert((2 * (a as int) + b as int) / (2 * (b as int)) <= a as int) by (nonlinear_arith)
                requires
                    0 <= a as int,
                    1 <= b as int,
            ;
        }
    }
    wide as u64
}

} // verus!
