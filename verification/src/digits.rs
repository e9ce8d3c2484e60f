//! Decimal rendering of integers, used to place ids inside endpoint URLs and
//! status codes inside error messages.

use vstd::prelude::*;
use vstd::string::StringExecFns;

verus! {

/// The character for one decimal digit.
pub open spec fn spec_digit_char(d: nat) -> char {
    if d == 0 {
        '0'
    } else if d == 1 {
        '1'
    } else if d == 2 {
        '2'
    } else if d == 3 {
        '3'
    } else if d == 4 {
        '4'
    } else if d == 5 {
        '5'
    } else if d == 6 {
        '6'
    } else if d == 7 {
        '7'
    } else if d == 8 {
        '8'
    } else {
        '9'
    }
}

/// The decimal text of an unsigned number, most significant digit first, with
/// no leading zeroes (a single zero for zero itself).
pub open spec fn spec_u64_text(n: nat) -> Seq<char>
    decreases n,
{
    if n < 10 {
        seq![spec_digit_char(n)]
    } else {
        spec_u64_text(n / 10).push(spec_digit_char(n % 10))
    }
}

/// The decimal text of a signed number: the magnitude, preceded by a minus
/// sign when negative.
pub open spec fn spec_i64_text(n: int) -> Seq<char> {
    if n < 0 {
        seq!['-'] + spec_u64_text((-n) as nat)
    } else {
        spec_u64_text(n as nat)
    }
}

/// One digit as a string slice.
fn digit_str(d: u64) -> (r: &'static str)
    requires
        d < 10,
    ensures
        r@ == seq![spec_digit_char(d as nat)],
{
    proof {
        reveal_strlit("0");
        reveal_strlit("1");
        reveal_strlit("2");
        reveal_strlit("3");
        reveal_strlit("4");
        reveal_strlit("5");
        reveal_strlit("6");
        reveal_strlit("7");
        reveal_strlit("8");
        reveal_strlit("9");
    }
    let r: &'static str = match d {
        0 => "0",
        1 => "1",
        2 => "2",
        3 => "3",
        4 => "4",
        5 => "5",
        6 => "6",
        7 => "7",
        8 => "8",
        _ => "9",
    };
    proof {
        assert(r@ =~= seq![spec_digit_char(d as nat)]);
    }
    r
}

/// Appends the decimal text of `n` to `s`.
pub fn push_u64_text(s: &mut String, n: u64)
    ensures
        final(s)@ == old(s)@ + spec_u64_text(n as nat),
    decreases n,
{
    if n >= 10 {
        push_u64_text(s, n / 10);
    }
    let d = digit_str(n % 10);
    s.append(d);
    proof {
        if n < 10 {
            assert(final(s)@ =~= old(s)@ + spec_u64_text(n as nat));
        } else {
            assert(spec_u64_text(n as nat) == spec_u64_text(n as nat / 10).push(
                spec_digit_char(n as nat % 10),
            ));
            assert(final(s)@ =~= old(s)@ + spec_u64_text(n as nat));
        }
    }
}

/// Appends the decimal text of `n` to `s`, with a minus sign when negative.
pub fn push_i64_text(s: &mut String, n: i64)
    ensures
        final(s)@ == old(s)@ + spec_i64_text(n as int),
{
    if n >= 0 {
        push_u64_text(s, n as u64);
    } else {
        proof {
            reveal_strlit("-");
        }
        s.append("-");
        // The magnitude of `n`, computed without overflowing at the minimum
        // value: -(n + 1) fits in i64, and adding the 1 back fits in u64.
        let m: u64 = ((-(n + 1)) as u64) + 1;
        assert(m as nat == (-(n as int)) as nat);
        push_u64_text(s, m);
        proof {
            assert("-"@ =~= seq!['-']);
            assert(final(s)@ =~= old(s)@ + spec_i64_text(n as int));
        }
    }
}

/// The decimal text of an unsigned number as an owned string.
pub fn u64_text(n: u64) -> (r: String)
    ensures
        r@ == spec_u64_text(n as nat),
{
    let mut s = String::new();
    push_u64_text(&mut s, n);
    proof {
        assert(s@ =~= spec_u64_text(n as nat));
    }
    s
}

/// The decimal text of a signed number as an owned string.
pub fn i64_text(n: i64) -> (r: String)
    ensures
        r@ == spec_i64_text(n as int),
{
    let mut s = String::new();
    push_i64_text(&mut s, n);
    proof {
        assert(s@ =~= spec_i64_text(n as int));
    }
    s
}

} // verus!
