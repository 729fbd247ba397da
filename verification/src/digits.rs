//! Decimal rendering of the integer values that appear in the wire format:
//! metric values, timestamps, the sink port, and the parsed date bounds.

use vstd::prelude::*;
use vstd::string::StringExecFns;

verus! {

/// The character for one decimal digit.
pub open spec fn digit_char(d: int) -> char {
    if d == 0 {
        '0'
    } else if d == 1 {
        '1'
    } else if d == 2 {
        '2'
    } else if d == 3 {
        '3'
    } else if d == 4 {
        '4'
    } else if d == 5 {
        '5'
    } else if d == 6 {
        '6'
    } else if d == 7 {
        '7'
    } else if d == 8 {
        '8'
    } else {
        '9'
    }
}

/// The decimal rendering of a natural number, most significant digit first,
/// with no leading zeros (a single zero for the value zero).
pub open spec fn dec_spec(n: nat) -> Seq<char>
    decreases n,
{
    if n < 10 {
        seq![digit_char(n as int)]
    } else {
        dec_spec(n / 10).push(digit_char((n % 10) as int))
    }
}

/// The decimal rendering of an integer: a minus sign before the magnitude
/// for negative values.
pub open spec fn dec_signed_spec(n: int) -> Seq<char> {
    if n < 0 {
        seq!['-'] + dec_spec((-n) as nat)
    } else {
        dec_spec(n as nat)
    }
}

pub open spec fn is_digit_char(c: char) -> bool {
    48 <= c as int && c as int <= 57
}

/// Every character of a decimal rendering is a digit.
pub proof fn lemma_dec_digits(n: nat)
    ensures
        dec_spec(n).len() >= 1,
        forall|i: int| 0 <= i < dec_spec(n).len() ==> is_digit_char(#[trigger] dec_spec(n)[i]),
    decreases n,
{
    if n >= 10 {
        lemma_dec_digits(n / 10);
    }
}

fn append_digit(buf: &mut String, d: u64)
    requires
        d < 10,
    ensures
        final(buf)@ == old(buf)@ + seq![digit_char(d as int)],
{
    if d == 0 {
        buf.append("0");
        proof {
            reveal_strlit("0");
            assert(buf@ =~= old(buf)@ + seq![digit_char(d as int)]);
        }
    } else if d == 1 {
        buf.append("1");
        proof {
            reveal_strlit("1");
            assert(buf@ =~= old(buf)@ + seq![digit_char(d as int)]);
        }
    } else if d == 2 {
        buf.append("2");
        proof {
            reveal_strlit("2");
            assert(buf@ =~= old(buf)@ + seq![digit_char(d as int)]);
        }
    } else if d == 3 {
        buf.append("3");
        proof {
            reveal_strlit("3");
            assert(buf@ =~= old(buf)@ + seq![digit_char(d as int)]);
        }
    } else if d == 4 {
        buf.append("4");
        proof {
            reveal_strlit("4");
            assert(buf@ =~= old(buf)@ + seq![digit_char(d as int)]);
        }
    } else if d == 5 {
        buf.append("5");
        proof {
            reveal_strlit("5");
            assert(buf@ =~= old(buf)@ + seq![digit_char(d as int)]);
        }
    } else if d == 6 {
        buf.append("6");
        proof {
            reveal_strlit("6");
            assert(buf@ =~= old(buf)@ + seq![digit_char(d as int)]);
        }
    } else if d == 7 {
        buf.append("7");
        proof {
            reveal_strlit("7");
            assert(buf@ =~= old(buf)@ + seq![digit_char(d as int)]);
        }
    } else if d == 8 {
        buf.append("8");
        proof {
            reveal_strlit("8");
            assert(buf@ =~= old(buf)@ + seq![digit_char(d as int)]);
        }
    } else {
        buf.append("9");
        proof {
            reveal_strlit("9");
            assert(buf@ =~= old(buf)@ + seq![digit_char(d as int)]);
        }
    }
}

/// Appends the decimal rendering of `n` to `buf`.
pub fn append_dec(buf: &mut String, n: u64)
    ensures
        final(buf)@ == old(buf)@ + dec_spec(n as nat),
    decreases n,
{
    if n < 10 {
        append_digit(buf, n);
    } else {
        append_dec(buf, n / 10);
        append_digit(buf, n % 10);
        proof {
            assert(buf@ =~= old(buf)@ + dec_spec(n as nat));
        }
    }
}

/// Appends the decimal rendering of a signed value to `buf`.
pub fn append_dec_signed(buf: &mut String, n: i64)
    requires
        n != i64::MIN,
    ensures
        final(buf)@ == old(buf)@ + dec_signed_spec(n as int),
{
    if n < 0 {
        buf.append("-");
        append_dec(buf, (-n) as u64);
        proof {
            reveal_strlit("-");
            assert(buf@ =~= old(buf)@ + dec_signed_spec(n as int));
        }
    } else {
        append_dec(buf, n as u64);
    }
}

/// The decimal rendering of `n` as a fresh string.
pub fn dec_string(n: u64) -> (r: String)
    ensures
        r@ == dec_spec(n as nat),
{
    let mut buf = String::new();
    append_dec(&mut buf, n);
    proof {
        assert(buf@ =~= dec_spec(n as nat));
    }
    buf
}

} // verus!
