//! Decimal rendering of integers, as `to_string` and `{:02}` print them.
use vstd::prelude::*;
use vstd::string::*;

verus! {

/// The character of a decimal digit `d` (`0 <= d < 10`).
pub open spec fn digit_char(d: int) -> char {
    if d == 0 {
        '0'
    } else if d == 1 {
        '1'
    } else if d == 2 {
        '2'
    } else if d == 3 {
        '3'
    } else if d == 4 {
        '4'
    } else if d == 5 {
        '5'
    } else if d == 6 {
        '6'
    } else if d == 7 {
        '7'
    } else if d == 8 {
        '8'
    } else {
        '9'
    }
}

/// The decimal digits of `n`, most significant first, without leading zeros.
pub open spec fn decimal(n: nat) -> Seq<char>
    decreases n,
{
    if n < 10 {
        seq![digit_char(n as int)]
    } else {
        decimal(n / 10).push(digit_char((n % 10) as int))
    }
}

/// `n` in decimal, with a leading `-` when it is negative.
pub open spec fn signed_decimal(n: int) -> Seq<char> {
    if n < 0 {
        seq!['-'] + decimal((-n) as nat)
    } else {
        decimal(n as nat)
    }
}

/// `n` in decimal, padded with zeros on the left to at least two characters.
pub open spec fn two_digits(n: nat) -> Seq<char> {
    if n < 10 {
        seq!['0'] + decimal(n)
    } else {
        decimal(n)
    }
}

/// The value of a decimal digit character.
pub open spec fn digit_value(c: char) -> nat {
    if c == '0' {
        0
    } else if c == '1' {
        1
    } else if c == '2' {
        2
    } else if c == '3' {
        3
    } else if c == '4' {
        4
    } else if c == '5' {
        5
    } else if c == '6' {
        6
    } else if c == '7' {
        7
    } else if c == '8' {
        8
    } else {
        9
    }
}

/// `c` is one of the ten decimal digits.
pub open spec fn is_digit(c: char) -> bool {
    '0' <= c <= '9'
}

/// The number that a string of decimal digits denotes.
pub open spec fn value_of(digits: Seq<char>) -> nat
    decreases digits.len(),
{
    if digits.len() == 0 {
        0
    } else {
        value_of(digits.drop_last()) * 10 + digit_value(digits.last())
    }
}

/// The decimal text of `n` is made of digits, starts with a zero only when
/// it is `0` itself, and reads back as `n`.
pub proof fn lemma_decimal_reads_back(n: nat)
    ensures
        decimal(n).len() >= 1,
        n >= 10 ==> decimal(n).len() >= 2,
        forall|i: int| 0 <= i < decimal(n).len() ==> is_digit(#[trigger] decimal(n)[i]),
        decimal(n)[0] == '0' ==> n == 0,
        value_of(decimal(n)) == n,
    decreases n,
{
    if n >= 10 {
        lemma_decimal_reads_back(n / 10);
        let d = decimal(n / 10);
        assert(decimal(n) == d.push(digit_char((n % 10) as int)));
        assert(d.push(digit_char((n % 10) as int)).drop_last() =~= d);
        assert(forall|i: int| 0 <= i < d.len() ==> decimal(n)[i] == d[i]);
        assert(digit_value(digit_char((n % 10) as int)) == n % 10);
        assert(n == (n / 10) * 10 + n % 10);
        assert(value_of(decimal(n)) == value_of(d) * 10 + digit_value(decimal(n).last()));
        assert(value_of(d) == n / 10);
        assert(value_of(d) * 10 == (n / 10) * 10);
    } else {
        let d: Seq<char> = Seq::empty();
        assert(seq![digit_char(n as int)].drop_last() =~= d);
        assert(digit_value(digit_char(n as int)) == n);
        assert(value_of(d) == 0);
        assert(value_of(decimal(n)) == value_of(d) * 10 + digit_value(decimal(n).last()));
    }
}

/// The two-digit text of `n` has at least two digits and reads back as `n`.
pub proof fn lemma_two_digits_reads_back(n: nat)
    ensures
        two_digits(n).len() >= 2,
        forall|i: int| 0 <= i < two_digits(n).len() ==> is_digit(#[trigger] two_digits(n)[i]),
        value_of(two_digits(n)) == n,
{
    lemma_decimal_reads_back(n);
    if n < 10 {
        reveal_with_fuel(value_of, 3);
        assert(decimal(n) == seq![digit_char(n as int)]);
        assert(two_digits(n) =~= seq!['0', digit_char(n as int)]);
        assert(seq!['0', digit_char(n as int)].drop_last() =~= seq!['0']);
        let e: Seq<char> = Seq::empty();
        assert(seq!['0'].drop_last() =~= e);
    }
}

fn digit_str(d: u64) -> (r: &'static str)
    requires
        d < 10,
    ensures
        r@ == seq![digit_char(d as int)],
{
    proof {
        reveal_strlit("0");
        reveal_strlit("1");
        reveal_strlit("2");
        reveal_strlit("3");
        reveal_strlit("4");
        reveal_strlit("5");
        reveal_strlit("6");
        reveal_strlit("7");
        reveal_strlit("8");
        reveal_strlit("9");
    }
    if d == 0 {
        "0"
    } else if d == 1 {
        "1"
    } else if d == 2 {
        "2"
    } else if d == 3 {
        "3"
    } else if d == 4 {
        "4"
    } else if d == 5 {
        "5"
    } else if d == 6 {
        "6"
    } else if d == 7 {
        "7"
    } else if d == 8 {
        "8"
    } else {
        "9"
    }
}

/// Appends the decimal digits of `n` to `out`.
pub fn push_decimal(out: &mut String, n: u64)
    ensures
        final(out)@ == old(out)@ + decimal(n as nat),
    decreases n,
{
    if n >= 10 {
        push_decimal(out, n / 10);
    }
    out.append(digit_str(n % 10));
    proof {
        if n < 10 {
            assert(n % 10 == n);
        }
    }
}

/// `n.to_string()` for an unsigned integer.
pub fn decimal_string(n: u64) -> (r: String)
    ensures
        r@ == decimal(n as nat),
{
    let mut out = String::new();
    push_decimal(&mut out, n);
    out
}

/// `n.to_string()` for a signed integer.
pub fn signed_decimal_string(n: i64) -> (r: String)
    ensures
        r@ == signed_decimal(n as int),
{
    let mut out = String::new();
    if n < 0 {
        proof {
            reveal_strlit("-");
        }
        out.append("-");
        let magnitude: u64 = (0i128 - n as i128) as u64;
        push_decimal(&mut out, magnitude);
    } else {
        push_decimal(&mut out, n as u64);
    }
    out
}

/// `format!("{:02}", n)`: the decimal digits of `n`, with a leading zero
/// when there is only one.
pub fn push_two_digits(out: &mut String, n: u64)
    ensures
        final(out)@ == old(out)@ + two_digits(n as nat),
{
    if n < 10 {
        proof {
            reveal_strlit("0");
        }
        out.append("0");
    }
    push_decimal(out, n);
    proof {
        assert(out@ =~= old(out)@ + two_digits(n as nat));
    }
}

} // verus!
