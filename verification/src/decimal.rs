//! Decimal notation of integers, as it is written on a command line.

use vstd::prelude::*;
use vstd::string::StringExecFns;

verus! {

/// The character that writes the digit `d`.
pub open spec fn digit(d: int) -> char
    recommends
        0 <= d < 10,
{
    seq!['0', '1', '2', '3', '4', '5', '6', '7', '8', '9'][d]
}

/// The digits of `n`, most significant first, without leading zeros.
pub open spec fn digits(n: nat) -> Seq<char>
    decreases n,
{
    if n < 10 {
        seq![digit(n as int)]
    } else {
        digits(n / 10).push(digit((n % 10) as int))
    }
}

/// `n` in decimal notation: its digits, after a minus sign where it is negative.
pub open spec fn decimal(n: int) -> Seq<char> {
    if n < 0 {
        seq!['-'] + digits((-n) as nat)
    } else {
        digits(n as nat)
    }
}

/// The digit that the character `c` writes.
pub open spec fn digit_value(c: char) -> int {
    c as u32 - 0x30
}

/// The number that the digits `s` write.
pub open spec fn number_of(s: Seq<char>) -> int
    decreases s.len(),
{
    if s.len() == 0 {
        0
    } else {
        number_of(s.drop_last()) * 10 + digit_value(s.last())
    }
}

/// The integer that `s` writes in decimal notation.
pub open spec fn integer_of(s: Seq<char>) -> int {
    if s.len() > 0 && s.first() == '-' {
        -number_of(s.drop_first())
    } else {
        number_of(s)
    }
}

/// A number has at least one digit, each of its digits is one of the ten
/// digit characters, and together they write that number.
pub proof fn lemma_digits_read_back(n: nat)
    ensures
        digits(n).len() >= 1,
        forall|i: int| 0 <= i < digits(n).len() ==> 0 <= digit_value(#[trigger] digits(n)[i]) < 10,
        number_of(digits(n)) == n,
    decreases n,
{
    let d = (n % 10) as int;
    assert(digit_value(digit(d)) == d);
    if n < 10 {
        let s = seq![digit(n as int)];
        assert(s.drop_last() =~= Seq::<char>::empty());
        assert(number_of(s.drop_last()) == 0);
    } else {
        lemma_digits_read_back(n / 10);
        let s = digits(n);
        assert(s.drop_last() =~= digits(n / 10));
        assert(s.last() == digit(d));
    }
}

/// Decimal notation reads back as the integer it was written for.
pub proof fn lemma_decimal_reads_back(n: int)
    ensures
        integer_of(decimal(n)) == n,
{
    if n < 0 {
        let m = (-n) as nat;
        lemma_digits_read_back(m);
        assert(decimal(n).drop_first() =~= digits(m));
    } else {
        lemma_digits_read_back(n as nat);
        assert(digit_value(decimal(n).first()) >= 0);
    }
}

/// Different integers are written differently.
pub proof fn lemma_decimal_is_injective(a: int, b: int)
    requires
        decimal(a) == decimal(b),
    ensures
        a == b,
{
    lemma_decimal_reads_back(a);
    lemma_decimal_reads_back(b);
}

fn digit_str(d: u32) -> (s: &'static str)
    requires
        d < 10,
    ensures
        s@ == seq![digit(d as int)],
{
    proof {
        reveal_strlit("0");
        reveal_strlit("1");
        reveal_strlit("2");
        reveal_strlit("3");
        reveal_strlit("4");
        reveal_strlit("5");
        reveal_strlit("6");
        reveal_strlit("7");
        reveal_strlit("8");
        reveal_strlit("9");
    }
    let s = match d {
        0 => "0",
        1 => "1",
        2 => "2",
        3 => "3",
        4 => "4",
        5 => "5",
        6 => "6",
        7 => "7",
        8 => "8",
        _ => "9",
    };
    assert(s@ =~= seq![digit(d as int)]);
    s
}

fn push_digits(text: &mut String, n: u32)
    ensures
        final(text)@ == old(text)@ + digits(n as nat),
    decreases n,
{
    if n >= 10 {
        push_digits(text, n / 10);
    }
    text.append(digit_str(n % 10));
    assert(final(text)@ =~= old(text)@ + digits(n as nat));
}

/// Writes `n` in decimal notation.
pub fn decimal_string(n: i32) -> (text: String)
    ensures
        text@ == decimal(n as int),
{
    let mut text = String::new();
    let magnitude: u32 = if n < 0 {
        proof {
            reveal_strlit("-");
        }
        text.append("-");
        (-(n as i64)) as u32
    } else {
        n as u32
    };
    assert(text@ =~= if n < 0 { seq!['-'] } else { Seq::<char>::empty() });
    push_digits(&mut text, magnitude);
    assert(text@ =~= decimal(n as int));
    text
}

} // verus!
