//! Error codes of the form `PREFIX-NNN`.

use vstd::prelude::*;

verus! {

/// The character of a decimal digit.
pub open spec fn digit_char(d: nat) -> char {
    if d == 0 {
        '0'
    } else if d == 1 {
        '1'
    } else if d == 2 {
        '2'
    } else if d == 3 {
        '3'
    } else if d == 4 {
        '4'
    } else if d == 5 {
        '5'
    } else if d == 6 {
        '6'
    } else if d == 7 {
        '7'
    } else if d == 8 {
        '8'
    } else {
        '9'
    }
}

/// The numeric value of a decimal digit character.
pub open spec fn digit_value(c: char) -> nat {
    if c == '1' {
        1
    } else if c == '2' {
        2
    } else if c == '3' {
        3
    } else if c == '4' {
        4
    } else if c == '5' {
        5
    } else if c == '6' {
        6
    } else if c == '7' {
        7
    } else if c == '8' {
        8
    } else if c == '9' {
        9
    } else {
        0
    }
}

/// The shortest decimal rendering of `n`.
pub open spec fn decimal(n: nat) -> Seq<char>
    decreases n,
{
    if n < 10 {
        seq![digit_char(n)]
    } else {
        decimal(n / 10).push(digit_char(n % 10))
    }
}

/// `n` in decimal, left-padded with zeros to at least three digits.
pub open spec fn padded3(n: nat) -> Seq<char> {
    if n < 10 {
        seq!['0', '0'] + decimal(n)
    } else if n < 100 {
        seq!['0'] + decimal(n)
    } else {
        decimal(n)
    }
}

/// The error code of the variant at 1-based position `ordinal`.
pub open spec fn error_code(prefix: Seq<char>, ordinal: nat) -> Seq<char> {
    prefix + seq!['-'] + padded3(ordinal)
}

/// The value of a string of decimal digits.
pub open spec fn digits_value(s: Seq<char>) -> nat
    decreases s.len(),
{
    if s.len() == 0 {
        0
    } else {
        digits_value(s.drop_last()) * 10 + digit_value(s.last())
    }
}

proof fn lemma_digit_round_trip(d: nat)
    requires
        d < 10,
    ensures
        digit_value(digit_char(d)) == d,
{
}

proof fn lemma_decimal_value(n: nat)
    ensures
        digits_value(decimal(n)) == n,
    decreases n,
{
    if n < 10 {
        lemma_digit_round_trip(n);
        let s = seq![digit_char(n)];
        assert(s.drop_last() =~= Seq::<char>::empty());
        assert(digits_value(s.drop_last()) == 0);
        assert(digits_value(s) == digit_value(digit_char(n)));
    } else {
        lemma_decimal_value(n / 10);
        lemma_digit_round_trip(n % 10);
        let s = decimal(n / 10).push(digit_char(n % 10));
        assert(s.drop_last() =~= decimal(n / 10));
        assert(s.last() == digit_char(n % 10));
        assert(digits_value(s) == (n / 10) * 10 + n % 10);
    }
}

proof fn lemma_leading_zero(s: Seq<char>)
    ensures
        digits_value(seq!['0'] + s) == digits_value(s),
    decreases s.len(),
{
    if s.len() == 0 {
        let z = seq!['0'] + s;
        assert(z.drop_last() =~= Seq::<char>::empty());
        assert(digits_value(z.drop_last()) == 0);
        assert(z.last() == '0');
    } else {
        let z = seq!['0'] + s;
        assert(z.drop_last() =~= seq!['0'] + s.drop_last());
        assert(z.last() == s.last());
        lemma_leading_zero(s.drop_last());
    }
}

/// The padded rendering of `n` reads back as `n`.
pub proof fn lemma_padded3_value(n: nat)
    ensures
        digits_value(padded3(n)) == n,
{
    lemma_decimal_value(n);
    if n < 10 {
        lemma_leading_zero(decimal(n));
        lemma_leading_zero(seq!['0'] + decimal(n));
        assert(seq!['0', '0'] + decimal(n) =~= seq!['0'] + (seq!['0'] + decimal(n)));
    } else if n < 100 {
        lemma_leading_zero(decimal(n));
    }
}

/// Two variants of one type never share an error code: the code determines
/// the ordinal.
pub proof fn lemma_error_code_injective(prefix: Seq<char>, a: nat, b: nat)
    requires
        error_code(prefix, a) == error_code(prefix, b),
    ensures
        a == b,
{
    let ca = error_code(prefix, a);
    let cb = error_code(prefix, b);
    let k = prefix.len() + 1;
    assert(ca.subrange(k as int, ca.len() as int) =~= padded3(a));
    assert(cb.subrange(k as int, cb.len() as int) =~= padded3(b));
    lemma_padded3_value(a);
    lemma_padded3_value(b);
}

fn digit_str(d: usize) -> (r: &'static str)
    requires
        d < 10,
    ensures
        r@ == seq![digit_char(d as nat)],
{
    proof {
        reveal_strlit("0");
        reveal_strlit("1");
        reveal_strlit("2");
        reveal_strlit("3");
        reveal_strlit("4");
        reveal_strlit("5");
        reveal_strlit("6");
        reveal_strlit("7");
        reveal_strlit("8");
        reveal_strlit("9");
    }
    if d == 0 {
        "0"
    } else if d == 1 {
        "1"
    } else if d == 2 {
        "2"
    } else if d == 3 {
        "3"
    } else if d == 4 {
        "4"
    } else if d == 5 {
        "5"
    } else if d == 6 {
        "6"
    } else if d == 7 {
        "7"
    } else if d == 8 {
        "8"
    } else {
        assert(seq!['9'] =~= seq![digit_char(d as nat)]);
        "9"
    }
}

/// Renders `n` in decimal.
pub fn decimal_string(n: usize) -> (r: String)
    ensures
        r@ == decimal(n as nat),
    decreases n,
{
    if n < 10 {
        digit_str(n).to_owned()
    } else {
        let mut s = decimal_string(n / 10);
        s.append(digit_str(n % 10));
        assert(s@ =~= decimal(n as nat));
        s
    }
}

/// Renders `n` in decimal with at least three digits, zero-padded on the left.
pub fn padded3_string(n: usize) -> (r: String)
    ensures
        r@ == padded3(n as nat),
{
    let digits = decimal_string(n);
    if n < 10 {
        proof {
            reveal_strlit("00");
        }
        let mut s = "00".to_owned();
        s.append(digits.as_str());
        assert(s@ =~= padded3(n as nat));
        s
    } else if n < 100 {
        proof {
            reveal_strlit("0");
        }
        let mut s = "0".to_owned();
        s.append(digits.as_str());
        assert(s@ =~= padded3(n as nat));
        s
    } else {
        digits
    }
}

/// The error code `PREFIX-NNN` of the variant at 1-based position `ordinal`.
pub fn format_error_code(prefix: &str, ordinal: usize) -> (r: String)
    ensures
        r@ == error_code(prefix@, ordinal as nat),
{
    proof {
        reveal_strlit("-");
    }
    let mut s = prefix.to_owned();
    s.append("-");
    let digits = padded3_string(ordinal);
    s.append(digits.as_str());
    assert(s@ =~= error_code(prefix@, ordinal as nat));
    s
}

} // verus!
