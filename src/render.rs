//! Decimal, binary and hexadecimal text for words.
use vstd::prelude::*;
use vstd::string::*;

verus! {

/// The character of a digit value below sixteen (upper-case for ten and above).
pub open spec fn digit_char(d: nat) -> char {
    if d == 0 {
        '0'
    } else if d == 1 {
        '1'
    } else if d == 2 {
        '2'
    } else if d == 3 {
        '3'
    } else if d == 4 {
        '4'
    } else if d == 5 {
        '5'
    } else if d == 6 {
        '6'
    } else if d == 7 {
        '7'
    } else if d == 8 {
        '8'
    } else if d == 9 {
        '9'
    } else if d == 10 {
        'A'
    } else if d == 11 {
        'B'
    } else if d == 12 {
        'C'
    } else if d == 13 {
        'D'
    } else if d == 14 {
        'E'
    } else {
        'F'
    }
}

/// Base-ten digits of `n`, most significant first, without leading zeros.
pub open spec fn decimal(n: nat) -> Seq<char>
    decreases n,
{
    if n < 10 {
        seq![digit_char(n)]
    } else {
        decimal(n / 10).push(digit_char(n % 10))
    }
}

/// Base-ten text of `v`, with a leading `-` when it is negative.
pub open spec fn signed_decimal(v: int) -> Seq<char> {
    if v < 0 {
        seq!['-'] + decimal((-v) as nat)
    } else {
        decimal(v as nat)
    }
}

/// The lowest `count` digits of `n` in base `base`, most significant first,
/// with leading zeros where `n` has fewer digits.
pub open spec fn padded_digits(n: nat, base: nat, count: nat) -> Seq<char>
    decreases count,
{
    if count == 0 {
        Seq::empty()
    } else {
        padded_digits(n / base, base, (count - 1) as nat).push(digit_char(n % base))
    }
}

/// Binary text of `n`, exactly `count` characters.
pub open spec fn binary(n: nat, count: nat) -> Seq<char> {
    padded_digits(n, 2, count)
}

/// Upper-case hexadecimal text of `n`, exactly `count` characters.
pub open spec fn hexadecimal(n: nat, count: nat) -> Seq<char> {
    padded_digits(n, 16, count)
}

/// A padded text has exactly as many characters as asked for.
pub proof fn lemma_padded_len(n: nat, base: nat, count: nat)
    requires
        base > 0,
    ensures
        padded_digits(n, base, count).len() == count,
    decreases count,
{
    if count > 0 {
        let c1 = (count - 1) as nat;
        lemma_padded_len(n / base, base, c1);
    }
}

/// The one-character text of a digit value.
fn digit_text(d: u64) -> (r: &'static str)
    requires
        d < 16,
    ensures
        r@ =~= seq![digit_char(d as nat)],
{
    if d == 0 {
        proof { reveal_strlit("0"); }
        "0"
    } else if d == 1 {
        proof { reveal_strlit("1"); }
        "1"
    } else if d == 2 {
        proof { reveal_strlit("2"); }
        "2"
    } else if d == 3 {
        proof { reveal_strlit("3"); }
        "3"
    } else if d == 4 {
        proof { reveal_strlit("4"); }
        "4"
    } else if d == 5 {
        proof { reveal_strlit("5"); }
        "5"
    } else if d == 6 {
        proof { reveal_strlit("6"); }
        "6"
    } else if d == 7 {
        proof { reveal_strlit("7"); }
        "7"
    } else if d == 8 {
        proof { reveal_strlit("8"); }
        "8"
    } else if d == 9 {
        proof { reveal_strlit("9"); }
        "9"
    } else if d == 10 {
        proof { reveal_strlit("A"); }
        "A"
    } else if d == 11 {
        proof { reveal_strlit("B"); }
        "B"
    } else if d == 12 {
        proof { reveal_strlit("C"); }
        "C"
    } else if d == 13 {
        proof { reveal_strlit("D"); }
        "D"
    } else if d == 14 {
        proof { reveal_strlit("E"); }
        "E"
    } else {
        proof { reveal_strlit("F"); }
        "F"
    }
}

/// Appends the base-ten digits of `n`.
fn push_decimal(s: &mut String, n: u64)
    ensures
        final(s)@ == old(s)@ + decimal(n as nat),
    decreases n,
{
    if n >= 10 {
        push_decimal(s, n / 10);
    }
    s.append(digit_text(n % 10));
    assert(final(s)@ =~= old(s)@ + decimal(n as nat));
}

/// Appends the lowest `count` digits of `n` in base `base`.
fn push_padded(s: &mut String, n: u64, base: u64, count: u32)
    requires
        2 <= base <= 16,
    ensures
        final(s)@ == old(s)@ + padded_digits(n as nat, base as nat, count as nat),
    decreases count,
{
    if count > 0 {
        push_padded(s, n / base, base, count - 1);
        s.append(digit_text(n % base));
        assert(final(s)@ =~= old(s)@ + padded_digits(n as nat, base as nat, count as nat));
    } else {
        assert(final(s)@ =~= old(s)@ + padded_digits(n as nat, base as nat, count as nat));
    }
}

/// Base-ten text of `n`.
pub fn decimal_text(n: u64) -> (r: String)
    ensures
        r@ == decimal(n as nat),
{
    let mut s = String::new();
    push_decimal(&mut s, n);
    assert(s@ =~= decimal(n as nat));
    s
}

/// Base-ten text of `v`, with a leading `-` when it is negative.
pub fn signed_decimal_text(v: i64) -> (r: String)
    ensures
        r@ == signed_decimal(v as int),
{
    if v < 0 {
        let magnitude: u64 = (-(v + 1)) as u64 + 1;
        let mut s = String::from_str("-");
        proof { reveal_strlit("-"); }
        push_decimal(&mut s, magnitude);
        assert(s@ =~= signed_decimal(v as int));
        s
    } else {
        decimal_text(v as u64)
    }
}

/// Binary text of `n`, exactly `count` characters.
pub fn binary_text(n: u64, count: u32) -> (r: String)
    ensures
        r@ == binary(n as nat, count as nat),
        r@.len() == count,
{
    let mut s = String::new();
    push_padded(&mut s, n, 2, count);
    proof { lemma_padded_len(n as nat, 2, count as nat); }
    assert(s@ =~= binary(n as nat, count as nat));
    s
}

/// Upper-case hexadecimal text of `n`, exactly `count` characters.
pub fn hex_text(n: u64, count: u32) -> (r: String)
    ensures
        r@ == hexadecimal(n as nat, count as nat),
        r@.len() == count,
{
    let mut s = String::new();
    push_padded(&mut s, n, 16, count);
    proof { lemma_padded_len(n as nat, 16, count as nat); }
    assert(s@ =~= hexadecimal(n as nat, count as nat));
    s
}

} // verus!
