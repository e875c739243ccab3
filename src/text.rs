use vstd::prelude::*;
use vstd::string::StringExecFns;

verus! {

/// The decimal digit character for `d`.
pub open spec fn digit_char(d: nat) -> char {
    if d == 0 { '0' } else if d == 1 { '1' } else if d == 2 { '2' } else if d == 3 { '3' }
    else if d == 4 { '4' } else if d == 5 { '5' } else if d == 6 { '6' } else if d == 7 { '7' }
    else if d == 8 { '8' } else { '9' }
}

/// Decimal digits of `n`, most significant first, without leading zeros.
pub open spec fn decimal(n: nat) -> Seq<char>
    decreases n,
{
    if n < 10 {
        seq![digit_char(n)]
    } else {
        decimal(n / 10) + seq![digit_char(n % 10)]
    }
}

/// Decimal form of an integer, with a leading '-' when it is negative.
pub open spec fn signed_decimal(i: int) -> Seq<char> {
    if i < 0 {
        seq!['-'] + decimal((-i) as nat)
    } else {
        decimal(i as nat)
    }
}

fn push_digit(s: &mut String, d: u64)
    requires
        d < 10,
    ensures
        final(s)@ == old(s)@ + seq![digit_char(d as nat)],
{
    proof {
        reveal_strlit("0");
        reveal_strlit("1");
        reveal_strlit("2");
        reveal_strlit("3");
        reveal_strlit("4");
        reveal_strlit("5");
        reveal_strlit("6");
        reveal_strlit("7");
        reveal_strlit("8");
        reveal_strlit("9");
    }
    match d {
        0 => s.append("0"),
        1 => s.append("1"),
        2 => s.append("2"),
        3 => s.append("3"),
        4 => s.append("4"),
        5 => s.append("5"),
        6 => s.append("6"),
        7 => s.append("7"),
        8 => s.append("8"),
        _ => s.append("9"),
    }
}

/// Appends the decimal digits of `n`.
pub fn push_unsigned(s: &mut String, n: u64)
    ensures
        final(s)@ == old(s)@ + decimal(n as nat),
    decreases n,
{
    if n >= 10 {
        push_unsigned(s, n / 10);
    }
    push_digit(s, n % 10);
    assert(n < 10 ==> n % 10 == n);
}

/// Appends the decimal form of `i`, with a '-' in front when it is negative.
pub fn push_signed(s: &mut String, i: i64)
    ensures
        final(s)@ == old(s)@ + signed_decimal(i as int),
{
    if i < 0 {
        proof {
            reveal_strlit("-");
        }
        s.append("-");
        push_unsigned(s, (0 - (i as i128)) as u64);
    } else {
        push_unsigned(s, i as u64);
    }
}

/// Appends `", "`.
pub fn push_separator(s: &mut String)
    ensures
        final(s)@ == old(s)@ + seq![',', ' '],
{
    proof {
        reveal_strlit(", ");
    }
    s.append(", ");
}

} // verus!

verus! {

/// Four rendered components joined by `", "`.
pub open spec fn joined4(a: Seq<char>, b: Seq<char>, c: Seq<char>, d: Seq<char>) -> Seq<char> {
    a + seq![',', ' '] + b + seq![',', ' '] + c + seq![',', ' '] + d
}

/// Appends four signed integers in decimal, separated by `", "`.
pub fn push_signed4(s: &mut String, a: i64, b: i64, c: i64, d: i64)
    ensures
        final(s)@ == old(s)@ + joined4(
            signed_decimal(a as int),
            signed_decimal(b as int),
            signed_decimal(c as int),
            signed_decimal(d as int),
        ),
{
    let ghost s0 = s@;
    push_signed(s, a);
    push_separator(s);
    push_signed(s, b);
    push_separator(s);
    push_signed(s, c);
    push_separator(s);
    push_signed(s, d);
    assert(s@ =~= s0 + joined4(
        signed_decimal(a as int),
        signed_decimal(b as int),
        signed_decimal(c as int),
        signed_decimal(d as int),
    ));
}

/// Appends four unsigned integers in decimal, separated by `", "`.
pub fn push_unsigned4(s: &mut String, a: u64, b: u64, c: u64, d: u64)
    ensures
        final(s)@ == old(s)@ + joined4(
            decimal(a as nat),
            decimal(b as nat),
            decimal(c as nat),
            decimal(d as nat),
        ),
{
    let ghost s0 = s@;
    push_unsigned(s, a);
    push_separator(s);
    push_unsigned(s, b);
    push_separator(s);
    push_unsigned(s, c);
    push_separator(s);
    push_unsigned(s, d);
    assert(s@ =~= s0 + joined4(decimal(a as nat), decimal(b as nat), decimal(c as nat), decimal(d as nat)));
}

} // verus!
