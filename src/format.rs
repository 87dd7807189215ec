use vstd::prelude::*;
use vstd::string::StringExecFns;

verus! {

/// The decimal digit character for `d`.
pub open spec fn digit_char(d: nat) -> char
    recommends
        d < 10,
{
    if d == 0 {
        '0'
    } else if d == 1 {
        '1'
    } else if d == 2 {
        '2'
    } else if d == 3 {
        '3'
    } else if d == 4 {
        '4'
    } else if d == 5 {
        '5'
    } else if d == 6 {
        '6'
    } else if d == 7 {
        '7'
    } else if d == 8 {
        '8'
    } else {
        '9'
    }
}

/// The decimal digits of `n`, without leading zeros.
pub open spec fn decimal(n: nat) -> Seq<char>
    decreases n,
{
    if n < 10 {
        seq![digit_char(n)]
    } else {
        decimal(n / 10).push(digit_char(n % 10))
    }
}

/// `n` in decimal with a comma between each group of three digits, counted
/// from the right: `1465` reads `1,465`.
pub open spec fn grouped(n: nat) -> Seq<char>
    decreases n,
{
    if n < 1000 {
        decimal(n)
    } else {
        grouped(n / 1000) + seq![',', digit_char(n % 1000 / 100), digit_char(n % 100 / 10), digit_char(n % 10)]
    }
}

fn push_digit(s: &mut String, d: u64)
    requires
        d < 10,
    ensures
        final(s)@ == old(s)@.push(digit_char(d as nat)),
{
    proof {
        reveal_strlit("0");
        reveal_strlit("1");
        reveal_strlit("2");
        reveal_strlit("3");
        reveal_strlit("4");
        reveal_strlit("5");
        reveal_strlit("6");
        reveal_strlit("7");
        reveal_strlit("8");
        reveal_strlit("9");
    }
    let digit = match d {
        0 => "0",
        1 => "1",
        2 => "2",
        3 => "3",
        4 => "4",
        5 => "5",
        6 => "6",
        7 => "7",
        8 => "8",
        _ => "9",
    };
    s.append(digit);
    assert(s@ =~= old(s)@.push(digit_char(d as nat)));
}

fn push_decimal(s: &mut String, n: u64)
    ensures
        final(s)@ == old(s)@ + decimal(n as nat),
    decreases n,
{
    if n >= 10 {
        push_decimal(s, n / 10);
    }
    push_digit(s, n % 10);
    assert(s@ =~= old(s)@ + decimal(n as nat));
}

fn push_grouped(s: &mut String, n: u64)
    ensures
        final(s)@ == old(s)@ + grouped(n as nat),
    decreases n,
{
    if n < 1000 {
        push_decimal(s, n);
    } else {
        push_grouped(s, n / 1000);
        proof {
            reveal_strlit(",");
        }
        s.append(",");
        push_digit(s, n % 1000 / 100);
        push_digit(s, n % 100 / 10);
        push_digit(s, n % 10);
        assert(s@ =~= old(s)@ + grouped(n as nat));
    }
}

/// The whole part of a number as the status display shows it: decimal
/// digits with thousands separated by commas.
pub fn group_thousands(n: u64) -> (r: String)
    ensures
        r@ == grouped(n as nat),
{
    let mut r = String::new();
    push_grouped(&mut r, n);
    assert(r@ =~= grouped(n as nat));
    r
}

} // verus!
