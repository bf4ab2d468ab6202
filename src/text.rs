//! Decimal and hexadecimal text of small numbers.
use vstd::prelude::*;
use vstd::string::StringExecFns;

verus! {

/// The decimal digit `d`, for `d` below 10.
pub open spec fn digit_char(d: nat) -> char {
    if d == 0 { '0' }
    else if d == 1 { '1' }
    else if d == 2 { '2' }
    else if d == 3 { '3' }
    else if d == 4 { '4' }
    else if d == 5 { '5' }
    else if d == 6 { '6' }
    else if d == 7 { '7' }
    else if d == 8 { '8' }
    else { '9' }
}

/// The lower-case hexadecimal digit `d`, for `d` below 16.
pub open spec fn hex_char(d: nat) -> char {
    if d < 10 { digit_char(d) }
    else if d == 10 { 'a' }
    else if d == 11 { 'b' }
    else if d == 12 { 'c' }
    else if d == 13 { 'd' }
    else if d == 14 { 'e' }
    else { 'f' }
}

/// The decimal text of `n`, without leading zeros.
pub open spec fn decimal(n: nat) -> Seq<char>
    decreases n,
{
    if n < 10 {
        seq![digit_char(n)]
    } else {
        decimal(n / 10).push(digit_char(n % 10))
    }
}

/// Two lower-case hexadecimal digits for a byte.
pub open spec fn hex_byte(b: u8) -> Seq<char> {
    seq![hex_char(b as nat / 16), hex_char(b as nat % 16)]
}

/// Decimal text is never empty.
pub proof fn lemma_decimal_nonempty(n: nat)
    ensures
        decimal(n).len() >= 1,
    decreases n,
{
    if n >= 10 {
        lemma_decimal_nonempty(n / 10);
    }
}

/// Distinct numbers have distinct decimal text.
pub proof fn lemma_decimal_injective(a: nat, c: nat)
    requires
        decimal(a) == decimal(c),
    ensures
        a == c,
    decreases a + c,
{
    if a >= 10 {
        lemma_decimal_nonempty(a / 10);
    }
    if c >= 10 {
        lemma_decimal_nonempty(c / 10);
    }
    if a < 10 && c < 10 {
        assert(decimal(a)[0] == digit_char(a));
        assert(decimal(c)[0] == digit_char(c));
    } else if a < 10 {
        assert(decimal(a).len() == 1);
        assert(decimal(c).len() >= 2);
    } else if c < 10 {
        assert(decimal(c).len() == 1);
        assert(decimal(a).len() >= 2);
    } else {
        let da = decimal(a / 10);
        let dc = decimal(c / 10);
        assert(decimal(a).last() == digit_char(a % 10));
        assert(decimal(c).last() == digit_char(c % 10));
        assert(da =~= decimal(a).drop_last());
        assert(dc =~= decimal(c).drop_last());
        lemma_decimal_injective(a / 10, c / 10);
        assert(a % 10 == c % 10);
        assert(a == c) by (nonlinear_arith)
            requires
                a / 10 == c / 10,
                a % 10 == c % 10,
        ;
    }
}

/// The one-character text of hexadecimal digit `d`.
fn hex_digit_str(d: u8) -> (r: &'static str)
    requires
        d < 16,
    ensures
        r@ == seq![hex_char(d as nat)],
{
    proof {
        reveal_strlit("0");
        reveal_strlit("1");
        reveal_strlit("2");
        reveal_strlit("3");
        reveal_strlit("4");
        reveal_strlit("5");
        reveal_strlit("6");
        reveal_strlit("7");
        reveal_strlit("8");
        reveal_strlit("9");
        reveal_strlit("a");
        reveal_strlit("b");
        reveal_strlit("c");
        reveal_strlit("d");
        reveal_strlit("e");
        reveal_strlit("f");
    }
    let r = match d {
        0 => "0",
        1 => "1",
        2 => "2",
        3 => "3",
        4 => "4",
        5 => "5",
        6 => "6",
        7 => "7",
        8 => "8",
        9 => "9",
        10 => "a",
        11 => "b",
        12 => "c",
        13 => "d",
        14 => "e",
        _ => "f",
    };
    assert(r@ =~= seq![hex_char(d as nat)]);
    r
}

/// Appends the decimal text of `n` to `s`.
pub fn push_decimal(s: &mut String, n: u8)
    ensures
        final(s)@ == old(s)@ + decimal(n as nat),
{
    proof {
        reveal_with_fuel(decimal, 3);
    }
    if n >= 100 {
        s.append(hex_digit_str(n / 100));
    }
    if n >= 10 {
        s.append(hex_digit_str((n / 10) % 10));
    }
    s.append(hex_digit_str(n % 10));
    proof {
        let n = n as nat;
        if n >= 100 {
            assert((n / 10) / 10 == n / 100);
            assert(decimal(n) =~= seq![digit_char(n / 100), digit_char((n / 10) % 10), digit_char(n % 10)]);
        } else if n >= 10 {
            assert(decimal(n) =~= seq![digit_char(n / 10), digit_char(n % 10)]);
        }
    }
}

/// The decimal text of `n`.
pub fn decimal_string(n: u8) -> (r: String)
    ensures
        r@ == decimal(n as nat),
{
    let mut s = String::new();
    push_decimal(&mut s, n);
    assert(s@ =~= decimal(n as nat));
    s
}

/// Appends two lower-case hexadecimal digits for `b` to `s`.
pub fn push_hex_byte(s: &mut String, b: u8)
    ensures
        final(s)@ == old(s)@ + hex_byte(b),
{
    s.append(hex_digit_str(b / 16));
    s.append(hex_digit_str(b % 16));
}

} // verus!
