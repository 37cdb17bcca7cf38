//! Numbers as text.

use vstd::prelude::*;
use vstd::string::StringExecFns;

verus! {

/// The hexadecimal digit of value `d`, in lower case.
pub open spec fn digit(d: int) -> char {
    if d < 10 {
        (('0' as int) + d) as char
    } else {
        (('a' as int) + (d - 10)) as char
    }
}

/// `n` written in base `base`, without leading zeros.
pub open spec fn numeral(n: nat, base: nat) -> Seq<char>
    decreases n,
{
    if base < 2 || n < base {
        seq![digit(n as int)]
    } else {
        proof {
            vstd::arithmetic::div_mod::lemma_div_decreases(n as int, base as int);
        }
        numeral(n / base, base).push(digit((n % base) as int))
    }
}

/// `n` in decimal.
pub open spec fn decimal(n: nat) -> Seq<char> {
    numeral(n, 10)
}

/// `n` in decimal, with a minus sign where it is negative.
pub open spec fn signed_decimal(n: int) -> Seq<char> {
    if n < 0 {
        seq!['-'] + decimal((-n) as nat)
    } else {
        decimal(n as nat)
    }
}

/// `n` in hexadecimal, after `0x`.
pub open spec fn prefixed_hex(n: nat) -> Seq<char> {
    seq!['0', 'x'] + numeral(n, 16)
}

fn digit_str(d: u64) -> (text: &'static str)
    requires
        d < 16,
    ensures
        text@ == seq![digit(d as int)],
{
    proof {
        reveal_strlit("0");
        reveal_strlit("1");
        reveal_strlit("2");
        reveal_strlit("3");
        reveal_strlit("4");
        reveal_strlit("5");
        reveal_strlit("6");
        reveal_strlit("7");
        reveal_strlit("8");
        reveal_strlit("9");
        reveal_strlit("a");
        reveal_strlit("b");
        reveal_strlit("c");
        reveal_strlit("d");
        reveal_strlit("e");
        reveal_strlit("f");
    }
    match d {
        0 => "0",
        1 => "1",
        2 => "2",
        3 => "3",
        4 => "4",
        5 => "5",
        6 => "6",
        7 => "7",
        8 => "8",
        9 => "9",
        10 => "a",
        11 => "b",
        12 => "c",
        13 => "d",
        14 => "e",
        _ => "f",
    }
}

/// Appends `n`, written in base `base`, to `text`.
pub(crate) fn push_numeral(text: &mut String, n: u64, base: u64)
    requires
        2 <= base <= 16,
    ensures
        final(text)@ == old(text)@ + numeral(n as nat, base as nat),
    decreases n,
{
    if n < base {
        text.append(digit_str(n));
    } else {
        assert(n / base < n) by (nonlinear_arith)
            requires
                2 <= base <= n,
        ;
        push_numeral(text, n / base, base);
        text.append(digit_str(n % base));
    }
}

/// Appends `n` in decimal to `text`.
pub(crate) fn push_decimal(text: &mut String, n: u64)
    ensures
        final(text)@ == old(text)@ + decimal(n as nat),
{
    push_numeral(text, n, 10);
}

/// Appends `n` in decimal, with its sign, to `text`.
pub(crate) fn push_signed_decimal(text: &mut String, n: i64)
    ensures
        final(text)@ == old(text)@ + signed_decimal(n as int),
{
    if n < 0 {
        proof {
            reveal_strlit("-");
        }
        text.append("-");
        push_numeral(text, (-(n + 1)) as u64 + 1, 10);
    } else {
        push_numeral(text, n as u64, 10);
    }
}

/// Appends `n` in hexadecimal, after `0x`, to `text`.
pub(crate) fn push_prefixed_hex(text: &mut String, n: u64)
    ensures
        final(text)@ == old(text)@ + prefixed_hex(n as nat),
{
    proof {
        reveal_strlit("0x");
    }
    text.append("0x");
    push_numeral(text, n, 16);
}

/// Each digit has a value of its own.
pub proof fn digit_is_injective(a: int, b: int)
    requires
        0 <= a < 16,
        0 <= b < 16,
        digit(a) == digit(b),
    ensures
        a == b,
{
}

/// Whether `c` is a decimal digit.
pub open spec fn is_decimal_digit(c: char) -> bool {
    '0' <= c <= '9'
}

/// A decimal numeral is not empty and holds digits only.
pub proof fn decimal_is_digits(n: nat)
    ensures
        decimal(n).len() > 0,
        forall|i: int| 0 <= i < decimal(n).len() ==> is_decimal_digit(#[trigger] decimal(n)[i]),
    decreases n,
{
    if n >= 10 {
        decimal_is_digits(n / 10);
        let shorter = decimal(n / 10);
        assert forall|i: int| 0 <= i < decimal(n).len() implies is_decimal_digit(
            #[trigger] decimal(n)[i],
        ) by {
            if i < shorter.len() {
                assert(decimal(n)[i] == shorter[i]);
            }
        }
    }
}

/// Numbers with the same decimal numeral are equal.
pub proof fn decimal_is_injective(m: nat, n: nat)
    requires
        decimal(m) == decimal(n),
    ensures
        m == n,
    decreases m,
{
    decimal_is_digits(m / 10);
    decimal_is_digits(n / 10);
    assert(decimal(m).last() == digit((m % 10) as int));
    assert(decimal(n).last() == digit((n % 10) as int));
    digit_is_injective((m % 10) as int, (n % 10) as int);
    if m >= 10 && n >= 10 {
        assert(decimal(m).drop_last() =~= decimal(m / 10));
        assert(decimal(n).drop_last() =~= decimal(n / 10));
        decimal_is_injective(m / 10, n / 10);
    } else if m >= 10 {
        assert(decimal(m).len() > 1);
        assert(decimal(n).len() == 1);
    } else if n >= 10 {
        assert(decimal(n).len() > 1);
        assert(decimal(m).len() == 1);
    }
}

/// A decimal numeral ends where the digits end.
pub proof fn decimal_ends_with_the_digits(m: nat, n: nat, after_m: Seq<char>, after_n: Seq<char>)
    requires
        decimal(m) + after_m == decimal(n) + after_n,
        after_m.len() > 0 ==> !is_decimal_digit(after_m[0]),
        after_n.len() > 0 ==> !is_decimal_digit(after_n[0]),
    ensures
        m == n,
        after_m == after_n,
{
    decimal_is_digits(m);
    decimal_is_digits(n);
    let whole = decimal(m) + after_m;
    let m_len = decimal(m).len() as int;
    let n_len = decimal(n).len() as int;
    assert(whole == decimal(n) + after_n);
    if m_len < n_len {
        assert(whole[m_len] == after_m[0]);
        assert(whole[m_len] == decimal(n)[m_len]);
    } else if n_len < m_len {
        assert(whole[n_len] == after_n[0]);
        assert(whole[n_len] == decimal(m)[n_len]);
    }
    assert(decimal(m) =~= whole.take(m_len));
    assert(decimal(n) =~= whole.take(m_len));
    assert(after_m =~= whole.skip(m_len));
    assert(after_n =~= whole.skip(m_len));
    decimal_is_injective(m, n);
}

} // verus!
