//! What numbers and JSON strings as text say.

use vstd::arithmetic::div_mod::{lemma_div_non_zero, lemma_fundamental_div_mod};
use vstd::prelude::*;

use crate::text::{decimal, digit, numeral, prefixed_hex, signed_decimal};
use crate::wire::{json_char, json_chars, json_string, next_sequence, request_id_text};

verus! {

/// The value of a digit, decimal or lower-case hexadecimal, or -1.
pub open spec fn digit_value(c: char) -> int {
    if '0' <= c <= '9' {
        c as int - '0' as int
    } else if 'a' <= c <= 'f' {
        c as int - 'a' as int + 10
    } else {
        -1
    }
}

/// The number that the digits `s` spell in base `base`, most significant digit
/// first.
pub open spec fn spelled(s: Seq<char>, base: int) -> int
    decreases s.len(),
{
    if s.len() == 0 {
        0
    } else {
        spelled(s.drop_last(), base) * base + digit_value(s.last())
    }
}

/// Whether `s` is the one way to write `n` in base `base`: digits of that base
/// that spell `n`, with no zero in front unless it is all there is.
pub open spec fn spells(s: Seq<char>, n: nat, base: int) -> bool {
    &&& s.len() > 0
    &&& forall|i: int| 0 <= i < s.len() ==> 0 <= #[trigger] digit_value(s[i]) < base
    &&& spelled(s, base) == n
    &&& s[0] == '0' ==> s.len() == 1
}

/// A numeral spells its number.
pub proof fn numeral_spells_its_number(n: nat, base: nat)
    requires
        2 <= base <= 16,
    ensures
        spells(numeral(n, base), n, base as int),
    decreases n,
{
    let s = numeral(n, base);
    if n < base {
        assert(s.drop_last() =~= Seq::<char>::empty());
        assert(spelled(s.drop_last(), base as int) == 0);
    } else {
        let q = n / base;
        lemma_fundamental_div_mod(n as int, base as int);
        lemma_div_non_zero(n as int, base as int);
        vstd::arithmetic::div_mod::lemma_div_decreases(n as int, base as int);
        numeral_spells_its_number(q, base);
        let front = numeral(q, base);
        assert(s.drop_last() =~= front);
        assert(base as int * (n as int / base as int) == (n as int / base as int) * base as int)
            by (nonlinear_arith);
        assert forall|i: int| 0 <= i < s.len() implies 0 <= #[trigger] digit_value(s[i])
            < base by {
            if i < front.len() {
                assert(s[i] == front[i]);
            }
        }
        assert(s[0] == front[0]);
        if front[0] == '0' {
            assert(front.drop_last() =~= Seq::<char>::empty());
            assert(spelled(front.drop_last(), base as int) == 0);
            assert(spelled(front, base as int) == digit_value('0'));
        }
    }
}

/// A decimal numeral spells its number.
pub proof fn decimal_spells_its_number(n: nat)
    ensures
        spells(decimal(n), n, 10),
{
    numeral_spells_its_number(n, 10);
}

/// A signed decimal numeral starts with a minus sign exactly when its number is
/// negative, and spells how large it is.
pub proof fn signed_decimal_spells_its_number(n: int)
    ensures
        n >= 0 ==> spells(signed_decimal(n), n as nat, 10),
        n < 0 ==> signed_decimal(n)[0] == '-' && spells(
            signed_decimal(n).skip(1),
            (-n) as nat,
            10,
        ),
{
    if n < 0 {
        decimal_spells_its_number((-n) as nat);
        assert(signed_decimal(n).skip(1) =~= decimal((-n) as nat));
    } else {
        decimal_spells_its_number(n as nat);
    }
}

/// A prefixed hexadecimal numeral spells its number after `0x`.
pub proof fn prefixed_hex_spells_its_number(n: nat)
    ensures
        prefixed_hex(n).len() > 2,
        prefixed_hex(n)[0] == '0',
        prefixed_hex(n)[1] == 'x',
        spells(prefixed_hex(n).skip(2), n, 16),
{
    numeral_spells_its_number(n, 16);
    assert(prefixed_hex(n).skip(2) =~= numeral(n, 16));
}

/// A request identifier is the name of the program, the process and the number
/// of the request, with dashes between them.
pub proof fn request_id_names_the_request(process_id: u32, sequence: u64)
    ensures
        ({
            let id = request_id_text(process_id, sequence);
            let start = "cloud-hypervisor-"@.len() as int;
            exists|dash: int| #![trigger id[dash]]
                {
                    &&& start < dash < id.len()
                    &&& id.take(start) == "cloud-hypervisor-"@
                    &&& spells(id.subrange(start, dash), process_id as nat, 10)
                    &&& id[dash] == '-'
                    &&& spells(id.skip(dash + 1), sequence as nat, 10)
                }
        }),
{
    reveal_strlit("-");
    decimal_spells_its_number(process_id as nat);
    decimal_spells_its_number(sequence as nat);
    let id = request_id_text(process_id, sequence);
    let start = "cloud-hypervisor-"@.len() as int;
    let dash = start + decimal(process_id as nat).len();
    assert(id.take(start) =~= "cloud-hypervisor-"@);
    assert(id.subrange(start, dash) =~= decimal(process_id as nat));
    assert(id[dash] == '-');
    assert(id.skip(dash + 1) =~= decimal(sequence as nat));
}

/// The number after a number is one more, modulo all the numbers there are.
pub proof fn numbers_count_up(sequence: u64)
    ensures
        next_sequence(sequence) == (sequence + 1) % 0x1_0000_0000_0000_0000,
{
}

/// The character that the text at the start of `s`, inside a JSON string,
/// stands for, and how long that text is. A bare quote, a bare control
/// character and an unknown escape stand for nothing.
pub open spec fn json_unescaped(s: Seq<char>) -> Option<(int, int)> {
    if s.len() == 0 || s[0] == '"' || (s[0] as int) < 0x20 {
        None
    } else if s[0] != '\\' {
        Some((s[0] as int, 1))
    } else if s.len() < 2 {
        None
    } else if s[1] == '"' {
        Some((0x22, 2))
    } else if s[1] == '\\' {
        Some((0x5c, 2))
    } else if s[1] == 'b' {
        Some((0x08, 2))
    } else if s[1] == 't' {
        Some((0x09, 2))
    } else if s[1] == 'n' {
        Some((0x0a, 2))
    } else if s[1] == 'f' {
        Some((0x0c, 2))
    } else if s[1] == 'r' {
        Some((0x0d, 2))
    } else if s[1] == 'u' && s.len() >= 6 && s[2] == '0' && s[3] == '0' && digit_value(s[4]) >= 0
        && digit_value(s[5]) >= 0 {
        Some((digit_value(s[4]) * 16 + digit_value(s[5]), 6))
    } else {
        None
    }
}

/// Whether a reader of JSON takes `text` for the string `s`.
pub open spec fn json_reads_as(text: Seq<char>, s: Seq<char>) -> bool
    decreases s.len(),
{
    if s.len() == 0 {
        text == seq!['"']
    } else {
        match json_unescaped(text) {
            None => false,
            Some((c, used)) => c == s[0] as int && json_reads_as(text.skip(used), s.drop_first()),
        }
    }
}

/// A character inside a JSON string is read as itself, whatever follows it.
pub proof fn json_char_reads_as_itself(c: char, rest: Seq<char>)
    ensures
        json_unescaped(json_char(c) + rest) == Some((c as int, json_char(c).len() as int)),
        (json_char(c) + rest).skip(json_char(c).len() as int) == rest,
{
    let text = json_char(c) + rest;
    assert(text.skip(json_char(c).len() as int) =~= rest);
    assert(text[0] == json_char(c)[0]);
    if json_char(c).len() >= 2 {
        assert(text[1] == json_char(c)[1]);
    }
    if json_char(c).len() == 6 {
        assert(text[2] == '0' && text[3] == '0');
        assert(text[4] == digit(c as int / 16));
        assert(text[5] == digit(c as int % 16));
        assert(digit_value(digit(c as int / 16)) == c as int / 16);
        assert(digit_value(digit(c as int % 16)) == c as int % 16);
    }
}

proof fn json_chars_read_as_themselves(s: Seq<char>)
    ensures
        json_reads_as(json_chars(s) + seq!['"'], s),
    decreases s.len(),
{
    let text = json_chars(s) + seq!['"'];
    if s.len() == 0 {
        assert(text =~= seq!['"']);
    } else {
        let rest = json_chars(s.drop_first()) + seq!['"'];
        assert(text =~= json_char(s[0]) + rest);
        json_char_reads_as_itself(s[0], rest);
        json_chars_read_as_themselves(s.drop_first());
    }
}

/// A JSON string is read as the string that it was made of.
pub proof fn json_string_reads_as_its_string(s: Seq<char>)
    ensures
        json_string(s)[0] == '"',
        json_reads_as(json_string(s).skip(1), s),
{
    json_chars_read_as_themselves(s);
    assert(json_string(s).skip(1) =~= json_chars(s) + seq!['"']);
}

} // verus!
