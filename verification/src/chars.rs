//! Character-level helpers: ASCII case folding and decimal rendering of
//! numbers.  Output-path suffixes and crop-filter strings are built from
//! these, so their contracts pin the exact character sequences produced.

use vstd::prelude::*;

verus! {

/// The digit character for a value below ten.
pub open spec fn digit_char(d: nat) -> char {
    if d == 0 {
        '0'
    } else if d == 1 {
        '1'
    } else if d == 2 {
        '2'
    } else if d == 3 {
        '3'
    } else if d == 4 {
        '4'
    } else if d == 5 {
        '5'
    } else if d == 6 {
        '6'
    } else if d == 7 {
        '7'
    } else if d == 8 {
        '8'
    } else {
        '9'
    }
}

/// The value a digit character stands for.
pub open spec fn digit_val(c: char) -> nat {
    if c == '1' {
        1
    } else if c == '2' {
        2
    } else if c == '3' {
        3
    } else if c == '4' {
        4
    } else if c == '5' {
        5
    } else if c == '6' {
        6
    } else if c == '7' {
        7
    } else if c == '8' {
        8
    } else if c == '9' {
        9
    } else {
        0
    }
}

/// Decimal representation of a natural number, most significant digit first,
/// without leading zeros (except for zero itself).
pub open spec fn dec_digits(n: nat) -> Seq<char>
    decreases n,
{
    if n < 10 {
        seq![digit_char(n)]
    } else {
        dec_digits(n / 10) + seq![digit_char(n % 10)]
    }
}

/// The number a digit sequence denotes, most significant digit first.
pub open spec fn dec_val(s: Seq<char>) -> nat
    decreases s.len(),
{
    if s.len() == 0 {
        0
    } else {
        dec_val(s.drop_last()) * 10 + digit_val(s.last())
    }
}

/// Reading back one digit character yields the digit.
pub proof fn lemma_digit_roundtrip(d: nat)
    requires
        d < 10,
    ensures
        digit_val(digit_char(d)) == d,
{
    if d == 0 {
        assert(digit_val('0') == 0);
    } else if d == 1 {
        assert(digit_val('1') == 1);
    } else if d == 2 {
        assert(digit_val('2') == 2);
    } else if d == 3 {
        assert(digit_val('3') == 3);
    } else if d == 4 {
        assert(digit_val('4') == 4);
    } else if d == 5 {
        assert(digit_val('5') == 5);
    } else if d == 6 {
        assert(digit_val('6') == 6);
    } else if d == 7 {
        assert(digit_val('7') == 7);
    } else if d == 8 {
        assert(digit_val('8') == 8);
    } else {
        assert(digit_val('9') == 9);
    }
}

/// Reading back the decimal representation of `n` yields `n`.
pub proof fn lemma_dec_digits_val(n: nat)
    ensures
        dec_val(dec_digits(n)) == n,
    decreases n,
{
    if n < 10 {
        lemma_digit_roundtrip(n);
        assert(dec_digits(n) =~= seq![digit_char(n)]);
        assert(seq![digit_char(n)].drop_last() =~= Seq::<char>::empty());
        assert(dec_val(seq![digit_char(n)]) == dec_val(Seq::<char>::empty()) * 10 + digit_val(
            digit_char(n),
        ));
    } else {
        lemma_dec_digits_val(n / 10);
        lemma_digit_roundtrip(n % 10);
        let s = dec_digits(n);
        assert(s.drop_last() =~= dec_digits(n / 10));
        assert(s.last() == digit_char(n % 10));
        assert(dec_val(s) == dec_val(dec_digits(n / 10)) * 10 + digit_val(digit_char(n % 10)));
    }
}

/// A digit character lies between `'0'` and `'9'`.
pub proof fn lemma_digit_char_bounds(d: nat)
    ensures
        '0' <= digit_char(d) && digit_char(d) <= '9',
{
    if d == 0 {
        assert('0' <= '0' && '0' <= '9');
    } else if d == 1 {
        assert('0' <= '1' && '1' <= '9');
    } else if d == 2 {
        assert('0' <= '2' && '2' <= '9');
    } else if d == 3 {
        assert('0' <= '3' && '3' <= '9');
    } else if d == 4 {
        assert('0' <= '4' && '4' <= '9');
    } else if d == 5 {
        assert('0' <= '5' && '5' <= '9');
    } else if d == 6 {
        assert('0' <= '6' && '6' <= '9');
    } else if d == 7 {
        assert('0' <= '7' && '7' <= '9');
    } else if d == 8 {
        assert('0' <= '8' && '8' <= '9');
    } else {
        assert('0' <= '9' && '9' <= '9');
    }
}

/// Every character of a decimal representation is a digit.
pub proof fn lemma_dec_digits_chars(n: nat)
    ensures
        forall|i: int|
            0 <= i < dec_digits(n).len() ==> '0' <= #[trigger] dec_digits(n)[i] && dec_digits(
                n,
            )[i] <= '9',
    decreases n,
{
    if n < 10 {
        lemma_digit_char_bounds(n);
        assert(dec_digits(n)[0] == digit_char(n));
    } else {
        lemma_dec_digits_chars(n / 10);
        lemma_digit_char_bounds(n % 10);
        let p = dec_digits(n / 10);
        assert forall|i: int|
            0 <= i < dec_digits(n).len() implies '0' <= #[trigger] dec_digits(n)[i] && dec_digits(
            n,
        )[i] <= '9' by {
            if i < p.len() {
                assert(dec_digits(n)[i] == p[i]);
            } else {
                assert(dec_digits(n)[i] == digit_char(n % 10));
            }
        }
    }
}

/// Distinct numbers have distinct decimal representations.
pub proof fn lemma_dec_digits_injective(a: nat, b: nat)
    requires
        dec_digits(a) == dec_digits(b),
    ensures
        a == b,
{
    lemma_dec_digits_val(a);
    lemma_dec_digits_val(b);
}

/// The single-character string for a digit below ten.
pub fn digit_str(d: u64) -> (r: &'static str)
    requires
        d < 10,
    ensures
        r@ =~= seq![digit_char(d as nat)],
{
    proof {
        reveal_strlit("0");
        reveal_strlit("1");
        reveal_strlit("2");
        reveal_strlit("3");
        reveal_strlit("4");
        reveal_strlit("5");
        reveal_strlit("6");
        reveal_strlit("7");
        reveal_strlit("8");
        reveal_strlit("9");
    }
    match d {
        0 => "0",
        1 => "1",
        2 => "2",
        3 => "3",
        4 => "4",
        5 => "5",
        6 => "6",
        7 => "7",
        8 => "8",
        _ => "9",
    }
}

/// Renders a number in decimal.
pub fn u64_to_string(n: u64) -> (r: String)
    ensures
        r@ == dec_digits(n as nat),
    decreases n,
{
    if n < 10 {
        String::from_str(digit_str(n))
    } else {
        let prefix = u64_to_string(n / 10);
        let r = prefix.concat(digit_str(n % 10));
        proof {
            assert(r@ =~= dec_digits(n as nat));
        }
        r
    }
}

/// Whether `c` is an ASCII upper-case letter.
pub open spec fn is_ascii_upper(c: char) -> bool {
    'A' <= c && c <= 'Z'
}

/// ASCII lower-casing of one character; everything else is unchanged.
pub open spec fn lower_char(c: char) -> char {
    if is_ascii_upper(c) {
        ((c as u32) + 32) as char
    } else {
        c
    }
}

/// ASCII lower-casing of a character sequence.
pub open spec fn lower_seq(s: Seq<char>) -> Seq<char> {
    s.map_values(|c: char| lower_char(c))
}

/// Whether two characters are equal up to ASCII case.
pub fn chars_eq_ignore_case(a: char, b: char) -> (r: bool)
    ensures
        r == (lower_char(a) == lower_char(b)),
{
    let au = a as u32;
    let bu = b as u32;
    let af = if 65 <= au && au <= 90 {
        au + 32
    } else {
        au
    };
    let bf = if 65 <= bu && bu <= 90 {
        bu + 32
    } else {
        bu
    };
    proof {
        assert(('A' as u32) == 65 && ('Z' as u32) == 90);
    }
    af == bf
}

} // verus!
