//! Key names in the interception plugin's configuration.
use vstd::prelude::*;
use crate::text::{
    all_digits, decimal, digit_char, digit_value, digits_value, is_digit, parse_u16, parse_unsigned,
    str_equals, unsigned_digits,
};

verus! {

/// The key code that a configured key name gives: `NONE` and `-1` mean no
/// key; otherwise the name must be a decimal key code that fits in a `u16`.
pub open spec fn key_of_name(name: Seq<char>) -> Option<u16> {
    if name == "NONE"@ || name == "-1"@ {
        None
    } else {
        match parse_unsigned(name, 0xffff) {
            Some(v) => Some(v as u16),
            None => None,
        }
    }
}

/// Reads a configured key name.
pub fn parse_key(name: &str) -> (r: Option<u16>)
    ensures
        r == key_of_name(name@),
{
    if str_equals(name, "NONE") || str_equals(name, "-1") {
        return None;
    }
    parse_u16(name)
}

/// `n` zeros.
pub open spec fn zeros(n: nat) -> Seq<char> {
    Seq::new(n, |i: int| '0')
}

proof fn lemma_digit_char(d: nat)
    requires
        d < 10,
    ensures
        is_digit(digit_char(d)),
        digit_value(digit_char(d)) == d,
{
    assert(d == 0 || d == 1 || d == 2 || d == 3 || d == 4 || d == 5 || d == 6 || d == 7 || d == 8
        || d == 9);
    if d == 0 {
        assert(digit_char(0) == '0');
    } else if d == 1 {
        assert(digit_char(1) == '1');
    } else if d == 2 {
        assert(digit_char(2) == '2');
    } else if d == 3 {
        assert(digit_char(3) == '3');
    } else if d == 4 {
        assert(digit_char(4) == '4');
    } else if d == 5 {
        assert(digit_char(5) == '5');
    } else if d == 6 {
        assert(digit_char(6) == '6');
    } else if d == 7 {
        assert(digit_char(7) == '7');
    } else if d == 8 {
        assert(digit_char(8) == '8');
    } else {
        assert(digit_char(9) == '9');
    }
}

/// The decimal writing of `n` is a non-empty string of digits whose value
/// is `n`.
proof fn lemma_decimal_reads_back(n: nat)
    ensures
        decimal(n).len() > 0,
        all_digits(decimal(n)),
        digits_value(decimal(n)) == n,
    decreases n,
{
    if n < 10 {
        lemma_digit_char(n);
        let d = seq![digit_char(n)];
        assert(decimal(n) == d);
        assert(d.drop_last() =~= Seq::<char>::empty());
        assert(digits_value(Seq::<char>::empty()) == 0);
        assert(digits_value(d) == digits_value(d.drop_last()) * 10 + digit_value(d.last()));
    } else {
        lemma_decimal_reads_back(n / 10);
        lemma_digit_char(n % 10);
        let d = decimal(n);
        assert(d == decimal(n / 10).push(digit_char(n % 10)));
        assert(d.drop_last() =~= decimal(n / 10));
        assert(d.last() == digit_char(n % 10));
        assert(digits_value(d) == digits_value(d.drop_last()) * 10 + digit_value(d.last()));
        assert(n == (n / 10) * 10 + n % 10);
        assert forall|i: int| 0 <= i < d.len() implies is_digit(#[trigger] d[i]) by {
            if i < d.len() - 1 {
                assert(d[i] == decimal(n / 10)[i]);
            }
        }
    }
}

/// Leading zeros do not change the value of a string of digits.
proof fn lemma_leading_zeros(z: nat, d: Seq<char>)
    requires
        all_digits(d),
    ensures
        all_digits(zeros(z) + d),
        digits_value(zeros(z) + d) == digits_value(d),
    decreases d.len() + z,
{
    let s = zeros(z) + d;
    assert forall|i: int| 0 <= i < s.len() implies is_digit(#[trigger] s[i]) by {
        if i < z {
            assert(s[i] == '0');
        } else {
            assert(s[i] == d[i - z]);
        }
    }
    if d.len() > 0 {
        assert(s.drop_last() =~= zeros(z) + d.drop_last());
        lemma_leading_zeros(z, d.drop_last());
    } else if z > 0 {
        assert(s.drop_last() =~= zeros((z - 1) as nat) + d);
        lemma_leading_zeros((z - 1) as nat, d);
        assert(s.last() == '0');
    } else {
        assert(s =~= Seq::<char>::empty());
    }
}

/// Writing a key code in decimal, with any number of leading zeros, and
/// reading it back gives the same key code.
pub proof fn law_key_round_trip(v: u16, z: nat)
    ensures
        key_of_name(zeros(z) + decimal(v as nat)) == Some(v),
{
    let d = decimal(v as nat);
    lemma_decimal_reads_back(v as nat);
    lemma_leading_zeros(z, d);
    let s = zeros(z) + d;
    assert(is_digit(s[0]));
    reveal_strlit("NONE");
    reveal_strlit("-1");
    assert(s != "NONE"@) by {
        assert("NONE"@[0] == 'N');
    }
    assert(s != "-1"@) by {
        assert("-1"@[0] == '-');
    }
    assert(s[0] != '+');
    assert(unsigned_digits(s) == s);
}

} // verus!
