use vstd::prelude::*;

verus! {

/// The digit character for a value below ten.
pub open spec fn digit_char(d: nat) -> char {
    if d == 0 {
        '0'
    } else if d == 1 {
        '1'
    } else if d == 2 {
        '2'
    } else if d == 3 {
        '3'
    } else if d == 4 {
        '4'
    } else if d == 5 {
        '5'
    } else if d == 6 {
        '6'
    } else if d == 7 {
        '7'
    } else if d == 8 {
        '8'
    } else {
        '9'
    }
}

/// The value of a digit character; ten for anything that is no digit.
pub open spec fn digit_val(c: char) -> nat {
    if c == '0' {
        0
    } else if c == '1' {
        1
    } else if c == '2' {
        2
    } else if c == '3' {
        3
    } else if c == '4' {
        4
    } else if c == '5' {
        5
    } else if c == '6' {
        6
    } else if c == '7' {
        7
    } else if c == '8' {
        8
    } else if c == '9' {
        9
    } else {
        10
    }
}

pub open spec fn is_digit(c: char) -> bool {
    digit_val(c) < 10
}

/// The decimal numeral of `n`, most significant digit first.
pub open spec fn dec_digits(n: nat) -> Seq<char>
    decreases n,
{
    if n < 10 {
        seq![digit_char(n)]
    } else {
        dec_digits(n / 10) + seq![digit_char(n % 10)]
    }
}

/// The decimal string of a signed value: a minus sign before the
/// numeral of the magnitude when the value is negative.
pub open spec fn int_str(v: int) -> Seq<char> {
    if v < 0 {
        seq!['-'] + dec_digits((-v) as nat)
    } else {
        dec_digits(v as nat)
    }
}

/// The number a sequence of digit characters denotes.
pub open spec fn dec_val(s: Seq<char>) -> nat
    decreases s.len(),
{
    if s.len() == 0 {
        0
    } else {
        dec_val(s.drop_last()) * 10 + digit_val(s.last())
    }
}

/// The number a signed decimal string denotes.
pub open spec fn signed_dec_val(s: Seq<char>) -> int {
    if s.len() > 0 && s[0] == '-' {
        -(dec_val(s.drop_first()) as int)
    } else {
        dec_val(s) as int
    }
}

/// The numeral of `n` consists of digits alone, never starts with a
/// superfluous zero, and parses back to `n`.
pub proof fn lemma_dec_digits_exact(n: nat)
    ensures
        dec_digits(n).len() >= 1,
        forall|i: int| 0 <= i < dec_digits(n).len() ==> is_digit(#[trigger] dec_digits(n)[i]),
        dec_digits(n)[0] == '0' ==> n < 10,
        dec_val(dec_digits(n)) == n,
    decreases n,
{
    if n < 10 {
        let s = dec_digits(n);
        assert(s =~= seq![digit_char(n)]);
        assert(s.last() == digit_char(n));
        assert(s.drop_last() =~= Seq::<char>::empty());
        assert(dec_val(s.drop_last()) == 0);
        assert(dec_val(s) == dec_val(s.drop_last()) * 10 + digit_val(s.last()));
    } else {
        lemma_dec_digits_exact(n / 10);
        let hd = dec_digits(n / 10);
        let s = dec_digits(n);
        assert(s == hd + seq![digit_char(n % 10)]);
        assert(s.drop_last() =~= hd);
        assert(s.last() == digit_char(n % 10));
        assert(dec_val(s) == dec_val(hd) * 10 + digit_val(digit_char(n % 10)));
        assert(digit_val(digit_char(n % 10)) == n % 10);
        assert(dec_val(hd) * 10 + n % 10 == n);
        assert(s[0] == hd[0]);
        assert(n / 10 >= 1 ==> hd[0] == '0' ==> n / 10 < 10);
        assert forall|i: int| 0 <= i < s.len() implies is_digit(#[trigger] s[i]) by {
            if i < hd.len() {
                assert(s[i] == hd[i]);
            } else {
                assert(s[i] == digit_char(n % 10));
            }
        }
    }
}

/// The decimal rendering of an integer value round-trips: reading the
/// rendered string back as a signed decimal numeral yields the value.
pub proof fn lemma_int_str_round_trip(v: int)
    ensures
        signed_dec_val(int_str(v)) == v,
        int_str(v).len() >= 1,
{
    if v < 0 {
        lemma_dec_digits_exact((-v) as nat);
        let s = int_str(v);
        assert(s[0] == '-');
        assert(s.drop_first() =~= dec_digits((-v) as nat));
    } else {
        lemma_dec_digits_exact(v as nat);
        let s = int_str(v);
        assert(s[0] != '-') by {
            assert(is_digit(s[0]));
        }
    }
}

/// Every character of a decimal rendering is a digit or the sign.
pub proof fn lemma_int_str_chars(v: int)
    ensures
        forall|i: int|
            0 <= i < int_str(v).len() ==> is_digit(#[trigger] int_str(v)[i]) || int_str(v)[i]
                == '-',
{
    let s = int_str(v);
    if v < 0 {
        lemma_dec_digits_exact((-v) as nat);
        assert forall|i: int| 0 <= i < s.len() implies is_digit(#[trigger] s[i]) || s[i] == '-' by {
            if i > 0 {
                assert(s[i] == dec_digits((-v) as nat)[i - 1]);
            }
        }
    } else {
        lemma_dec_digits_exact(v as nat);
    }
}

/// The single-character string for a digit value.
fn digit_str(d: u64) -> (r: &'static str)
    requires
        d < 10,
    ensures
        r@ =~= seq![digit_char(d as nat)],
{
    if d == 0 {
        proof {
            reveal_strlit("0");
        }
        "0"
    } else if d == 1 {
        proof {
            reveal_strlit("1");
        }
        "1"
    } else if d == 2 {
        proof {
            reveal_strlit("2");
        }
        "2"
    } else if d == 3 {
        proof {
            reveal_strlit("3");
        }
        "3"
    } else if d == 4 {
        proof {
            reveal_strlit("4");
        }
        "4"
    } else if d == 5 {
        proof {
            reveal_strlit("5");
        }
        "5"
    } else if d == 6 {
        proof {
            reveal_strlit("6");
        }
        "6"
    } else if d == 7 {
        proof {
            reveal_strlit("7");
        }
        "7"
    } else if d == 8 {
        proof {
            reveal_strlit("8");
        }
        "8"
    } else {
        proof {
            reveal_strlit("9");
        }
        "9"
    }
}

/// Appends the decimal numeral of `n` to `out`.
pub fn push_dec_digits(n: u64, out: &mut String)
    ensures
        final(out)@ == old(out)@ + dec_digits(n as nat),
    decreases n,
{
    if n < 10 {
        out.append(digit_str(n));
    } else {
        assert(n / 10 < n);
        push_dec_digits(n / 10, out);
        out.append(digit_str(n % 10));
        proof {
            assert(old(out)@ + dec_digits(n as nat / 10) + seq![digit_char(n as nat % 10)]
                =~= old(out)@ + (dec_digits(n as nat / 10) + seq![digit_char(n as nat % 10)]));
        }
    }
}

/// Renders a signed 32-bit value as its exact decimal string.
pub fn i32_to_string(v: i32) -> (r: String)
    ensures
        r@ == int_str(v as int),
{
    let mut out = String::new();
    if v < 0 {
        proof {
            reveal_strlit("-");
        }
        out.append("-");
        let mag: u64 = (-(v as i64)) as u64;
        push_dec_digits(mag, &mut out);
        proof {
            assert(out@ =~= seq!['-'] + dec_digits(mag as nat));
        }
    } else {
        push_dec_digits(v as u64, &mut out);
        proof {
            assert(Seq::<char>::empty() + dec_digits(v as nat) =~= dec_digits(v as nat));
        }
    }
    out
}

} // verus!
