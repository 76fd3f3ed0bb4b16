//! Decimal segments of the wire format: rendering a counter as its decimal
//! digits and reading a trailing segment back as a number, with the fallback
//! to 0 that keeps parsing total.

use vstd::prelude::*;

verus! {

/// A decimal digit character.
pub open spec fn is_digit(c: char) -> bool {
    48 <= c as int && c as int <= 57
}

/// The numeric value of a digit character.
pub open spec fn digit_val(c: char) -> nat {
    (c as int - 48) as nat
}

/// The digit character for a value below ten.
pub open spec fn digit_char(d: nat) -> char {
    if d == 0 {
        '0'
    } else if d == 1 {
        '1'
    } else if d == 2 {
        '2'
    } else if d == 3 {
        '3'
    } else if d == 4 {
        '4'
    } else if d == 5 {
        '5'
    } else if d == 6 {
        '6'
    } else if d == 7 {
        '7'
    } else if d == 8 {
        '8'
    } else {
        '9'
    }
}

/// Every character of the string is a decimal digit.
pub open spec fn all_digits(s: Seq<char>) -> bool {
    forall|i: int| 0 <= i < s.len() ==> is_digit(#[trigger] s[i])
}

/// The numeric value of a digit string read in base ten.
pub open spec fn dec_val(s: Seq<char>) -> nat
    decreases s.len(),
{
    if s.len() == 0 {
        0
    } else {
        dec_val(s.drop_last()) * 10 + digit_val(s.last())
    }
}

/// The canonical decimal rendering of a number: no sign, no leading zeros.
pub open spec fn dec_str(n: nat) -> Seq<char>
    decreases n,
{
    if n < 10 {
        seq![digit_char(n)]
    } else {
        dec_str(n / 10).push(digit_char(n % 10))
    }
}

/// A segment that denotes a number fitting in a `u32`: non-empty, digits
/// only, value at most `u32::MAX`.
pub open spec fn valid_u32_digits(s: Seq<char>) -> bool {
    s.len() > 0 && all_digits(s) && dec_val(s) <= u32::MAX
}

/// The extension denoted by a trailing segment: its numeric value when it is
/// a valid `u32` decimal, and the documented fallback 0 otherwise.
pub open spec fn extension_of(s: Seq<char>) -> nat {
    if valid_u32_digits(s) {
        dec_val(s)
    } else {
        0
    }
}

/// Ten to the power `k`.
pub open spec fn pow10(k: nat) -> nat
    decreases k,
{
    if k == 0 {
        1
    } else {
        10 * pow10((k - 1) as nat)
    }
}

/// A rendered number consists of digit characters only and is never empty.
pub proof fn lemma_dec_str_digits(n: nat)
    ensures
        all_digits(dec_str(n)),
        dec_str(n).len() >= 1,
    decreases n,
{
    if n < 10 {
        assert(is_digit(digit_char(n)));
        assert forall|i: int| 0 <= i < dec_str(n).len() implies is_digit(#[trigger] dec_str(n)[i]) by {
            assert(dec_str(n)[i] == digit_char(n));
        }
    } else {
        lemma_dec_str_digits(n / 10);
        assert(is_digit(digit_char(n % 10)));
        assert forall|i: int| 0 <= i < dec_str(n).len() implies is_digit(#[trigger] dec_str(n)[i]) by {
            if i < dec_str(n / 10).len() {
                assert(dec_str(n)[i] == dec_str(n / 10)[i]);
            } else {
                assert(dec_str(n)[i] == digit_char(n % 10));
            }
        }
    }
}

/// Reading the rendering of `n` back yields `n`.
pub proof fn lemma_dec_str_round_trip(n: nat)
    ensures
        dec_val(dec_str(n)) == n,
    decreases n,
{
    if n < 10 {
        let s = dec_str(n);
        assert(s.drop_last() =~= Seq::<char>::empty());
        assert(s.last() == digit_char(n));
        assert(digit_val(digit_char(n)) == n);
        assert(dec_val(Seq::<char>::empty()) == 0);
        assert(dec_val(s) == dec_val(s.drop_last()) * 10 + digit_val(s.last()));
    } else {
        lemma_dec_str_round_trip(n / 10);
        let pre = dec_str(n / 10);
        let s = dec_str(n);
        assert(s =~= pre.push(digit_char(n % 10)));
        assert(s.drop_last() =~= pre);
        assert(s.last() == digit_char(n % 10));
        assert(digit_val(digit_char(n % 10)) == n % 10);
        assert(dec_val(s) == (n / 10) * 10 + n % 10);
    }
}

/// A number below ten to the `k` renders in at most `k` digits.
pub proof fn lemma_dec_str_len_le(n: nat, k: nat)
    requires
        k >= 1,
        n < pow10(k),
    ensures
        dec_str(n).len() <= k,
    decreases k,
{
    if n < 10 {
    } else {
        assert(k >= 2) by {
            reveal_with_fuel(pow10, 2);
            if k == 1 {
                assert(pow10(1) == 10);
            }
        }
        assert(pow10(k) == 10 * pow10((k - 1) as nat));
        assert(n / 10 < pow10((k - 1) as nat)) by {
            if n / 10 >= pow10((k - 1) as nat) {
                assert(n >= (n / 10) * 10) by (nonlinear_arith);
                assert((n / 10) * 10 >= pow10((k - 1) as nat) * 10) by (nonlinear_arith)
                    requires
                        n / 10 >= pow10((k - 1) as nat),
                ;
            }
        }
        lemma_dec_str_len_le(n / 10, (k - 1) as nat);
    }
}

/// A `u32` value renders in at most ten digits.
pub proof fn lemma_dec_str_u32_len(n: nat)
    requires
        n <= u32::MAX,
    ensures
        1 <= dec_str(n).len() <= 10,
{
    lemma_dec_str_digits(n);
    reveal_with_fuel(pow10, 11);
    assert(pow10(10) == 10000000000);
    lemma_dec_str_len_le(n, 10);
}

/// The value of a prefix never exceeds the value of a longer prefix.
pub proof fn lemma_dec_val_prefix_mono(s: Seq<char>, i: int, j: int)
    requires
        0 <= i <= j <= s.len(),
    ensures
        dec_val(s.take(i)) <= dec_val(s.take(j)),
    decreases j - i,
{
    if i < j {
        lemma_dec_val_prefix_mono(s, i, j - 1);
        assert(s.take(j).drop_last() =~= s.take(j - 1));
        assert(dec_val(s.take(j)) == dec_val(s.take(j - 1)) * 10 + digit_val(s.take(j).last()));
    }
}

/// The single-character string for a digit value.
fn digit_literal(d: u64) -> (r: &'static str)
    requires
        d < 10,
    ensures
        r@ == seq![digit_char(d as nat)],
{
    proof {
        reveal_strlit("0");
        reveal_strlit("1");
        reveal_strlit("2");
        reveal_strlit("3");
        reveal_strlit("4");
        reveal_strlit("5");
        reveal_strlit("6");
        reveal_strlit("7");
        reveal_strlit("8");
        reveal_strlit("9");
    }
    let r: &'static str = match d {
        0 => "0",
        1 => "1",
        2 => "2",
        3 => "3",
        4 => "4",
        5 => "5",
        6 => "6",
        7 => "7",
        8 => "8",
        _ => "9",
    };
    proof {
        assert(r@ =~= seq![digit_char(d as nat)]);
    }
    r
}

/// Renders `n` as its canonical decimal digits.
pub fn u64_to_string(n: u64) -> (r: String)
    ensures
        r@ == dec_str(n as nat),
    decreases n,
{
    let d = n % 10;
    let digit = digit_literal(d);
    if n < 10 {
        let r = digit.to_owned();
        proof {
            assert(r@ =~= dec_str(n as nat));
        }
        r
    } else {
        let mut r = u64_to_string(n / 10);
        r.append(digit);
        proof {
            assert(r@ =~= dec_str(n as nat));
        }
        r
    }
}

/// Reads a trailing extension segment: the denoted value when the segment is
/// a valid `u32` decimal, and the documented fallback 0 otherwise.
pub fn parse_extension_segment(s: &str) -> (r: u32)
    ensures
        r as nat == extension_of(s@),
{
    let n = s.unicode_len();
    if n == 0 {
        return 0;
    }
    let mut i: usize = 0;
    while i < n
        invariant
            0 <= i <= n,
            n == s@.len(),
            forall|j: int| 0 <= j < i ==> is_digit(#[trigger] s@[j]),
        decreases n - i,
    {
        let c = s.get_char(i);
        let u = c as u32;
        if u < 48 || u > 57 {
            proof {
                assert(!is_digit(s@[i as int]));
            }
            return 0;
        }
        i += 1;
    }
    let mut val: u64 = 0;
    let mut k: usize = 0;
    while k < n
        invariant
            0 <= k <= n,
            n == s@.len(),
            all_digits(s@),
            val as nat == dec_val(s@.take(k as int)),
            val <= 0xFFFF_FFFF,
        decreases n - k,
    {
        let c = s.get_char(k);
        let d = (c as u64) - 48;
        proof {
            assert(s@.take(k as int + 1).drop_last() =~= s@.take(k as int));
            assert(s@.take(k as int + 1).last() == s@[k as int]);
            assert(d as nat == digit_val(s@[k as int]));
        }
        val = val * 10 + d;
        k += 1;
        if val > 0xFFFF_FFFF {
            proof {
                lemma_dec_val_prefix_mono(s@, k as int, n as int);
                assert(s@.take(n as int) =~= s@);
                assert(!valid_u32_digits(s@));
            }
            return 0;
        }
    }
    proof {
        assert(s@.take(n as int) =~= s@);
        assert(valid_u32_digits(s@));
    }
    val as u32
}

/// The number of digits in the decimal rendering of `n`.
pub fn decimal_digit_count(n: u32) -> (r: usize)
    ensures
        r as int == dec_str(n as nat).len(),
        1 <= r <= 10,
{
    proof {
        lemma_dec_str_u32_len(n as nat);
    }
    let mut m = n;
    let mut k: usize = 1;
    while m >= 10
        invariant
            dec_str(n as nat).len() == dec_str(m as nat).len() + k - 1,
            1 <= k,
            k - 1 <= dec_str(n as nat).len() - 1,
            dec_str(n as nat).len() <= 10,
        decreases m,
    {
        proof {
            lemma_dec_str_digits(m as nat / 10);
        }
        m = m / 10;
        k += 1;
    }
    k
}

} // verus!
