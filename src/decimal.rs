//! Decimal integer text: reading digits into integers and writing integers as digits.

use vstd::prelude::*;

verus! {

/// Whether `c` is an ASCII decimal digit.
pub open spec fn is_digit(c: char) -> bool {
    '0' <= c && c <= '9'
}

/// The value of a decimal digit.
pub open spec fn digit_value(c: char) -> nat {
    (c as int - '0' as int) as nat
}

/// Whether every character of `s` is a decimal digit.
pub open spec fn all_digits(s: Seq<char>) -> bool {
    forall|i: int| 0 <= i < s.len() ==> is_digit(#[trigger] s[i])
}

/// The number that a run of decimal digits denotes (most significant first).
pub open spec fn digits_value(s: Seq<char>) -> nat
    decreases s.len(),
{
    if s.len() == 0 {
        0
    } else {
        digits_value(s.drop_last()) * 10 + digit_value(s.last())
    }
}

/// Unsigned integer text: one or more digits whose value fits in a `u128`.
pub open spec fn unsigned_text_value(s: Seq<char>) -> Option<u128> {
    if s.len() > 0 && all_digits(s) && digits_value(s) <= u128::MAX {
        Some(digits_value(s) as u128)
    } else {
        None
    }
}

/// Signed 8-bit integer text: digits, or `-` and digits of a non-zero magnitude,
/// within the range of an `i8`.
pub open spec fn i8_text_value(s: Seq<char>) -> Option<i8> {
    if s.len() > 0 && s[0] == '-' {
        match unsigned_text_value(s.drop_first()) {
            Some(m) => if 1 <= m <= 128 {
                Some((-(m as int)) as i8)
            } else {
                None
            },
            None => None,
        }
    } else {
        match unsigned_text_value(s) {
            Some(m) => if m <= 127 {
                Some(m as i8)
            } else {
                None
            },
            None => None,
        }
    }
}

/// The digit character of a value below ten.
pub open spec fn digit_char(d: nat) -> char {
    ((d + '0' as nat) as u8) as char
}

/// The shortest decimal digits of `n`.
pub open spec fn nat_text(n: nat) -> Seq<char>
    decreases n,
{
    if n < 10 {
        seq![digit_char(n)]
    } else {
        nat_text(n / 10).push(digit_char(n % 10))
    }
}

/// The decimal text of a signed integer, with `-` before a negative one.
pub open spec fn int_text(i: int) -> Seq<char> {
    if i < 0 {
        seq!['-'] + nat_text((-i) as nat)
    } else {
        nat_text(i as nat)
    }
}

proof fn lemma_digits_value_prefix_grows(s: Seq<char>, i: int, j: int)
    requires
        0 <= i <= j <= s.len(),
        all_digits(s),
    ensures
        digits_value(s.take(i)) <= digits_value(s.take(j)),
    decreases j - i,
{
    if i < j {
        lemma_digits_value_prefix_grows(s, i, j - 1);
        assert(s.take(j).drop_last() =~= s.take(j - 1));
    }
}

proof fn lemma_digit_char(d: nat)
    requires
        d < 10,
    ensures
        is_digit(digit_char(d)),
        digit_value(digit_char(d)) == d,
{
}

/// Writing then reading digits gives the number back.
pub proof fn lemma_nat_text_reads_back(n: nat)
    ensures
        nat_text(n).len() > 0,
        all_digits(nat_text(n)),
        digits_value(nat_text(n)) == n,
        nat_text(n)[0] != '-',
    decreases n,
{
    if n < 10 {
        lemma_digit_char(n);
        let t = nat_text(n);
        assert(t.drop_last() =~= Seq::<char>::empty());
        assert(digits_value(t) == digits_value(t.drop_last()) * 10 + digit_value(t.last()));
    } else {
        assert(n == (n / 10) * 10 + n % 10) by (nonlinear_arith);
        lemma_digit_char(n % 10);
        lemma_nat_text_reads_back(n / 10);
        let t = nat_text(n);
        assert(t.drop_last() =~= nat_text(n / 10));
        assert(t.last() == digit_char(n % 10));
        assert(digits_value(t) == digits_value(t.drop_last()) * 10 + digit_value(t.last()));
        assert forall|i: int| 0 <= i < t.len() implies is_digit(#[trigger] t[i]) by {
            if i < t.len() - 1 {
                assert(t[i] == nat_text(n / 10)[i]);
            }
        }
    }
}

/// Reading the decimal text of an `i8` gives it back.
pub proof fn lemma_i8_text_reads_back(g: i8)
    ensures
        i8_text_value(int_text(g as int)) == Some(g),
{
    if g < 0 {
        let m: nat = (-(g as int)) as nat;
        lemma_nat_text_reads_back(m);
        assert((seq!['-'] + nat_text(m)).drop_first() =~= nat_text(m));
    } else {
        lemma_nat_text_reads_back(g as nat);
    }
}

/// Reading the decimal text of a `u128` gives it back.
pub proof fn lemma_u128_text_reads_back(t: u128)
    ensures
        unsigned_text_value(nat_text(t as nat)) == Some(t),
{
    lemma_nat_text_reads_back(t as nat);
}

/// Reads the unsigned integer that `s` holds from character `start` on.
pub fn unsigned_value_from(s: &str, start: usize) -> (r: Option<u128>)
    requires
        start <= s@.len(),
    ensures
        r == unsigned_text_value(s@.subrange(start as int, s@.len() as int)),
{
    let n = s.unicode_len();
    let ghost t = s@.subrange(start as int, s@.len() as int);
    if n == start {
        return None;
    }
    let mut acc: u128 = 0;
    let mut i: usize = start;
    while i < n
        invariant
            start <= i <= n,
            n == s@.len(),
            t == s@.subrange(start as int, n as int),
            all_digits(t.take(i - start)),
            acc as nat == digits_value(t.take(i - start)),
        decreases n - i,
    {
        let c = s.get_char(i);
        assert(t[i - start] == c);
        if c < '0' || c > '9' {
            assert(!all_digits(t));
            return None;
        }
        let d: u128 = (c as u32 - '0' as u32) as u128;
        assert(t.take(i + 1 - start).drop_last() =~= t.take(i - start));
        assert(all_digits(t.take(i + 1 - start))) by {
            assert forall|k: int| 0 <= k < i + 1 - start implies is_digit(
                #[trigger] t.take(i + 1 - start)[k],
            ) by {
                if k < i - start {
                    assert(t.take(i + 1 - start)[k] == t.take(i - start)[k]);
                }
            }
        }
        match acc.checked_mul(10) {
            Some(m) => match m.checked_add(d) {
                Some(v) => {
                    acc = v;
                },
                None => {
                    proof {
                        lemma_rest_all_digits_or_not(t, i + 1 - start);
                    }
                    return None;
                },
            },
            None => {
                assert(digits_value(t.take(i + 1 - start)) > u128::MAX) by (nonlinear_arith)
                    requires
                        acc * 10 > u128::MAX,
                        digits_value(t.take(i + 1 - start)) == acc * 10 + d,
                ;
                proof {
                    lemma_rest_all_digits_or_not(t, i + 1 - start);
                }
                return None;
            },
        }
        i = i + 1;
    }
    assert(t.take(n - start) =~= t);
    Some(acc)
}

/// Once a prefix of digits is past `u128::MAX`, so is the whole text, if it is digits.
proof fn lemma_rest_all_digits_or_not(t: Seq<char>, k: int)
    requires
        0 <= k <= t.len(),
        digits_value(t.take(k)) > u128::MAX,
    ensures
        unsigned_text_value(t) is None,
{
    if all_digits(t) {
        lemma_digits_value_prefix_grows(t, k, t.len() as int);
        assert(t.take(t.len() as int) =~= t);
    }
}

fn digit_str(d: u128) -> (r: &'static str)
    requires
        d < 10,
    ensures
        r@ == seq![digit_char(d as nat)],
{
    match d {
        0 => {
            proof {
                reveal_strlit("0");
            }
            "0"
        },
        1 => {
            proof {
                reveal_strlit("1");
            }
            "1"
        },
        2 => {
            proof {
                reveal_strlit("2");
            }
            "2"
        },
        3 => {
            proof {
                reveal_strlit("3");
            }
            "3"
        },
        4 => {
            proof {
                reveal_strlit("4");
            }
            "4"
        },
        5 => {
            proof {
                reveal_strlit("5");
            }
            "5"
        },
        6 => {
            proof {
                reveal_strlit("6");
            }
            "6"
        },
        7 => {
            proof {
                reveal_strlit("7");
            }
            "7"
        },
        8 => {
            proof {
                reveal_strlit("8");
            }
            "8"
        },
        _ => {
            proof {
                reveal_strlit("9");
            }
            "9"
        },
    }
}

/// Writes `n` in decimal digits.
pub fn unsigned_text(n: u128) -> (r: String)
    ensures
        r@ == nat_text(n as nat),
    decreases n,
{
    if n < 10 {
        String::from_str(digit_str(n))
    } else {
        let head = unsigned_text(n / 10);
        head.concat(digit_str(n % 10))
    }
}

/// Writes `g` in decimal digits, after `-` where it is negative.
pub fn i8_text(g: i8) -> (r: String)
    ensures
        r@ == int_text(g as int),
{
    if g < 0 {
        let m: u128 = (0i16 - g as i16) as u128;
        let mut r = String::from_str("-");
        proof {
            reveal_strlit("-");
        }
        r.append(unsigned_text(m).as_str());
        r
    } else {
        unsigned_text(g as u128)
    }
}

/// Reads the signed 8-bit integer that `s` holds.
pub fn i8_value(s: &str) -> (r: Option<i8>)
    ensures
        r == i8_text_value(s@),
{
    let n = s.unicode_len();
    if n > 0 && s.get_char(0) == '-' {
        assert(s@.subrange(1, s@.len() as int) =~= s@.drop_first());
        match unsigned_value_from(s, 1) {
            Some(m) => if 1 <= m && m <= 128 {
                Some((0i16 - m as i16) as i8)
            } else {
                None
            },
            None => None,
        }
    } else {
        assert(s@.subrange(0, s@.len() as int) =~= s@);
        match unsigned_value_from(s, 0) {
            Some(m) => if m <= 127 {
                Some(m as i8)
            } else {
                None
            },
            None => None,
        }
    }
}

/// Reads the unsigned integer that `s` holds.
pub fn u128_value(s: &str) -> (r: Option<u128>)
    ensures
        r == unsigned_text_value(s@),
{
    assert(s@.subrange(0, s@.len() as int) =~= s@);
    unsigned_value_from(s, 0)
}

} // verus!
