//! Reading integers from text, by the rules of the standard library's
//! `from_str_radix`: an optional sign, then at least one digit, and nothing
//! else; a value outside the target type is refused.

use crate::text::slice_of;
use vstd::prelude::*;

verus! {

/// The value of `c` as a digit: decimal, or hexadecimal where `hex` is set.
pub open spec fn digit_of(c: char, hex: bool) -> Option<int> {
    let x = c as u32 as int;
    if 48 <= x <= 57 {
        Some(x - 48)
    } else if hex && 97 <= x <= 102 {
        Some(x - 87)
    } else if hex && 65 <= x <= 70 {
        Some(x - 55)
    } else {
        None
    }
}

/// Every character of `s` is a digit.
pub open spec fn all_digits(s: Seq<char>, hex: bool) -> bool {
    forall|i: int| 0 <= i < s.len() ==> (#[trigger] digit_of(s[i], hex)).is_some()
}

/// `x` moved one digit to the left.
pub open spec fn shift_digit(x: int, hex: bool) -> int {
    if hex {
        x * 16
    } else {
        x * 10
    }
}

/// The number that the digits of `s` write.
pub open spec fn digits_value(s: Seq<char>, hex: bool) -> int
    decreases s.len(),
{
    if s.len() == 0 {
        0
    } else {
        shift_digit(digits_value(s.drop_last(), hex), hex) + digit_of(s.last(), hex).unwrap()
    }
}

/// The number that `s` writes without a minus sign: an optional `+`, then
/// one digit or more.
pub open spec fn unsigned_value(s: Seq<char>, hex: bool) -> Option<int> {
    let body = if s.len() > 0 && s[0] == '+' {
        s.skip(1)
    } else {
        s
    };
    if body.len() > 0 && all_digits(body, hex) {
        Some(digits_value(body, hex))
    } else {
        None
    }
}

/// The number that `s` writes in decimal: an optional `+` or `-`, then one
/// digit or more.
pub open spec fn signed_value(s: Seq<char>) -> Option<int> {
    let signed = s.len() > 0 && (s[0] == '+' || s[0] == '-');
    let body = if signed {
        s.skip(1)
    } else {
        s
    };
    if body.len() > 0 && all_digits(body, false) {
        if s[0] == '-' {
            Some(-digits_value(body, false))
        } else {
            Some(digits_value(body, false))
        }
    } else {
        None
    }
}

/// `n` where it lies within `0..=max`.
pub open spec fn within(n: Option<int>, max: int) -> Option<int> {
    match n {
        Some(x) if 0 <= x <= max => Some(x),
        _ => None,
    }
}

/// A number written with digits is not negative, and no smaller than what
/// any of its prefixes writes.
pub proof fn lemma_digits_grow(s: Seq<char>, hex: bool, k: int)
    requires
        all_digits(s, hex),
        0 <= k <= s.len(),
    ensures
        0 <= digits_value(s.take(k), hex) <= digits_value(s, hex),
    decreases s.len(),
{
    if k == s.len() {
        assert(s.take(k) =~= s);
        if s.len() > 0 {
            assert(digit_of(s[s.len() - 1], hex).is_some());
            assert(s.drop_last() =~= s.take(k - 1));
            assert(all_digits(s.drop_last(), hex)) by {
                assert forall|i: int| 0 <= i < s.drop_last().len() implies (#[trigger] digit_of(
                    s.drop_last()[i],
                    hex,
                )).is_some() by {
                    assert(digit_of(s[i], hex).is_some());
                }
            }
            lemma_digits_grow(s.drop_last(), hex, k - 1);
            assert(s.drop_last().take(k - 1) =~= s.drop_last());
        }
    } else {
        assert(digit_of(s[s.len() - 1], hex).is_some());
        assert(all_digits(s.drop_last(), hex)) by {
            assert forall|i: int| 0 <= i < s.drop_last().len() implies (#[trigger] digit_of(
                s.drop_last()[i],
                hex,
            )).is_some() by {
                assert(digit_of(s[i], hex).is_some());
            }
        }
        lemma_digits_grow(s.drop_last(), hex, k);
        assert(s.drop_last().take(k) =~= s.take(k));
        lemma_digits_grow(s.drop_last(), hex, s.len() - 1);
        assert(s.drop_last().take(s.len() - 1) =~= s.drop_last());
    }
}

/// The value of one digit.
pub fn digit_exec(c: char, hex: bool) -> (r: Option<u64>)
    ensures
        match r {
            Some(d) => digit_of(c, hex) == Some(d as int) && d < 16,
            None => digit_of(c, hex).is_none(),
        },
{
    let x: u32 = c as u32;
    if 48 <= x && x <= 57 {
        Some((x - 48) as u64)
    } else if hex && 97 <= x && x <= 102 {
        Some((x - 87) as u64)
    } else if hex && 65 <= x && x <= 70 {
        Some((x - 55) as u64)
    } else {
        None
    }
}

/// The number that the digits `v` write, where it is at most `max`.
fn parse_digits(v: &Vec<char>, hex: bool, max: u64) -> (r: Option<u64>)
    ensures
        r == (if v@.len() > 0 && all_digits(v@, hex) && digits_value(v@, hex) <= max {
            Some(digits_value(v@, hex) as u64)
        } else {
            None
        }),
{
    let n = v.len();
    if n == 0 {
        return None;
    }
    let mut acc: u64 = 0;
    let mut i: usize = 0;
    assert(v@.take(0) =~= Seq::<char>::empty());
    while i < n
        invariant
            n == v.len(),
            i <= n,
            all_digits(v@.take(i as int), hex),
            acc == digits_value(v@.take(i as int), hex),
            acc <= max,
        decreases n - i,
    {
        let ghost next = v@.take(i + 1);
        proof {
            assert(next.drop_last() =~= v@.take(i as int));
            assert(next.last() == v@[i as int]);
        }
        match digit_exec(v[i], hex) {
            None => {
                assert(!all_digits(v@, hex));
                return None;
            },
            Some(d) => {
                proof {
                    assert(all_digits(next, hex)) by {
                        assert forall|j: int| 0 <= j < next.len() implies (#[trigger] digit_of(
                            next[j],
                            hex,
                        )).is_some() by {
                            if j < i {
                                assert(digit_of(v@.take(i as int)[j], hex).is_some());
                            }
                        }
                    }
                }
                let fits = if d > max {
                    false
                } else if hex {
                    acc <= (max - d) / 16
                } else {
                    acc <= (max - d) / 10
                };
                if !fits {
                    proof {
                        assert(digits_value(next, hex) > max);
                        if all_digits(v@, hex) {
                            lemma_digits_grow(v@, hex, i + 1);
                        }
                    }
                    return None;
                }
                acc = if hex {
                    acc * 16 + d
                } else {
                    acc * 10 + d
                };
            },
        }
        i = i + 1;
    }
    assert(v@.take(n as int) =~= v@);
    Some(acc)
}

/// Reads an unsigned number of at most `max`: decimal, or hexadecimal where
/// `hex` is set.
pub fn parse_unsigned(v: &Vec<char>, hex: bool, max: u64) -> (r: Option<u64>)
    ensures
        r == match within(unsigned_value(v@, hex), max as int) {
            Some(n) => Some(n as u64),
            None => None,
        },
{
    let n = v.len();
    if n > 0 && v[0] == '+' {
        let body = slice_of(v, 1, n);
        assert(body@ =~= v@.skip(1));
        let r = parse_digits(&body, hex, max);
        proof {
            if body@.len() > 0 && all_digits(body@, hex) {
                lemma_digits_grow(body@, hex, 0);
            }
        }
        r
    } else {
        let r = parse_digits(v, hex, max);
        proof {
            if v@.len() > 0 && all_digits(v@, hex) {
                lemma_digits_grow(v@, hex, 0);
            }
        }
        r
    }
}

/// `n` where it lies within `min..=max`.
pub open spec fn between(n: Option<int>, min: int, max: int) -> Option<int> {
    match n {
        Some(x) if min <= x <= max => Some(x),
        _ => None,
    }
}

/// Reads a signed decimal number within `min..=max`.
pub fn parse_signed(v: &Vec<char>, min: i64, max: i64) -> (r: Option<i64>)
    requires
        min <= 0 <= max,
    ensures
        r == match between(signed_value(v@), min as int, max as int) {
            Some(n) => Some(n as i64),
            None => None,
        },
{
    let n = v.len();
    if n > 0 && v[0] == '-' {
        let body = slice_of(v, 1, n);
        assert(body@ =~= v@.skip(1));
        let bound: u64 = if min == 0 {
            0
        } else {
            (-(min + 1)) as u64 + 1
        };
        assert(bound == -min);
        proof {
            if body@.len() > 0 && all_digits(body@, false) {
                lemma_digits_grow(body@, false, 0);
            }
        }
        match parse_digits(&body, false, bound) {
            Some(m) => if m == 0 {
                Some(0)
            } else {
                Some(-((m - 1) as i64) - 1)
            },
            None => None,
        }
    } else if n > 0 && v[0] == '+' {
        let body = slice_of(v, 1, n);
        assert(body@ =~= v@.skip(1));
        proof {
            if body@.len() > 0 && all_digits(body@, false) {
                lemma_digits_grow(body@, false, 0);
            }
        }
        match parse_digits(&body, false, max as u64) {
            Some(m) => Some(m as i64),
            None => None,
        }
    } else {
        proof {
            if v@.len() > 0 && all_digits(v@, false) {
                lemma_digits_grow(v@, false, 0);
            }
        }
        match parse_digits(v, false, max as u64) {
            Some(m) => Some(m as i64),
            None => None,
        }
    }
}

/// The character that writes the digit `d`.
pub open spec fn digit_char(d: int) -> char {
    ((48 + d) as u8) as char
}

/// The decimal text of a number, without leading zeros.
pub open spec fn decimal(n: nat) -> Seq<char>
    decreases n,
{
    if n < 10 {
        seq![digit_char(n as int)]
    } else {
        decimal(n / 10).push(digit_char((n % 10) as int))
    }
}

/// The decimal text of a number writes that number.
pub proof fn lemma_decimal_reads_back(n: nat)
    ensures
        decimal(n).len() > 0,
        all_digits(decimal(n), false),
        digits_value(decimal(n), false) == n,
        unsigned_value(decimal(n), false) == Some(n as int),
    decreases n,
{
    let d = digit_char((n % 10) as int);
    assert(digit_of(d, false) == Some((n % 10) as int));
    if n < 10 {
        let s = decimal(n);
        assert(s.drop_last() =~= Seq::<char>::empty());
        assert(digits_value(s.drop_last(), false) == 0);
        assert(s[0] != '+');
    } else {
        lemma_decimal_reads_back(n / 10);
        let s = decimal(n);
        assert(s.drop_last() =~= decimal(n / 10));
        assert forall|i: int| 0 <= i < s.len() implies (#[trigger] digit_of(s[i], false)).is_some() by {
            if i < s.len() - 1 {
                assert(digit_of(decimal(n / 10)[i], false).is_some());
            }
        }
        assert(s[0] == decimal(n / 10)[0]);
        assert(digit_of(s[0], false).is_some());
        assert(s[0] != '+');
    }
}

/// The decimal text of `n`.
pub fn to_decimal(n: u64) -> (r: Vec<char>)
    ensures
        r@ == decimal(n as nat),
    decreases n,
{
    if n < 10 {
        let mut r: Vec<char> = Vec::new();
        r.push(((48 + n) as u8) as char);
        assert(r@ =~= decimal(n as nat));
        r
    } else {
        let mut r = to_decimal(n / 10);
        r.push(((48 + n % 10) as u8) as char);
        r
    }
}

/// The decimal text of a number with a sign: a `-` before the digits of a
/// negative number.
pub open spec fn signed_decimal(n: int) -> Seq<char> {
    if n < 0 {
        seq!['-'] + decimal((-n) as nat)
    } else {
        decimal(n as nat)
    }
}

/// The decimal text of `n`.
pub fn to_signed_decimal(n: i64) -> (r: Vec<char>)
    ensures
        r@ == signed_decimal(n as int),
{
    if n < 0 {
        let magnitude: u64 = if n == i64::MIN {
            0x8000_0000_0000_0000
        } else {
            (-n) as u64
        };
        let mut r: Vec<char> = Vec::new();
        r.push('-');
        let digits = to_decimal(magnitude);
        crate::text::extend(&mut r, &digits);
        r
    } else {
        to_decimal(n as u64)
    }
}

} // verus!
