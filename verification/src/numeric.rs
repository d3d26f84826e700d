//! Decimal renderings of integers, and parsing them back: the exact
//! character-level specification of both directions, used for token
//! subjects and for configuration values.

use vstd::prelude::*;

verus! {

/// The character for one decimal digit.
pub open spec fn digit_char(d: int) -> char {
    if d == 0 {
        '0'
    } else if d == 1 {
        '1'
    } else if d == 2 {
        '2'
    } else if d == 3 {
        '3'
    } else if d == 4 {
        '4'
    } else if d == 5 {
        '5'
    } else if d == 6 {
        '6'
    } else if d == 7 {
        '7'
    } else if d == 8 {
        '8'
    } else {
        '9'
    }
}

/// The value of one decimal digit character, or -1 for any other character.
pub open spec fn digit_val(c: char) -> int {
    if c == '0' {
        0
    } else if c == '1' {
        1
    } else if c == '2' {
        2
    } else if c == '3' {
        3
    } else if c == '4' {
        4
    } else if c == '5' {
        5
    } else if c == '6' {
        6
    } else if c == '7' {
        7
    } else if c == '8' {
        8
    } else if c == '9' {
        9
    } else {
        -1
    }
}

/// The decimal digits of a non-negative number, most significant first.
pub open spec fn digits_of(n: int) -> Seq<char>
    decreases n,
{
    if n < 10 {
        seq![digit_char(n)]
    } else {
        digits_of(n / 10).push(digit_char(n % 10))
    }
}

/// The decimal rendering of an integer, with a leading minus sign when
/// negative.
pub open spec fn int_string(n: int) -> Seq<char> {
    if n < 0 {
        seq!['-'].add(digits_of(-n))
    } else {
        digits_of(n)
    }
}

/// A one-character string for one decimal digit.
pub fn digit_str(d: u64) -> (r: &'static str)
    requires
        d < 10,
    ensures
        r@ == seq![digit_char(d as int)],
{
    proof {
        reveal_strlit("0");
        reveal_strlit("1");
        reveal_strlit("2");
        reveal_strlit("3");
        reveal_strlit("4");
        reveal_strlit("5");
        reveal_strlit("6");
        reveal_strlit("7");
        reveal_strlit("8");
        reveal_strlit("9");
    }
    match d {
        0 => "0",
        1 => "1",
        2 => "2",
        3 => "3",
        4 => "4",
        5 => "5",
        6 => "6",
        7 => "7",
        8 => "8",
        _ => "9",
    }
}

/// The decimal rendering of a non-negative number.
pub fn u64_to_string(n: u64) -> (r: String)
    ensures
        r@ == digits_of(n as int),
    decreases n,
{
    if n < 10 {
        digit_str(n).to_owned()
    } else {
        let mut s = u64_to_string(n / 10);
        s.append(digit_str(n % 10));
        s
    }
}

/// The decimal rendering of a signed number, with a minus sign when
/// negative.
pub fn i64_to_string(n: i64) -> (r: String)
    ensures
        r@ == int_string(n as int),
{
    proof {
        reveal_strlit("-");
    }
    if n >= 0 {
        u64_to_string(n as u64)
    } else {
        let mut s = String::from_str("-");
        let magnitude: u64 = if n == i64::MIN {
            9_223_372_036_854_775_808u64
        } else {
            (-n) as u64
        };
        s.append(u64_to_string(magnitude).as_str());
        s
    }
}

/// Whether every character of `s` is a decimal digit.
pub open spec fn all_digits(s: Seq<char>) -> bool {
    forall|i: int| 0 <= i < s.len() ==> digit_val(#[trigger] s[i]) >= 0
}

/// The number a sequence of decimal digit characters denotes.
pub open spec fn digits_value(s: Seq<char>) -> int
    decreases s.len(),
{
    if s.len() == 0 {
        0
    } else {
        digits_value(s.drop_last()) * 10 + digit_val(s.last())
    }
}

/// Whether `s` is a valid decimal rendering of a non-negative number that
/// fits in a u64: non-empty, digits only, value in range.
pub open spec fn parses_as_u64(s: Seq<char>) -> bool {
    s.len() > 0 && all_digits(s) && digits_value(s) <= u64::MAX
}

/// The value of one decimal digit character, or `None` for any other
/// character.
fn digit_of_char(c: char) -> (r: Option<u64>)
    ensures
        digit_val(c) >= 0 ==> r == Some(digit_val(c) as u64),
        digit_val(c) < 0 ==> r is None,
{
    match c {
        '0' => Some(0),
        '1' => Some(1),
        '2' => Some(2),
        '3' => Some(3),
        '4' => Some(4),
        '5' => Some(5),
        '6' => Some(6),
        '7' => Some(7),
        '8' => Some(8),
        '9' => Some(9),
        _ => None,
    }
}

/// Parse a non-negative decimal number.  Returns `Some` exactly for a
/// non-empty, all-digit string whose value fits in a u64, and then the
/// exact value.
#[verifier::loop_isolation(false)]
pub fn parse_u64(s: &str) -> (r: Option<u64>)
    ensures
        r == if parses_as_u64(s@) {
            Some(digits_value(s@) as u64)
        } else {
            None::<u64>
        },
        r matches Some(v) ==> v == digits_value(s@),
{
    let n = s.unicode_len();
    if n == 0 {
        return None;
    }
    let mut acc: u64 = 0;
    let mut i: usize = 0;
    while i < n
        invariant
            i <= n,
            all_digits(s@.subrange(0, i as int)),
            acc == digits_value(s@.subrange(0, i as int)),
        decreases n - i,
    {
        let c = s.get_char(i);
        proof {
            assert(s@.subrange(0, i + 1 as int).drop_last() == s@.subrange(0, i as int));
        }
        let d = match digit_of_char(c) {
            Some(d) => d,
            None => {
                proof {
                    assert(!all_digits(s@));
                }
                return None;
            },
        };
        let shifted = match acc.checked_mul(10) {
            Some(v) => v,
            None => {
                proof {
                    if all_digits(s@) {
                        lemma_digits_value_monotone(s@.subrange(0, i + 1 as int), s@);
                    }
                }
                return None;
            },
        };
        let next = match shifted.checked_add(d) {
            Some(v) => v,
            None => {
                proof {
                    if all_digits(s@) {
                        lemma_digits_value_monotone(s@.subrange(0, i + 1 as int), s@);
                    }
                }
                return None;
            },
        };
        acc = next;
        i = i + 1;
    }
    proof {
        assert(s@.subrange(0, n as int) == s@);
    }
    Some(acc)
}

/// A longer all-digit prefix never denotes a smaller number, so once a
/// prefix's value has left the u64 range the whole string's value has
/// too.
proof fn lemma_digits_value_monotone(p: Seq<char>, s: Seq<char>)
    requires
        p.len() <= s.len(),
        p == s.subrange(0, p.len() as int),
        all_digits(s),
    ensures
        digits_value(p) <= digits_value(s),
    decreases s.len() - p.len(),
{
    lemma_digits_value_nonneg(p);
    if p.len() < s.len() {
        let q = s.subrange(0, p.len() + 1 as int);
        assert(q.drop_last() =~= p);
        assert(digit_val(q.last()) >= 0);
        assert(digits_value(q) == digits_value(p) * 10 + digit_val(q.last()));
        assert(digits_value(q) >= digits_value(p));
        assert(q =~= s.subrange(0, q.len() as int));
        lemma_digits_value_monotone(q, s);
    } else {
        assert(p =~= s);
    }
}

/// An all-digit string denotes a non-negative number.
proof fn lemma_digits_value_nonneg(s: Seq<char>)
    requires
        all_digits(s),
    ensures
        digits_value(s) >= 0,
    decreases s.len(),
{
    if s.len() > 0 {
        assert(all_digits(s.drop_last())) by {
            assert(forall|i: int|
                0 <= i < s.len() - 1 ==> digit_val(#[trigger] s.drop_last()[i]) == digit_val(
                    s[i],
                ));
        }
        lemma_digits_value_nonneg(s.drop_last());
    }
}

/// Whether `s` is a decimal rendering this module accepts for an i64:
/// digits with at most one leading minus sign, non-empty, value in range.
pub open spec fn parses_as_i64(s: Seq<char>) -> bool {
    if s.len() > 0 && s[0] == '-' {
        let rest = s.drop_first();
        rest.len() > 0 && all_digits(rest) && digits_value(rest) <= 0x8000_0000_0000_0000
    } else {
        s.len() > 0 && all_digits(s) && digits_value(s) <= i64::MAX
    }
}

/// The signed value a rendering accepted by `parses_as_i64` denotes.
pub open spec fn i64_value_of(s: Seq<char>) -> int {
    if s.len() > 0 && s[0] == '-' {
        -digits_value(s.drop_first())
    } else {
        digits_value(s)
    }
}

/// Parse a signed decimal number into an i64, accepting one leading minus
/// sign.  Returns `Some` exactly for the renderings in range, and then
/// the exact value.
pub fn parse_i64(s: &str) -> (r: Option<i64>)
    ensures
        r == if parses_as_i64(s@) {
            Some(i64_value_of(s@) as i64)
        } else {
            None::<i64>
        },
{
    let n = s.unicode_len();
    if n == 0 {
        return None;
    }
    if s.get_char(0) == '-' {
        let rest = s.substring_char(1, n);
        proof {
            assert(rest@ =~= s@.drop_first());
        }
        let magnitude = match parse_u64(rest) {
            Some(m) => m,
            None => {
                return None;
            },
        };
        proof {
            lemma_digits_value_nonneg(rest@);
        }
        if magnitude > 9_223_372_036_854_775_808u64 {
            return None;
        }
        let v: i64 = if magnitude == 9_223_372_036_854_775_808u64 {
            i64::MIN
        } else {
            -(magnitude as i64)
        };
        Some(v)
    } else {
        let v = match parse_u64(s) {
            Some(m) => m,
            None => {
                return None;
            },
        };
        proof {
            lemma_digits_value_nonneg(s@);
        }
        if v > 9_223_372_036_854_775_807u64 {
            return None;
        }
        Some(v as i64)
    }
}

} // verus!
