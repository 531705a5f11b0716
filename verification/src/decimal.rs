//! Signed decimal integers as text: the form in which identifiers travel in
//! cookies, path segments, query parameters and response bodies.
//!
//! The accepted grammar is an optional `+` or `-` followed by one or more ASCII
//! digits, with nothing before, between or after.

use vstd::prelude::*;
use vstd::string::*;

verus! {

/// Whether `c` is one of the ten ASCII digits.
pub open spec fn is_digit(c: char) -> bool {
    '0' <= c && c <= '9'
}

/// The number that an ASCII digit stands for.
pub open spec fn digit_of(c: char) -> int {
    c as int - 48
}

/// The ASCII digit that stands for `d`, for `d` below ten.
pub open spec fn digit_char(d: int) -> char {
    if d == 0 {
        '0'
    } else if d == 1 {
        '1'
    } else if d == 2 {
        '2'
    } else if d == 3 {
        '3'
    } else if d == 4 {
        '4'
    } else if d == 5 {
        '5'
    } else if d == 6 {
        '6'
    } else if d == 7 {
        '7'
    } else if d == 8 {
        '8'
    } else {
        '9'
    }
}

/// Whether every character of `s` is an ASCII digit.
pub open spec fn all_digits(s: Seq<char>) -> bool {
    forall|i: int| 0 <= i < s.len() ==> is_digit(#[trigger] s[i])
}

/// The number written by a run of digits, most significant first.
pub open spec fn digits_value(s: Seq<char>) -> int
    decreases s.len(),
{
    if s.len() == 0 {
        0
    } else {
        digits_value(s.drop_last()) * 10 + digit_of(s.last())
    }
}

/// The number written by a non-empty run of digits; `None` for anything else.
pub open spec fn unsigned_value(s: Seq<char>) -> Option<int> {
    if s.len() > 0 && all_digits(s) {
        Some(digits_value(s))
    } else {
        None
    }
}

/// The integer that `s` denotes, if `s` is a decimal integer with an optional
/// sign.
pub open spec fn decimal_value(s: Seq<char>) -> Option<int> {
    if s.len() > 0 && s[0] == '-' {
        match unsigned_value(s.skip(1)) {
            Some(v) => Some(-v),
            None => None,
        }
    } else if s.len() > 0 && s[0] == '+' {
        unsigned_value(s.skip(1))
    } else {
        unsigned_value(s)
    }
}

/// The integer that `s` denotes, provided it lies within `lo..=hi`.
pub open spec fn bounded_value(s: Seq<char>, lo: int, hi: int) -> Option<int> {
    match decimal_value(s) {
        Some(v) => if lo <= v && v <= hi {
            Some(v)
        } else {
            None
        },
        None => None,
    }
}

/// The shortest run of digits that writes `v`.
pub open spec fn digits_of(v: nat) -> Seq<char>
    decreases v,
{
    if v < 10 {
        seq![digit_char(v as int)]
    } else {
        digits_of(v / 10).push(digit_char((v % 10) as int))
    }
}

/// The canonical text of `v`: a `-` for negative numbers, no `+`, no leading
/// zeros.
pub open spec fn decimal_text(v: int) -> Seq<char> {
    if v < 0 {
        seq!['-'] + digits_of((-v) as nat)
    } else {
        digits_of(v as nat)
    }
}

/// The digits of a number are digits, and they write that number.
pub proof fn lemma_digits_of(v: nat)
    ensures
        digits_of(v).len() >= 1,
        all_digits(digits_of(v)),
        digits_value(digits_of(v)) == v,
    decreases v,
{
    if v < 10 {
        let s = digits_of(v);
        assert(s.drop_last() =~= Seq::<char>::empty());
        assert(digits_value(s.drop_last()) == 0);
    } else {
        lemma_digits_of(v / 10);
        let head = digits_of(v / 10);
        let s = head.push(digit_char((v % 10) as int));
        assert(s.drop_last() =~= head);
    }
}

/// Reading back the canonical text of any integer gives that integer.
pub proof fn lemma_decimal_round_trip(v: int)
    ensures
        decimal_value(decimal_text(v)) == Some(v),
{
    if v < 0 {
        let d = digits_of((-v) as nat);
        lemma_digits_of((-v) as nat);
        let s = decimal_text(v);
        assert(s.skip(1) =~= d);
    } else {
        lemma_digits_of(v as nat);
        let s = decimal_text(v);
        assert(is_digit(s[0]));
    }
}

/// Text with a character that is neither a digit nor a leading sign does not
/// read as an integer, whatever the bounds.
pub proof fn lemma_stray_character_is_unreadable(text: Seq<char>, at: int, lo: int, hi: int)
    requires
        0 <= at < text.len(),
        !is_digit(text[at]),
        at > 0 || (text[0] != '-' && text[0] != '+'),
    ensures
        bounded_value(text, lo, hi) is None,
{
    if text[0] == '-' || text[0] == '+' {
        let rest = text.skip(1);
        assert(rest[at - 1] == text[at]);
    }
}

/// The greatest magnitude that a 64-bit signed integer can have.
pub const MAGNITUDE_LIMIT: i128 = 0x8000_0000_0000_0000;

/// Reads `s` as a decimal integer within `lo..=hi`.
///
/// Returns the integer exactly when `s` is an optional sign followed by at
/// least one digit and the number written lies within the bounds; `None`
/// otherwise, whatever the length of `s` and whatever the bounds. With `lo`
/// above `hi` nothing lies within them.
pub fn parse_bounded(s: &str, lo: i64, hi: i64) -> (r: Option<i64>)
    ensures
        r == match bounded_value(s@, lo as int, hi as int) {
            Some(v) => Some(v as i64),
            None => None,
        },
{
    let n: usize = s.unicode_len();
    if n == 0 {
        return None;
    }
    let first = s.get_char(0);
    let negative = first == '-';
    let start: usize = if first == '-' || first == '+' {
        1
    } else {
        0
    };
    if start == n {
        return None;
    }
    let ghost d = s@.skip(start as int);
    let mut acc: i128 = 0;
    let mut over = false;
    let mut i: usize = start;
    proof {
        assert(d.take(0) =~= Seq::<char>::empty());
        if start == 0 {
            assert(d =~= s@);
        }
    }
    while i < n
        invariant
            start <= i <= n,
            n == s@.len(),
            d == s@.skip(start as int),
            start == 0 ==> d == s@ && s@[0] != '-' && s@[0] != '+',
            start != 0 ==> start == 1 && (s@[0] == '-' || s@[0] == '+'),
            all_digits(d.take(i - start)),
            !over ==> acc == digits_value(d.take(i - start)) && 0 <= acc <= MAGNITUDE_LIMIT,
            over ==> digits_value(d.take(i - start)) > MAGNITUDE_LIMIT,
        decreases n - i,
    {
        let c = s.get_char(i);
        if c < '0' || c > '9' {
            proof {
                assert(!is_digit(d[i - start]));
            }
            return None;
        }
        let digit: i128 = (c as u32 - 48) as i128;
        proof {
            let before = d.take(i - start);
            let after = d.take(i + 1 - start);
            assert(after.drop_last() =~= before);
            assert forall|k: int| 0 <= k < after.len() implies is_digit(#[trigger] after[k]) by {
                if k < before.len() {
                    assert(after[k] == before[k]);
                }
            }
        }
        if !over {
            acc = acc * 10 + digit;
            if acc > MAGNITUDE_LIMIT {
                over = true;
            }
        }
        i = i + 1;
    }
    proof {
        assert(d.take(n - start) =~= d);
    }
    if over {
        return None;
    }
    let value: i128 = if negative {
        -acc
    } else {
        acc
    };
    if lo as i128 <= value && value <= hi as i128 {
        Some(value as i64)
    } else {
        None
    }
}

/// Reads `s` as a 32-bit signed decimal integer.
pub fn parse_i32(s: &str) -> (r: Option<i32>)
    ensures
        r == match bounded_value(s@, i32::MIN as int, i32::MAX as int) {
            Some(v) => Some(v as i32),
            None => None,
        },
{
    match parse_bounded(s, -0x8000_0000, 0x7fff_ffff) {
        Some(v) => Some(v as i32),
        None => None,
    }
}

/// Reads `s` as a 64-bit signed decimal integer.
pub fn parse_i64(s: &str) -> (r: Option<i64>)
    ensures
        r == match bounded_value(s@, i64::MIN as int, i64::MAX as int) {
            Some(v) => Some(v as i64),
            None => None,
        },
{
    parse_bounded(s, -0x8000_0000_0000_0000, 0x7fff_ffff_ffff_ffff)
}

/// The one-character text of a digit.
fn digit_text(d: u64) -> (r: &'static str)
    requires
        d < 10,
    ensures
        r@ == seq![digit_char(d as int)],
{
    proof {
        reveal_strlit("0");
        reveal_strlit("1");
        reveal_strlit("2");
        reveal_strlit("3");
        reveal_strlit("4");
        reveal_strlit("5");
        reveal_strlit("6");
        reveal_strlit("7");
        reveal_strlit("8");
        reveal_strlit("9");
    }
    let r = if d == 0 {
        "0"
    } else if d == 1 {
        "1"
    } else if d == 2 {
        "2"
    } else if d == 3 {
        "3"
    } else if d == 4 {
        "4"
    } else if d == 5 {
        "5"
    } else if d == 6 {
        "6"
    } else if d == 7 {
        "7"
    } else if d == 8 {
        "8"
    } else {
        "9"
    };
    assert(r@ =~= seq![digit_char(d as int)]);
    r
}

/// Appends the digits of `v` to `out`.
fn push_digits(out: &mut String, v: u64)
    ensures
        final(out)@ == old(out)@ + digits_of(v as nat),
    decreases v,
{
    if v >= 10 {
        push_digits(out, v / 10);
    }
    let ghost mid = out@;
    out.append(digit_text(v % 10));
    proof {
        let c = digit_char((v % 10) as int);
        if v >= 10 {
            assert(mid + seq![c] =~= old(out)@ + digits_of((v / 10) as nat).push(c));
        }
    }
}

/// Writes `n` in its canonical decimal form.
pub fn format_i32(n: i32) -> (r: String)
    ensures
        r@ == decimal_text(n as int),
        decimal_value(r@) == Some(n as int),
{
    let mut out = String::new();
    if n < 0 {
        proof {
            reveal_strlit("-");
        }
        out.append("-");
        let magnitude: u64 = (-(n as i64)) as u64;
        push_digits(&mut out, magnitude);
        assert(out@ =~= decimal_text(n as int));
    } else {
        push_digits(&mut out, n as u64);
        assert(out@ =~= decimal_text(n as int));
    }
    proof {
        lemma_decimal_round_trip(n as int);
    }
    out
}

} // verus!
