//! Reading a real from its decimal text.
use vstd::prelude::*;
use crate::fixed::Fixed;

verus! {

/// The most digits that a number may have before the point, once its
/// exponent has been applied.
pub const WHOLE_DIGITS: i64 = 12;

/// The digits behind the point that count: a real is counted in millionths.
pub const PLACES: i64 = 6;

/// Whether `c` is one of the ten digits.
pub open spec fn is_digit(c: char) -> bool {
    '0' <= c && c <= '9'
}

/// The number that the digit `c` stands for.
pub open spec fn digit_value(c: char) -> int {
    c as int - '0' as int
}

/// Whether `c` marks the start of an exponent.
pub open spec fn is_mark(c: char) -> bool {
    c == 'e' || c == 'E'
}

/// Where the digits that start at `from` end.
pub open spec fn digits_end(s: Seq<char>, from: int) -> int
    decreases s.len() - from,
{
    if 0 <= from < s.len() && is_digit(s[from]) {
        digits_end(s, from + 1)
    } else {
        from
    }
}

/// The number that the digits from `from` up to `to` write.
pub open spec fn digits_value(s: Seq<char>, from: int, to: int) -> int
    decreases to - from,
{
    if to <= from {
        0
    } else {
        digits_value(s, from, to - 1) * 10 + digit_value(s[to - 1])
    }
}

/// Ten to the power of `n`.
pub open spec fn pow10(n: nat) -> int
    decreases n,
{
    if n == 0 {
        1
    } else {
        10 * pow10((n - 1) as nat)
    }
}

/// The digits of a number without its point: those from `start` up to
/// `point`, and those behind the point up to `end` if there are any.
pub open spec fn mantissa(s: Seq<char>, start: int, point: int, end: int) -> Seq<char> {
    if end > point {
        s.subrange(start, point) + s.subrange(point + 1, end)
    } else {
        s.subrange(start, point)
    }
}

/// The whole number that the digits `d` write when the point stands behind
/// the first `q` of them: digits behind the point are left out, and zeros
/// stand for digits that are not there.
pub open spec fn shifted(d: Seq<char>, q: int) -> int {
    if q <= 0 {
        0
    } else if q <= d.len() {
        digits_value(d, 0, q)
    } else {
        digits_value(d, 0, d.len() as int) * pow10((q - d.len()) as nat)
    }
}

/// The exponent that `s` writes from `from` to its end: an optional sign and
/// one to three digits. Nothing where it writes none.
pub open spec fn exponent_spec(s: Seq<char>, from: int) -> Option<int> {
    let signed = from < s.len() && (s[from] == '-' || s[from] == '+');
    let first: int = if signed {
        from + 1
    } else {
        from
    };
    let end = digits_end(s, first);
    if end == first || end - first > 3 || end != s.len() {
        None
    } else if signed && s[from] == '-' {
        Some(-digits_value(s, first, end))
    } else {
        Some(digits_value(s, first, end))
    }
}

/// The real that `s` writes, or nothing where `s` does not write one.
///
/// A number is written as an optional minus sign and at least one digit,
/// optionally a point and at least one digit more, and optionally an `e` or
/// `E` and an exponent of ten. With its exponent applied it has at most
/// [`WHOLE_DIGITS`] digits before the point, zeros in front counted. What is
/// behind the sixth digit after the point is left out.
pub open spec fn decimal_spec(s: Seq<char>) -> Option<Fixed> {
    let negative = s.len() > 0 && s[0] == '-';
    let start: int = if negative {
        1
    } else {
        0
    };
    let point = digits_end(s, start);
    let pointed = point < s.len() && s[point] == '.';
    let end = if pointed {
        digits_end(s, point + 1)
    } else {
        point
    };
    let exponent = if end == s.len() {
        Some(0int)
    } else if is_mark(s[end]) {
        exponent_spec(s, end + 1)
    } else {
        None
    };
    if point == start || (pointed && end == point + 1) {
        None
    } else {
        match exponent {
            None => None,
            Some(e) => {
                let q = (point - start) + e + PLACES;
                let size = shifted(mantissa(s, start, point, end), q);
                if q > WHOLE_DIGITS + PLACES {
                    None
                } else if negative {
                    Some((-size) as i64)
                } else {
                    Some(size as i64)
                }
            },
        }
    }
}

fn digit_of(c: char) -> (r: Option<i64>)
    ensures
        r is Some == is_digit(c),
        r matches Some(v) ==> v == digit_value(c) && 0 <= v <= 9,
{
    if c >= '0' && c <= '9' {
        Some((c as u32 - '0' as u32) as i64)
    } else {
        None
    }
}

/// Where the digits that start at `from` end.
fn scan_digits(s: &str, from: usize, len: usize) -> (r: usize)
    requires
        len == s@.len(),
        from <= len,
    ensures
        r == digits_end(s@, from as int),
        from <= r <= len,
        forall|i: int| from <= i < r ==> is_digit(#[trigger] s@[i]),
    decreases len - from,
{
    if from < len && digit_of(s.get_char(from)).is_some() {
        scan_digits(s, from + 1, len)
    } else {
        from
    }
}

/// The number that at most eighteen digits from `from` up to `to` write.
fn read_digits(s: &str, from: usize, to: usize) -> (r: i64)
    requires
        from <= to <= s@.len(),
        to - from <= 18,
        forall|i: int| from <= i < to ==> is_digit(#[trigger] s@[i]),
    ensures
        r == digits_value(s@, from as int, to as int),
        0 <= r < pow10((to - from) as nat),
{
    let mut value: i64 = 0;
    let mut i: usize = from;
    while i < to
        invariant
            from <= i <= to <= s@.len(),
            to - from <= 18,
            value == digits_value(s@, from as int, i as int),
            0 <= value < pow10((i - from) as nat),
            forall|k: int| from <= k < to ==> is_digit(#[trigger] s@[k]),
        decreases to - i,
    {
        let digit: i64 = match digit_of(s.get_char(i)) {
            Some(v) => v,
            None => 0,
        };
        proof {
            lemma_pow10_bounds((i - from) as nat);
            lemma_pow10_bounds((i + 1 - from) as nat);
        }
        value = value * 10 + digit;
        i += 1;
    }
    value
}

/// The exponent that `s` writes from `from` to its end.
fn parse_exponent(s: &str, from: usize, len: usize) -> (r: Option<i64>)
    requires
        len == s@.len(),
        from <= len,
    ensures
        r matches Some(e) ==> exponent_spec(s@, from as int) == Some(e as int) && -999 <= e <= 999,
        r is None ==> exponent_spec(s@, from as int) is None,
{
    let minus: bool = from < len && s.get_char(from) == '-';
    let plus: bool = from < len && s.get_char(from) == '+';
    let first: usize = if minus || plus { from + 1 } else { from };
    let end: usize = scan_digits(s, first, len);
    if end == first || end - first > 3 || end != len {
        return None;
    }
    let value: i64 = read_digits(s, first, end);
    proof {
        lemma_pow10_bounds((end - first) as nat);
    }
    Some(if minus { -value } else { value })
}

/// Reads a real from its decimal text.
pub fn parse_decimal(s: &str) -> (r: Option<Fixed>)
    ensures
        r == decimal_spec(s@),
{
    let len: usize = s.unicode_len();
    let negative: bool = len > 0 && s.get_char(0) == '-';
    let start: usize = if negative { 1 } else { 0 };
    let point: usize = scan_digits(s, start, len);
    if point == start {
        return None;
    }
    let pointed: bool = point < len && s.get_char(point) == '.';
    let end: usize = if pointed { scan_digits(s, point + 1, len) } else { point };
    if pointed && end == point + 1 {
        return None;
    }
    let exponent: i64 = if end == len {
        0
    } else if s.get_char(end) == 'e' || s.get_char(end) == 'E' {
        match parse_exponent(s, end + 1, len) {
            Some(e) => e,
            None => {
                return None;
            },
        }
    } else {
        return None;
    };
    let whole: usize = point - start;
    let behind: usize = if pointed { end - point - 1 } else { 0 };
    let ghost digits = mantissa(s@, start as int, point as int, end as int);
    assert(digits.len() == whole + behind);
    if whole as u128 > 2_000 {
        return None;
    }
    let q: i64 = whole as i64 + exponent + PLACES;
    if q > WHOLE_DIGITS + PLACES {
        return None;
    }
    if q <= 0 {
        return Some(0);
    }
    let count: usize = whole + behind;
    let take: usize = if q as u128 <= count as u128 { q as usize } else { count };
    let mut value: i64 = 0;
    let mut i: usize = 0;
    while i < take
        invariant
            i <= take <= count,
            take <= 18,
            count == whole + behind,
            whole == point - start,
            behind == (if pointed { end - point - 1 } else { 0 }),
            start <= point <= end <= s@.len(),
            pointed ==> end > point,
            !pointed ==> end == point,
            digits == mantissa(s@, start as int, point as int, end as int),
            digits.len() == count,
            value == digits_value(digits, 0, i as int),
            0 <= value < pow10(i as nat),
            forall|k: int| start <= k < point ==> is_digit(#[trigger] s@[k]),
            forall|k: int| point < k < end ==> is_digit(#[trigger] s@[k]),
        decreases take - i,
    {
        let at: usize = if i < whole { start + i } else { point + 1 + (i - whole) };
        assert(digits[i as int] == s@[at as int]);
        let digit: i64 = match digit_of(s.get_char(at)) {
            Some(v) => v,
            None => 0,
        };
        proof {
            lemma_pow10_bounds(i as nat);
            lemma_pow10_bounds((i + 1) as nat);
        }
        value = value * 10 + digit;
        i += 1;
    }
    let mut j: i64 = take as i64;
    assert(pow10((j - take) as nat) == 1) by {
        lemma_pow10_bounds(0);
    }
    while j < q
        invariant
            take <= j <= q <= 18,
            take == (if q <= count { q as int } else { count as int }),
            digits.len() == count,
            value == digits_value(digits, 0, take as int) * pow10((j - take) as nat),
            0 <= value < pow10(j as nat),
        decreases q - j,
    {
        proof {
            lemma_pow10_bounds(j as nat);
            lemma_pow10_bounds((j + 1) as nat);
            lemma_pow10_bounds((j - take) as nat);
            lemma_pow10_bounds((j + 1 - take) as nat);
            let head = digits_value(digits, 0, take as int);
            assert(head * (10 * pow10((j - take) as nat)) == (head * pow10((j - take) as nat)) * 10)
                by (nonlinear_arith);
        }
        value = value * 10;
        j += 1;
    }
    proof {
        lemma_pow10_bounds(q as nat);
        lemma_pow10_bounds(0);
    }
    Some(if negative { -value } else { value })
}

/// The powers of ten up to the eighteenth fit a real.
proof fn lemma_pow10_bounds(n: nat)
    requires
        n <= 18,
    ensures
        1 <= pow10(n) <= 1_000_000_000_000_000_000,
        n == 0 ==> pow10(n) == 1,
        n <= 3 ==> pow10(n) <= 1_000,
        n > 0 ==> pow10(n) == 10 * pow10((n - 1) as nat),
{
    reveal_with_fuel(pow10, 20);
}

} // verus!
