use vstd::prelude::*;

verus! {

/// Why a line of text is not a guess: the kinds of failure of reading a
/// decimal integer.
#[derive(PartialEq, Eq, Structural, Clone, Copy, Debug)]
pub enum GuessError {
    /// Nothing is left once the surrounding whitespace is removed.
    Empty,
    /// A character that is not a decimal digit, or a sign with no digits.
    InvalidDigit,
}

/// Guesses are held with their magnitude capped here: past every `u32`, so a
/// capped guess compares with any secret as the guess itself does.
pub const GUESS_BOUND: i64 = 4294967296;

/// Unicode `White_Space`, the characters that `char::is_whitespace` accepts.
pub open spec fn is_white_space(c: char) -> bool {
    ('\u{9}' <= c && c <= '\u{d}') || c == ' ' || c == '\u{85}' || c == '\u{a0}'
        || c == '\u{1680}' || ('\u{2000}' <= c && c <= '\u{200a}') || c == '\u{2028}'
        || c == '\u{2029}' || c == '\u{202f}' || c == '\u{205f}' || c == '\u{3000}'
}

/// `s` without its leading whitespace.
pub open spec fn trim_start(s: Seq<char>) -> Seq<char>
    decreases s.len(),
{
    if s.len() > 0 && is_white_space(s[0]) {
        trim_start(s.drop_first())
    } else {
        s
    }
}

/// `s` without its trailing whitespace.
pub open spec fn trim_end(s: Seq<char>) -> Seq<char>
    decreases s.len(),
{
    if s.len() > 0 && is_white_space(s.last()) {
        trim_end(s.drop_last())
    } else {
        s
    }
}

/// `s` without whitespace at either end.
pub open spec fn trimmed(s: Seq<char>) -> Seq<char> {
    trim_end(trim_start(s))
}

pub open spec fn is_digit(c: char) -> bool {
    '0' <= c && c <= '9'
}

pub open spec fn digit_value(c: char) -> int {
    c as int - '0' as int
}

pub open spec fn all_digits(d: Seq<char>) -> bool {
    forall|k: int| 0 <= k < d.len() ==> is_digit(#[trigger] d[k])
}

/// The value of a string of decimal digits, most significant first.
pub open spec fn digits_value(d: Seq<char>) -> int
    decreases d.len(),
{
    if d.len() == 0 {
        0
    } else {
        digits_value(d.drop_last()) * 10 + digit_value(d.last())
    }
}

/// A decimal integer: an optional `+` or `-`, then one digit or more, and
/// nothing else.
pub open spec fn integer_of(t: Seq<char>) -> Result<int, GuessError> {
    if t.len() == 0 {
        Err(GuessError::Empty)
    } else {
        let signed = t[0] == '+' || t[0] == '-';
        let d = if signed { t.drop_first() } else { t };
        if d.len() == 0 || !all_digits(d) {
            Err(GuessError::InvalidDigit)
        } else if t[0] == '-' {
            Ok(-digits_value(d))
        } else {
            Ok(digits_value(d))
        }
    }
}

/// The guess that a line of input holds: the integer between its surrounding
/// whitespace.
pub open spec fn guess_of(line: Seq<char>) -> Result<int, GuessError> {
    integer_of(trimmed(line))
}

/// `v` with its magnitude capped at `GUESS_BOUND`.
pub open spec fn capped(v: int) -> int {
    if v > GUESS_BOUND {
        GUESS_BOUND as int
    } else if v < -GUESS_BOUND {
        -GUESS_BOUND
    } else {
        v
    }
}

/// A reading of an integer with the value capped, the error kept.
pub open spec fn capped_reading(r: Result<int, GuessError>) -> Result<i64, GuessError> {
    match r {
        Ok(v) => Ok(capped(v) as i64),
        Err(e) => Err(e),
    }
}

proof fn lemma_digits_value_nonneg(d: Seq<char>)
    requires
        all_digits(d),
    ensures
        digits_value(d) >= 0,
    decreases d.len(),
{
    if d.len() > 0 {
        assert(is_digit(d[d.len() - 1]));
        assert forall|k: int| 0 <= k < d.drop_last().len() implies is_digit(#[trigger] d.drop_last()[k]) by {
            assert(d.drop_last()[k] == d[k]);
        }
        lemma_digits_value_nonneg(d.drop_last());
    }
}

pub fn is_white_space_char(c: char) -> (r: bool)
    ensures
        r == is_white_space(c),
{
    ('\u{9}' <= c && c <= '\u{d}') || c == ' ' || c == '\u{85}' || c == '\u{a0}'
        || c == '\u{1680}' || ('\u{2000}' <= c && c <= '\u{200a}') || c == '\u{2028}'
        || c == '\u{2029}' || c == '\u{202f}' || c == '\u{205f}' || c == '\u{3000}'
}

/// Removes the whitespace at both ends of `s`.
pub fn trim_text(s: &str) -> (r: &str)
    ensures
        r@ == trimmed(s@),
{
    let n = s.unicode_len();
    let mut i: usize = 0;
    assert(s@.subrange(0, n as int) =~= s@);
    while i < n && is_white_space_char(s.get_char(i))
        invariant
            n == s@.len(),
            i <= n,
            trim_start(s@) == trim_start(s@.subrange(i as int, n as int)),
        decreases n - i,
    {
        assert(s@.subrange(i as int, n as int).drop_first() =~= s@.subrange(i + 1, n as int));
        i = i + 1;
    }
    assert(trim_start(s@) == s@.subrange(i as int, n as int));
    let mut j: usize = n;
    while j > i && is_white_space_char(s.get_char(j - 1))
        invariant
            n == s@.len(),
            i <= j <= n,
            trimmed(s@) == trim_end(s@.subrange(i as int, j as int)),
        decreases j,
    {
        assert(s@.subrange(i as int, j as int).drop_last() =~= s@.subrange(i as int, j - 1));
        j = j - 1;
    }
    s.substring_char(i, j)
}

/// Reads the digits of `t` from position `start` on: their value capped at
/// `GUESS_BOUND`, or `None` where one of them is no digit.
fn capped_digits(t: &str, start: usize) -> (r: Option<i64>)
    requires
        start <= t@.len(),
    ensures
        ({
            let d = t@.subrange(start as int, t@.len() as int);
            match r {
                Some(v) => all_digits(d) && v as int == if digits_value(d) > GUESS_BOUND {
                    GUESS_BOUND as int
                } else {
                    digits_value(d)
                },
                None => !all_digits(d),
            }
        }),
{
    let n = t.unicode_len();
    let mut i: usize = start;
    let mut acc: i64 = 0;
    assert(t@.subrange(start as int, start as int).len() == 0);
    while i < n
        invariant
            n == t@.len(),
            start <= i <= n,
            all_digits(t@.subrange(start as int, i as int)),
            0 <= acc <= GUESS_BOUND,
            acc as int == if digits_value(t@.subrange(start as int, i as int)) > GUESS_BOUND {
                GUESS_BOUND as int
            } else {
                digits_value(t@.subrange(start as int, i as int))
            },
        decreases n - i,
    {
        let c = t.get_char(i);
        if !('0' <= c && c <= '9') {
            assert(t@.subrange(start as int, n as int)[i - start] == c);
            return None;
        }
        let d: i64 = (c as u32 - '0' as u32) as i64;
        let ghost prefix = t@.subrange(start as int, i as int);
        let ghost next = t@.subrange(start as int, i + 1);
        assert(next.drop_last() =~= prefix);
        assert(next.last() == c);
        assert(digits_value(next) == digits_value(prefix) * 10 + d);
        assert forall|k: int| 0 <= k < next.len() implies is_digit(#[trigger] next[k]) by {
            if k < prefix.len() {
                assert(next[k] == prefix[k]);
            }
        }
        proof {
            lemma_digits_value_nonneg(prefix);
            let v = digits_value(prefix);
            if v > GUESS_BOUND {
                assert(v * 10 + d > GUESS_BOUND) by (nonlinear_arith)
                    requires
                        v > GUESS_BOUND,
                        d >= 0,
                ;
            }
        }
        let grown: i64 = acc * 10 + d;
        if grown > GUESS_BOUND {
            acc = GUESS_BOUND;
        } else {
            acc = grown;
        }
        i = i + 1;
    }
    Some(acc)
}

/// Reads a decimal integer (an optional `+` or `-`, then digits only, with no
/// whitespace), its magnitude capped at `GUESS_BOUND`.
pub fn parse_number(t: &str) -> (r: Result<i64, GuessError>)
    ensures
        r == capped_reading(integer_of(t@)),
{
    let n = t.unicode_len();
    if n == 0 {
        return Err(GuessError::Empty);
    }
    let first = t.get_char(0);
    let start: usize = if first == '+' || first == '-' { 1 } else { 0 };
    let ghost d = if first == '+' || first == '-' { t@.drop_first() } else { t@ };
    assert(d =~= t@.subrange(start as int, n as int));
    if start == n {
        return Err(GuessError::InvalidDigit);
    }
    match capped_digits(t, start) {
        None => Err(GuessError::InvalidDigit),
        Some(v) => {
            proof {
                lemma_digits_value_nonneg(d);
            }
            if first == '-' {
                Ok(-v)
            } else {
                Ok(v)
            }
        },
    }
}

/// Reads the guess that a line of input holds: the integer between its
/// surrounding whitespace, its magnitude capped at `GUESS_BOUND`.
pub fn read_guess(line: &str) -> (r: Result<i64, GuessError>)
    ensures
        r == capped_reading(guess_of(line@)),
{
    parse_number(trim_text(line))
}

} // verus!
