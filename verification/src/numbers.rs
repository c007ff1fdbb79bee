//! Whole numbers as decimal text: what the PID file, the process lock and
//! the numeric settings hold.

use vstd::prelude::*;
use vstd::string::*;

verus! {

/// Whether `c` is one of the ten decimal digits.
pub open spec fn is_digit(c: char) -> bool {
    '0' <= c && c <= '9'
}

/// The value of a decimal digit.
pub open spec fn digit_value(c: char) -> int {
    c as int - '0' as int
}

/// The digit that stands for `d`, for `d` below ten.
pub open spec fn digit_char(d: int) -> char {
    (d + '0' as int) as char
}

/// Whether every character of `s` is a decimal digit.
pub open spec fn all_digits(s: Seq<char>) -> bool {
    forall|i: int| 0 <= i < s.len() ==> is_digit(#[trigger] s[i])
}

/// The number that a sequence of digits writes, the last digit counting
/// least. The empty sequence writes zero.
pub open spec fn digits_value(s: Seq<char>) -> int
    decreases s.len(),
{
    if s.len() == 0 {
        0
    } else {
        digits_value(s.drop_last()) * 10 + digit_value(s.last())
    }
}

/// The decimal digits of `n`, without leading zeros.
pub open spec fn decimal(n: int) -> Seq<char>
    decreases n,
{
    if n < 10 {
        seq![digit_char(n)]
    } else {
        decimal(n / 10).push(digit_char(n % 10))
    }
}

/// A whole number as text: its decimal digits, behind `-` if it is negative.
pub open spec fn signed_decimal(n: int) -> Seq<char> {
    if n < 0 {
        seq!['-'] + decimal(-n)
    } else {
        decimal(n)
    }
}

/// The number that `s` writes, if it is one between `min` and `max`: one or
/// more decimal digits, behind a `+` or, where `min` is negative, a `-`.
/// Nothing else may stand in `s`, no blank either.
pub open spec fn parse_int(s: Seq<char>, min: int, max: int) -> Option<int> {
    let negative = s.len() > 0 && s[0] == '-' && min < 0;
    let signed = s.len() > 0 && (s[0] == '+' || negative);
    let digits = if signed {
        s.subrange(1, s.len() as int)
    } else {
        s
    };
    let value = if negative {
        -digits_value(digits)
    } else {
        digits_value(digits)
    };
    if digits.len() > 0 && all_digits(digits) && min <= value <= max {
        Some(value)
    } else {
        None
    }
}

/// Digits write a number that is not negative.
pub proof fn lemma_digits_value_nonnegative(s: Seq<char>)
    requires
        all_digits(s),
    ensures
        digits_value(s) >= 0,
    decreases s.len(),
{
    if s.len() > 0 {
        assert(is_digit(s[s.len() - 1]));
        assert forall|i: int| 0 <= i < s.drop_last().len() implies is_digit(
            #[trigger] s.drop_last()[i],
        ) by {
            assert(is_digit(s[i]));
        }
        lemma_digits_value_nonnegative(s.drop_last());
    }
}

/// More digits behind a number do not make it smaller.
pub proof fn lemma_digits_value_grows(s: Seq<char>, k: int)
    requires
        all_digits(s),
        0 <= k <= s.len(),
    ensures
        digits_value(s.subrange(0, k)) <= digits_value(s),
    decreases s.len() - k,
{
    if k == s.len() {
        assert(s.subrange(0, k) =~= s);
    } else {
        lemma_digits_value_grows(s, k + 1);
        let longer = s.subrange(0, k + 1);
        assert(longer.drop_last() =~= s.subrange(0, k));
        assert(is_digit(s[k]));
        assert(longer.last() == s[k]);
        assert forall|i: int| 0 <= i < k implies is_digit(#[trigger] s.subrange(0, k)[i]) by {
            assert(is_digit(s[i]));
        }
        lemma_digits_value_nonnegative(s.subrange(0, k));
    }
}

/// The decimal digits of a number are digits, and write that number.
pub proof fn lemma_decimal(n: int)
    requires
        n >= 0,
    ensures
        decimal(n).len() >= 1,
        all_digits(decimal(n)),
        digits_value(decimal(n)) == n,
        decimal(n)[0] != '-' && decimal(n)[0] != '+',
    decreases n,
{
    if n < 10 {
        let s = decimal(n);
        assert(s.drop_last() =~= Seq::<char>::empty());
        assert(digits_value(s.drop_last()) == 0);
        assert(s.last() == digit_char(n));
    } else {
        lemma_decimal(n / 10);
        let s = decimal(n);
        assert(s.drop_last() =~= decimal(n / 10));
        assert(s.last() == digit_char(n % 10));
        assert forall|i: int| 0 <= i < s.len() implies is_digit(#[trigger] s[i]) by {
            if i < s.len() - 1 {
                assert(s[i] == decimal(n / 10)[i]);
            }
        }
    }
}

/// A number written out and read again is the same number.
pub proof fn lemma_written_number_reads_back(n: int, min: int, max: int)
    requires
        min <= n <= max,
    ensures
        parse_int(signed_decimal(n), min, max) == Some(n),
{
    let s = signed_decimal(n);
    if n < 0 {
        lemma_decimal(-n);
        assert(s[0] == '-');
        assert(s.subrange(1, s.len() as int) =~= decimal(-n));
    } else {
        lemma_decimal(n);
    }
}

/// Reads the digits of `s` from place `from` on, as a number up to `max`.
fn read_digits(s: &str, from: usize, max: u64) -> (r: Option<u64>)
    requires
        from <= s@.len(),
    ensures
        match r {
            Some(v) => {
                &&& from < s@.len()
                &&& all_digits(s@.subrange(from as int, s@.len() as int))
                &&& v == digits_value(s@.subrange(from as int, s@.len() as int))
                &&& v <= max
            },
            None => {
                ||| from == s@.len()
                ||| !all_digits(s@.subrange(from as int, s@.len() as int))
                ||| digits_value(s@.subrange(from as int, s@.len() as int)) > max
            },
        },
{
    let n = s.unicode_len();
    if from == n {
        return None;
    }
    let ghost digits = s@.subrange(from as int, n as int);
    let mut acc: u64 = 0;
    let mut i: usize = from;
    assert(digits.subrange(0, 0) =~= Seq::<char>::empty());
    while i < n
        invariant
            from <= i <= n,
            n == s@.len(),
            digits == s@.subrange(from as int, n as int),
            all_digits(digits.subrange(0, i - from)),
            acc == digits_value(digits.subrange(0, i - from)),
            acc <= max,
        decreases n - i,
    {
        let c = s.get_char(i);
        assert(digits[i - from] == c);
        if !(c >= '0' && c <= '9') {
            assert(!is_digit(digits[i - from]));
            return None;
        }
        let d: u64 = (c as u32 - '0' as u32) as u64;
        let ghost longer = digits.subrange(0, i - from + 1);
        proof {
            assert(longer.drop_last() =~= digits.subrange(0, i - from));
            assert(longer.last() == c);
            assert forall|j: int| 0 <= j < longer.len() implies is_digit(#[trigger] longer[j]) by {
                if j < i - from {
                    assert(is_digit(digits.subrange(0, i - from)[j]));
                }
            }
        }
        if d > max || acc > (max - d) / 10 {
            proof {
                assert(digits_value(longer) > max);
                if all_digits(digits) {
                    lemma_digits_value_grows(digits, i - from + 1);
                }
            }
            return None;
        }
        acc = acc * 10 + d;
        i = i + 1;
    }
    assert(digits.subrange(0, n - from) =~= digits);
    Some(acc)
}

/// Reads a number between zero and `max`.
pub fn parse_unsigned(s: &str, max: u64) -> (r: Option<u64>)
    ensures
        match r {
            Some(v) => parse_int(s@, 0, max as int) == Some(v as int),
            None => parse_int(s@, 0, max as int) is None,
        },
{
    let n = s.unicode_len();
    let from: usize = if n > 0 && s.get_char(0) == '+' {
        1
    } else {
        0
    };
    proof {
        if from == 0 {
            assert(s@.subrange(0, n as int) =~= s@);
        }
        if n > 0 && all_digits(s@.subrange(from as int, n as int)) {
            lemma_digits_value_nonnegative(s@.subrange(from as int, n as int));
        }
    }
    read_digits(s, from, max)
}

/// Reads a number between `-(below + 1)` and `max`.
fn parse_signed(s: &str, below: u64, max: u64) -> (r: Option<(bool, u64)>)
    requires
        below < u64::MAX,
    ensures
        match r {
            Some((negative, v)) => parse_int(s@, -(below + 1), max as int) == Some(
                if negative {
                    -(v as int)
                } else {
                    v as int
                },
            ) && (negative ==> 1 <= v <= below + 1) && (!negative ==> v <= max),
            None => parse_int(s@, -(below + 1), max as int) is None,
        },
{
    let n = s.unicode_len();
    let negative = n > 0 && s.get_char(0) == '-';
    let from: usize = if n > 0 && (negative || s.get_char(0) == '+') {
        1
    } else {
        0
    };
    proof {
        if from == 0 {
            assert(s@.subrange(0, n as int) =~= s@);
        }
        if n > 0 && all_digits(s@.subrange(from as int, n as int)) {
            lemma_digits_value_nonnegative(s@.subrange(from as int, n as int));
        }
    }
    if negative {
        match read_digits(s, from, below + 1) {
            Some(v) => {
                if v == 0 {
                    Some((false, 0))
                } else {
                    Some((true, v))
                }
            },
            None => None,
        }
    } else {
        match read_digits(s, from, max) {
            Some(v) => Some((false, v)),
            None => None,
        }
    }
}

/// Reads a 64-bit number, with or without sign.
pub fn parse_i64(s: &str) -> (r: Option<i64>)
    ensures
        match r {
            Some(v) => parse_int(s@, i64::MIN as int, i64::MAX as int) == Some(v as int),
            None => parse_int(s@, i64::MIN as int, i64::MAX as int) is None,
        },
{
    match parse_signed(s, 0x7fff_ffff_ffff_ffff, 0x7fff_ffff_ffff_ffff) {
        Some((negative, v)) => {
            if negative {
                if v == 0x8000_0000_0000_0000 {
                    Some(i64::MIN)
                } else {
                    Some(-(v as i64))
                }
            } else {
                Some(v as i64)
            }
        },
        None => None,
    }
}

/// Reads a 32-bit number, with or without sign.
pub fn parse_i32(s: &str) -> (r: Option<i32>)
    ensures
        match r {
            Some(v) => parse_int(s@, i32::MIN as int, i32::MAX as int) == Some(v as int),
            None => parse_int(s@, i32::MIN as int, i32::MAX as int) is None,
        },
{
    match parse_signed(s, 0x7fff_ffff, 0x7fff_ffff) {
        Some((negative, v)) => {
            if negative {
                Some((-(v as i64)) as i32)
            } else {
                Some(v as i32)
            }
        },
        None => None,
    }
}

/// The digit for a number below ten, as text.
fn digit_text(d: u64) -> (r: &'static str)
    requires
        d < 10,
    ensures
        r@ == seq![digit_char(d as int)],
{
    proof {
        reveal_strlit("0");
        reveal_strlit("1");
        reveal_strlit("2");
        reveal_strlit("3");
        reveal_strlit("4");
        reveal_strlit("5");
        reveal_strlit("6");
        reveal_strlit("7");
        reveal_strlit("8");
        reveal_strlit("9");
    }
    let r = if d == 0 {
        "0"
    } else if d == 1 {
        "1"
    } else if d == 2 {
        "2"
    } else if d == 3 {
        "3"
    } else if d == 4 {
        "4"
    } else if d == 5 {
        "5"
    } else if d == 6 {
        "6"
    } else if d == 7 {
        "7"
    } else if d == 8 {
        "8"
    } else {
        "9"
    };
    assert(r@ =~= seq![digit_char(d as int)]);
    r
}

/// Writes `n` in decimal digits.
pub fn write_u64(n: u64) -> (r: String)
    ensures
        r@ == decimal(n as int),
    decreases n,
{
    if n < 10 {
        digit_text(n).to_owned()
    } else {
        let mut out = write_u64(n / 10);
        let ghost head = out@;
        out.append(digit_text(n % 10));
        assert(out@ =~= head.push(digit_char((n % 10) as int)));
        out
    }
}

/// Writes `n` in decimal digits, behind `-` if it is negative.
pub fn write_i64(n: i64) -> (r: String)
    ensures
        r@ == signed_decimal(n as int),
{
    if n < 0 {
        proof {
            reveal_strlit("-");
        }
        let magnitude: u64 = if n == i64::MIN {
            0x8000_0000_0000_0000
        } else {
            (-n) as u64
        };
        let mut out = "-".to_owned();
        assert(out@ =~= seq!['-']);
        let digits = write_u64(magnitude);
        out.append(digits.as_str());
        out
    } else {
        write_u64(n as u64)
    }
}

} // verus!
