//! Decimal numerals: how integers are written in the wire formats, and how
//! they are read back.
use crate::text::chars_of;
use vstd::prelude::*;
use vstd::string::StringExecFns;

verus! {

/// Whether `c` is one of the ten decimal digits.
pub open spec fn is_digit(c: char) -> bool {
    '0' <= c <= '9'
}

/// The digit that stands for `d`, for `d` from 0 to 9.
pub open spec fn digit(d: int) -> char {
    seq!['0', '1', '2', '3', '4', '5', '6', '7', '8', '9'][d]
}

/// The number that the digit `c` stands for.
pub open spec fn digit_value(c: char) -> int {
    c as int - '0' as int
}

/// Whether `s` holds digits only.
pub open spec fn all_digits(s: Seq<char>) -> bool {
    forall|i: int| 0 <= i < s.len() ==> is_digit(#[trigger] s[i])
}

/// The number that a run of digits stands for, read from the left.
pub open spec fn value(s: Seq<char>) -> nat
    decreases s.len(),
{
    if s.len() == 0 {
        0
    } else {
        (value(s.drop_last()) * 10 + digit_value(s.last())) as nat
    }
}

/// The digits of `n`, without leading zeros.
pub open spec fn digits(n: nat) -> Seq<char>
    decreases n,
{
    if n < 10 {
        seq![digit(n as int)]
    } else {
        digits(n / 10).push(digit((n % 10) as int))
    }
}

/// The numeral of `n`: its digits, after a minus sign if `n` is negative.
pub open spec fn numeral(n: int) -> Seq<char> {
    if n < 0 {
        seq!['-'] + digits((-n) as nat)
    } else {
        digits(n as nat)
    }
}

/// Whether `s` is a numeral as `numeral` writes them: digits without a
/// leading zero, after a minus sign at most, and not `-0`.
pub open spec fn is_numeral(s: Seq<char>) -> bool {
    let body = if s.len() > 0 && s[0] == '-' {
        s.skip(1)
    } else {
        s
    };
    &&& body.len() > 0
    &&& all_digits(body)
    &&& body[0] == '0' ==> s.len() == 1
}

/// The integer that a numeral stands for.
pub open spec fn numeral_value(s: Seq<char>) -> int {
    if s.len() > 0 && s[0] == '-' {
        -value(s.skip(1))
    } else {
        value(s) as int
    }
}

/// The 64-bit integer that `s` is the numeral of, if there is one.
pub open spec fn read_integer(s: Seq<char>) -> Option<i64> {
    if is_numeral(s) && i64::MIN <= numeral_value(s) <= i64::MAX {
        Some(numeral_value(s) as i64)
    } else {
        None
    }
}

/// The count that `s` states: digits, after a plus sign at most, whose value
/// fits a 64-bit signed integer.
pub open spec fn read_count(s: Seq<char>) -> Option<i64> {
    let body = if s.len() > 0 && s[0] == '+' {
        s.skip(1)
    } else {
        s
    };
    if body.len() > 0 && all_digits(body) && value(body) <= i64::MAX {
        Some(value(body) as i64)
    } else {
        None
    }
}

/// The digits of a number are digits, start with a zero only for zero, and
/// stand for that number.
pub proof fn lemma_digits(n: nat)
    ensures
        digits(n).len() > 0,
        all_digits(digits(n)),
        digits(n)[0] == '0' ==> n == 0 && digits(n).len() == 1,
        value(digits(n)) == n,
    decreases n,
{
    if n < 10 {
        let s = digits(n);
        assert(s.drop_last() =~= Seq::<char>::empty());
        assert(value(s.drop_last()) == 0);
    } else {
        lemma_digits(n / 10);
        let s = digits(n);
        assert(s.drop_last() =~= digits(n / 10));
        assert(s[0] == digits(n / 10)[0]);
        assert forall|i: int| 0 <= i < s.len() implies is_digit(#[trigger] s[i]) by {
            if i < s.len() - 1 {
                assert(s[i] == digits(n / 10)[i]);
            }
        }
    }
}

/// Reading the numeral of a 64-bit integer gives that integer back.
pub proof fn lemma_read_numeral(n: i64)
    ensures
        read_integer(numeral(n as int)) == Some(n),
        !numeral(n as int).contains(','),
{
    let s = numeral(n as int);
    if n < 0 {
        let m = (-n) as nat;
        lemma_digits(m);
        assert(s.skip(1) =~= digits(m));
        assert(s[0] == '-');
        assert forall|i: int| 0 <= i < s.len() implies s[i] != ',' by {
            if i > 0 {
                assert(is_digit(digits(m)[i - 1]));
            }
        }
    } else {
        lemma_digits(n as nat);
        assert(is_digit(s[0]));
        assert forall|i: int| 0 <= i < s.len() implies s[i] != ',' by {
            assert(is_digit(s[i]));
        }
    }
}

/// The value of a run of digits is at least that of each of its beginnings.
proof fn lemma_value_grows(s: Seq<char>, k: int)
    requires
        all_digits(s),
        0 <= k <= s.len(),
    ensures
        value(s.take(k)) <= value(s),
    decreases s.len() - k,
{
    if k == s.len() {
        assert(s.take(k) =~= s);
    } else {
        lemma_value_grows(s, k + 1);
        let longer = s.take(k + 1);
        assert(longer.drop_last() =~= s.take(k));
        assert(is_digit(s[k]));
        assert(longer.last() == s[k]);
    }
}

/// The value of the digits of `text` from `from` to `to`, where they are
/// digits, at least one, and the value fits 64 bits.
fn read_digits(text: &[char], from: usize, to: usize) -> (r: Option<u64>)
    requires
        from <= to <= text.len(),
    ensures
        ({
            let s = text@.subrange(from as int, to as int);
            match r {
                Some(v) => s.len() > 0 && all_digits(s) && v == value(s),
                None => !(s.len() > 0 && all_digits(s) && value(s) <= u64::MAX),
            }
        }),
{
    let ghost s = text@.subrange(from as int, to as int);
    if from == to {
        return None;
    }
    let mut acc: u64 = 0;
    let mut i: usize = from;
    proof {
        assert(s.take(0) =~= Seq::<char>::empty());
    }
    while i < to
        invariant
            from <= i <= to <= text.len(),
            s == text@.subrange(from as int, to as int),
            all_digits(s.take(i - from)),
            acc == value(s.take(i - from)),
        decreases to - i,
    {
        let c = text[i];
        let ghost k = i - from;
        assert(s[k] == c);
        if !(c >= '0' && c <= '9') {
            assert(!is_digit(s[k]));
            return None;
        }
        let d: u64 = (c as u32 - '0' as u32) as u64;
        proof {
            let longer = s.take(k + 1);
            assert(longer.drop_last() =~= s.take(k));
            assert(longer.last() == c);
            assert(value(longer) == acc * 10 + d);
            assert forall|j: int| 0 <= j < longer.len() implies is_digit(#[trigger] longer[j]) by {
                if j < k {
                    assert(s.take(k)[j] == longer[j]);
                }
            }
        }
        if acc > (u64::MAX - d) / 10 {
            proof {
                if all_digits(s) {
                    lemma_value_grows(s, k + 1);
                }
            }
            return None;
        }
        acc = acc * 10 + d;
        i += 1;
    }
    proof {
        assert(s.take(to - from) =~= s);
    }
    Some(acc)
}

/// Reads the numeral that stands in `text` from `from` to `to`.
pub(crate) fn read_i64(text: &[char], from: usize, to: usize) -> (r: Option<i64>)
    requires
        from <= to <= text.len(),
    ensures
        r == read_integer(text@.subrange(from as int, to as int)),
{
    let ghost s = text@.subrange(from as int, to as int);
    if from == to {
        return None;
    }
    let negative = text[from] == '-';
    let start: usize = if negative {
        from + 1
    } else {
        from
    };
    proof {
        assert(s[0] == text@[from as int]);
        if negative {
            assert(s.skip(1) =~= text@.subrange(start as int, to as int));
        }
    }
    let ghost body = text@.subrange(start as int, to as int);
    match read_digits(text, start, to) {
        None => None,
        Some(v) => {
            assert(body[0] == text@[start as int]);
            if text[start] == '0' && to - from != 1 {
                return None;
            }
            if negative {
                if v > 0x8000_0000_0000_0000 {
                    None
                } else if v == 0x8000_0000_0000_0000 {
                    Some(i64::MIN)
                } else {
                    let m: i64 = v as i64;
                    Some(-m)
                }
            } else {
                if v > 0x7fff_ffff_ffff_ffff {
                    None
                } else {
                    Some(v as i64)
                }
            }
        },
    }
}

/// Reads the numeral that `text` is.
pub fn parse_i64(text: &str) -> (r: Option<i64>)
    ensures
        r == read_integer(text@),
{
    let chars = chars_of(text);
    proof {
        assert(chars@.subrange(0, chars@.len() as int) =~= text@);
    }
    read_i64(chars.as_slice(), 0, chars.len())
}

/// Reads the count that `text` states.
pub fn parse_seconds(text: &str) -> (r: Option<i64>)
    ensures
        r == read_count(text@),
{
    let chars = chars_of(text);
    let text = chars.as_slice();
    let n = text.len();
    let start: usize = if n > 0 && text[0] == '+' {
        1
    } else {
        0
    };
    proof {
        if start == 1 {
            assert(text@.skip(1) =~= text@.subrange(1, n as int));
        } else {
            assert(text@ =~= text@.subrange(0, n as int));
        }
    }
    match read_digits(text, start, n) {
        None => None,
        Some(v) => {
            if v > 0x7fff_ffff_ffff_ffff {
                None
            } else {
                Some(v as i64)
            }
        },
    }
}

/// The digit of `d` as a text of one character.
fn digit_text(d: u64) -> (r: &'static str)
    requires
        d < 10,
    ensures
        r@ == seq![digit(d as int)],
{
    proof {
        reveal_strlit("0");
        reveal_strlit("1");
        reveal_strlit("2");
        reveal_strlit("3");
        reveal_strlit("4");
        reveal_strlit("5");
        reveal_strlit("6");
        reveal_strlit("7");
        reveal_strlit("8");
        reveal_strlit("9");
    }
    let r = if d == 0 {
        "0"
    } else if d == 1 {
        "1"
    } else if d == 2 {
        "2"
    } else if d == 3 {
        "3"
    } else if d == 4 {
        "4"
    } else if d == 5 {
        "5"
    } else if d == 6 {
        "6"
    } else if d == 7 {
        "7"
    } else if d == 8 {
        "8"
    } else {
        "9"
    };
    assert(r@ =~= seq![digit(d as int)]);
    r
}

/// Appends the digits of `n` to `out`.
fn write_digits(n: u64, out: &mut String)
    ensures
        final(out)@ == old(out)@ + digits(n as nat),
    decreases n,
{
    if n >= 10 {
        write_digits(n / 10, out);
    }
    out.append(digit_text(n % 10));
    assert(out@ =~= old(out)@ + digits(n as nat));
}

/// The numeral of `n`.
pub fn write_i64(n: i64) -> (r: String)
    ensures
        r@ == numeral(n as int),
{
    let mut out = String::new();
    if n < 0 {
        proof {
            reveal_strlit("-");
        }
        out.append("-");
        let magnitude: u64 = if n == i64::MIN {
            0x8000_0000_0000_0000
        } else {
            (-n) as u64
        };
        write_digits(magnitude, &mut out);
        assert(out@ =~= numeral(n as int));
    } else {
        write_digits(n as u64, &mut out);
        assert(out@ =~= numeral(n as int));
    }
    out
}

} // verus!
