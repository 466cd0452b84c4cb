//! Small operations on strings that several parts of the supervisor share.
use vstd::prelude::*;
use vstd::string::*;
use vstd::utf8::{decode_utf8, valid_utf8};

verus! {

/// The views of a sequence of strings.
pub open spec fn string_views(v: Seq<String>) -> Seq<Seq<char>> {
    v.map_values(|s: String| s@)
}

/// Whether two strings are equal.
pub fn str_eq(a: &str, b: &str) -> (r: bool)
    ensures
        r == (a@ == b@),
{
    let x = a.to_string();
    let y = b.to_string();
    x == y
}

/// The decimal digits of `n`.
pub open spec fn decimal(n: nat) -> Seq<char>
    decreases n,
{
    if n < 10 {
        seq![(48 + n) as char]
    } else {
        decimal(n / 10).push((48 + n % 10) as char)
    }
}

/// The decimal digit `d` as text.
fn digit_text(d: u64) -> (r: &'static str)
    requires
        d < 10,
    ensures
        r@ == seq![(48 + d) as char],
{
    match d {
        0 => {
            proof {
                reveal_strlit("0");
            }
            "0"
        },
        1 => {
            proof {
                reveal_strlit("1");
            }
            "1"
        },
        2 => {
            proof {
                reveal_strlit("2");
            }
            "2"
        },
        3 => {
            proof {
                reveal_strlit("3");
            }
            "3"
        },
        4 => {
            proof {
                reveal_strlit("4");
            }
            "4"
        },
        5 => {
            proof {
                reveal_strlit("5");
            }
            "5"
        },
        6 => {
            proof {
                reveal_strlit("6");
            }
            "6"
        },
        7 => {
            proof {
                reveal_strlit("7");
            }
            "7"
        },
        8 => {
            proof {
                reveal_strlit("8");
            }
            "8"
        },
        _ => {
            proof {
                reveal_strlit("9");
            }
            "9"
        },
    }
}

/// `n` written in decimal digits, as `ToString` of std writes it.
pub(crate) fn u64_to_string(n: u64) -> (r: String)
    ensures
        r@ == decimal(n as nat),
    decreases n,
{
    if n < 10 {
        let r = digit_text(n).to_string();
        assert(r@ =~= decimal(n as nat));
        r
    } else {
        let mut r = u64_to_string(n / 10);
        let last = digit_text(n % 10);
        r.append(last);
        assert(r@ =~= decimal(n as nat));
        r
    }
}

/// `n` written in decimal digits, as `ToString` of std writes it.
pub(crate) fn usize_to_string(n: usize) -> (r: String)
    ensures
        r@ == decimal(n as nat),
{
    u64_to_string(n as u64)
}

/// Decodes `bytes` with `String::from_utf8` of std, which succeeds exactly on
/// valid UTF-8.
#[verifier::external_body]
pub(crate) fn utf8_to_string(bytes: Vec<u8>) -> (r: Option<String>)
    ensures
        r is Some <==> valid_utf8(bytes@),
        r matches Some(s) ==> s@ == decode_utf8(bytes@),
{
    String::from_utf8(bytes).ok()
}

/// What `Debug` of std writes for a string: the string in double quotes,
/// with quotes, backslashes and unprintable characters escaped.
pub uninterp spec fn debug_string(s: Seq<char>) -> Seq<char>;

/// Formats `s` with `Debug` of std.
#[verifier::external_body]
pub(crate) fn debug_format(s: &str) -> (r: String)
    ensures
        r@ == debug_string(s@),
{
    format!("{:?}", s)
}

/// Whether every character of `s` is an ASCII digit.
pub open spec fn all_digits(s: Seq<char>) -> bool {
    forall|i: int| 0 <= i < s.len() ==> '0' <= #[trigger] s[i] && s[i] <= '9'
}

/// The number that the decimal digits `s` write.
pub open spec fn digits_value(s: Seq<char>) -> nat
    decreases s.len(),
{
    if s.len() == 0 {
        0
    } else {
        digits_value(s.drop_last()) * 10 + (s.last() as nat - 48) as nat
    }
}

/// What `str::parse` of std reads as an unsigned integer no greater than
/// `max`: an optional `+` followed by one or more decimal digits, whose value
/// fits.
pub open spec fn parse_unsigned(s: Seq<char>, max: nat) -> Option<nat> {
    let digits = if s.len() > 0 && s[0] == '+' {
        s.drop_first()
    } else {
        s
    };
    if digits.len() > 0 && all_digits(digits) && digits_value(digits) <= max {
        Some(digits_value(digits))
    } else {
        None
    }
}

/// Whether `d` is one or more decimal digits whose value is at most `max`.
pub open spec fn digits_fit(d: Seq<char>, max: nat) -> bool {
    d.len() > 0 && all_digits(d) && digits_value(d) <= max
}

/// Adding a digit to the end multiplies the value by ten and adds the digit.
proof fn lemma_digits_value_extend(s: Seq<char>, a: int, i: int)
    requires
        0 <= a <= i < s.len(),
    ensures
        digits_value(s.subrange(a, i + 1)) == digits_value(s.subrange(a, i)) * 10 + (s[i] as nat - 48) as nat,
{
    assert(s.subrange(a, i + 1).drop_last() =~= s.subrange(a, i));
}

/// The value of a prefix of a digit sequence is at most that of the whole.
proof fn lemma_digits_value_prefix(s: Seq<char>, i: int)
    requires
        all_digits(s),
        0 <= i <= s.len(),
    ensures
        digits_value(s.take(i)) <= digits_value(s),
    decreases s.len(),
{
    if i < s.len() {
        assert(s.drop_last().take(i) =~= s.take(i));
        lemma_digits_value_prefix(s.drop_last(), i);
    } else {
        assert(s.take(i) =~= s);
    }
}

/// Reads the characters of `s` from `start` on as decimal digits whose
/// value is at most `max`.
fn parse_digits(s: &str, start: usize, max: u64) -> (r: Option<u64>)
    requires
        start <= s@.len(),
    ensures
        match r {
            Some(v) => digits_fit(s@.skip(start as int), max as nat) && v == digits_value(
                s@.skip(start as int),
            ),
            None => !digits_fit(s@.skip(start as int), max as nat),
        },
{
    let ghost d = s@.skip(start as int);
    let n = s.unicode_len();
    if start >= n {
        return None;
    }
    let mut acc: u64 = 0;
    let mut i: usize = start;
    while i < n
        invariant
            start <= i <= n,
            n == s@.len(),
            d == s@.skip(start as int),
            all_digits(s@.subrange(start as int, i as int)),
            acc == digits_value(s@.subrange(start as int, i as int)),
            acc <= max,
        decreases n - i,
    {
        let c = s.get_char(i);
        proof {
            assert(d[i - start] == c);
        }
        if c < '0' || c > '9' {
            return None;
        }
        let dv: u64 = (c as u32 - 48) as u64;
        proof {
            lemma_digits_value_extend(s@, start as int, i as int);
            assert(s@.subrange(start as int, i + 1) =~= d.take(i + 1 - start));
        }
        if dv > max || acc > (max - dv) / 10 {
            proof {
                assert(acc * 10 + dv > max) by (nonlinear_arith)
                    requires
                        dv > max || acc > (max - dv) / 10,
                        dv <= 9,
                ;
                if all_digits(d) {
                    lemma_digits_value_prefix(d, i + 1 - start);
                }
            }
            return None;
        }
        proof {
            assert(acc * 10 + dv <= max) by (nonlinear_arith)
                requires
                    dv <= max,
                    acc <= (max - dv) / 10,
            ;
            assert(all_digits(s@.subrange(start as int, i + 1))) by {
                assert forall|k: int| 0 <= k < i + 1 - start implies '0' <= #[trigger] s@.subrange(
                    start as int,
                    i + 1,
                )[k] && s@.subrange(start as int, i + 1)[k] <= '9' by {
                    if k < i - start {
                        assert(s@.subrange(start as int, i + 1)[k] == s@.subrange(start as int, i as int)[k]);
                    }
                }
            }
        }
        acc = acc * 10 + dv;
        i = i + 1;
    }
    proof {
        assert(s@.subrange(start as int, n as int) =~= d);
    }
    Some(acc)
}

/// Reads `s` as `str::parse::<usize>` of std does.
pub(crate) fn parse_usize(s: &str) -> (r: Option<usize>)
    ensures
        match r {
            Some(n) => parse_unsigned(s@, usize::MAX as nat) == Some(n as nat),
            None => parse_unsigned(s@, usize::MAX as nat) is None,
        },
{
    let start: usize = if s.unicode_len() > 0 && s.get_char(0) == '+' {
        1
    } else {
        0
    };
    proof {
        if start == 1 {
            assert(s@.skip(1) =~= s@.drop_first());
        } else {
            assert(s@.skip(0) =~= s@);
        }
    }
    match parse_digits(s, start, usize::MAX as u64) {
        Some(v) => Some(v as usize),
        None => None,
    }
}

/// Reads `s` as `str::parse::<u16>` of std does.
pub(crate) fn parse_u16(s: &str) -> (r: Option<u16>)
    ensures
        match r {
            Some(n) => parse_unsigned(s@, u16::MAX as nat) == Some(n as nat),
            None => parse_unsigned(s@, u16::MAX as nat) is None,
        },
{
    let start: usize = if s.unicode_len() > 0 && s.get_char(0) == '+' {
        1
    } else {
        0
    };
    proof {
        if start == 1 {
            assert(s@.skip(1) =~= s@.drop_first());
        } else {
            assert(s@.skip(0) =~= s@);
        }
    }
    match parse_digits(s, start, 65535) {
        Some(v) => Some(v as u16),
        None => None,
    }
}

/// The text that `String::from_utf8_lossy` of std makes of `bytes`.
pub uninterp spec fn lossy_text(bytes: Seq<u8>) -> Seq<char>;

/// Decodes `bytes` with `String::from_utf8_lossy` of std: the result is
/// [`lossy_text`] of the bytes, which is their decoded text when they are
/// valid UTF-8 (invalid sequences become U+FFFD).
#[verifier::external_body]
pub(crate) fn utf8_lossy(bytes: &[u8]) -> (r: String)
    ensures
        r@ == lossy_text(bytes@),
        valid_utf8(bytes@) ==> r@ == decode_utf8(bytes@),
{
    String::from_utf8_lossy(bytes).into_owned()
}

/// `s` without the `/` characters at its end.
pub open spec fn trim_trailing_slashes(s: Seq<char>) -> Seq<char>
    decreases s.len(),
{
    if s.len() > 0 && s.last() == '/' {
        trim_trailing_slashes(s.drop_last())
    } else {
        s
    }
}

/// Removes the `/` characters at the end of `s`.
pub fn without_trailing_slashes(s: &str) -> (r: String)
    ensures
        r@ == trim_trailing_slashes(s@),
{
    let n = s.unicode_len();
    let mut end: usize = n;
    proof {
        assert(s@.subrange(0, n as int) =~= s@);
    }
    while end > 0 && s.get_char(end - 1) == '/'
        invariant
            end <= n,
            n == s@.len(),
            trim_trailing_slashes(s@) == trim_trailing_slashes(s@.subrange(0, end as int)),
        decreases end,
    {
        proof {
            assert(s@.subrange(0, end as int).drop_last() =~= s@.subrange(0, end - 1));
        }
        end = end - 1;
    }
    proof {
        let t = s@.subrange(0, end as int);
        assert(!(t.len() > 0 && t.last() == '/'));
    }
    s.substring_char(0, end).to_string()
}

/// What `str::parse` of std reads as a signed integer between `min` and
/// `max`: an optional `+` or `-` followed by one or more decimal digits,
/// whose value fits.
pub open spec fn parse_signed(s: Seq<char>, min: int, max: int) -> Option<int> {
    let negative = s.len() > 0 && s[0] == '-';
    let digits = if s.len() > 0 && (s[0] == '+' || s[0] == '-') {
        s.drop_first()
    } else {
        s
    };
    let value: int = if negative {
        -(digits_value(digits) as int)
    } else {
        digits_value(digits) as int
    };
    if digits.len() > 0 && all_digits(digits) && min <= value <= max {
        Some(value)
    } else {
        None
    }
}

/// Reads `s` as `str::parse::<i64>` of std does.
pub(crate) fn parse_i64(s: &str) -> (r: Option<i64>)
    ensures
        match r {
            Some(n) => parse_signed(s@, i64::MIN as int, i64::MAX as int) == Some(n as int),
            None => parse_signed(s@, i64::MIN as int, i64::MAX as int) is None,
        },
{
    let signed = s.unicode_len() > 0 && (s.get_char(0) == '+' || s.get_char(0) == '-');
    let negative = s.unicode_len() > 0 && s.get_char(0) == '-';
    let start: usize = if signed {
        1
    } else {
        0
    };
    proof {
        if start == 1 {
            assert(s@.skip(1) =~= s@.drop_first());
        } else {
            assert(s@.skip(0) =~= s@);
        }
    }
    if negative {
        match parse_digits(s, start, 0x8000_0000_0000_0000u64) {
            Some(v) => if v == 0x8000_0000_0000_0000u64 {
                Some(i64::MIN)
            } else {
                Some(-(v as i64))
            },
            None => None,
        }
    } else {
        match parse_digits(s, start, 0x7FFF_FFFF_FFFF_FFFFu64) {
            Some(v) => Some(v as i64),
            None => None,
        }
    }
}

/// `s` in lower case, as `str::to_lowercase` of std writes it.
pub uninterp spec fn unicode_lowercase(s: Seq<char>) -> Seq<char>;

/// Lower-cases `s` with `str::to_lowercase` of std.
#[verifier::external_body]
pub(crate) fn to_lowercase(s: &str) -> (r: String)
    ensures
        r@ == unicode_lowercase(s@),
{
    s.to_lowercase()
}

} // verus!
