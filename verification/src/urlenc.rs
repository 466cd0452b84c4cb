//! Percent-encoding of URL path segments.
use vstd::prelude::*;
use vstd::utf8::encode_utf8;

verus! {

/// Bytes that percent-encoding leaves as they are: ASCII letters and digits,
/// `-`, `.`, `_` and `~`.
pub open spec fn is_unreserved(b: u8) -> bool {
    ||| 48 <= b <= 57
    ||| 65 <= b <= 90
    ||| 97 <= b <= 122
    ||| b == 45
    ||| b == 46
    ||| b == 95
    ||| b == 126
}

/// The upper-case hexadecimal digit for `d < 16`.
pub open spec fn hex_upper_digit(d: u8) -> char {
    if d < 10 {
        (48 + d) as char
    } else {
        (55 + d) as char
    }
}

/// Each byte that is not unreserved becomes `%` and two upper-case hex digits.
pub open spec fn percent_encode_bytes(bytes: Seq<u8>) -> Seq<char>
    decreases bytes.len(),
{
    if bytes.len() == 0 {
        Seq::empty()
    } else {
        let b = bytes[0];
        let head = if is_unreserved(b) {
            seq![b as char]
        } else {
            seq!['%', hex_upper_digit(b / 16), hex_upper_digit(b % 16)]
        };
        head + percent_encode_bytes(bytes.drop_first())
    }
}

/// The percent-encoding of the UTF-8 bytes of `s`.
pub open spec fn url_encoded(s: Seq<char>) -> Seq<char> {
    percent_encode_bytes(encode_utf8(s))
}

/// Percent-encodes `data` with `urlencoding::encode`, which escapes every
/// UTF-8 byte except ASCII alphanumerics and `-`, `_`, `.`, `~` as `%XX`
/// with upper-case hex digits.
#[verifier::external_body]
pub(crate) fn url_encode(data: &str) -> (r: String)
    ensures
        r@ == url_encoded(data@),
{
    urlencoding::encode(data).into_owned()
}

} // verus!
