//! Percent-encoding of query values and the pieces that query strings are
//! assembled from.
use vstd::prelude::*;
use vstd::utf8::encode_utf8;
use crate::text::{decimal, push_i64, trim, trimmed};

verus! {

/// Bytes that percent-encoding leaves as they are: ASCII letters and digits
/// and `-`, `.`, `_`, `~`.
pub open spec fn is_unreserved_byte(b: u8) -> bool {
    ||| 48 <= b <= 57
    ||| 65 <= b <= 90
    ||| 97 <= b <= 122
    ||| b == 45
    ||| b == 46
    ||| b == 95
    ||| b == 126
}

/// The upper-case hexadecimal digit for a value below sixteen.
pub open spec fn hex_digit(d: int) -> char {
    if d < 10 {
        (48 + d) as char
    } else {
        (55 + d) as char
    }
}

/// One byte of percent-encoded output: the byte itself when it is
/// unreserved, else `%` and two upper-case hexadecimal digits.
pub open spec fn percent_encode_byte(b: u8) -> Seq<char> {
    if is_unreserved_byte(b) {
        seq![b as char]
    } else {
        seq!['%', hex_digit(b as int / 16), hex_digit(b as int % 16)]
    }
}

/// Percent-encoding of a byte string, byte by byte.
pub open spec fn percent_encode_bytes(bytes: Seq<u8>) -> Seq<char>
    decreases bytes.len(),
{
    if bytes.len() == 0 {
        seq![]
    } else {
        percent_encode_byte(bytes[0]) + percent_encode_bytes(bytes.drop_first())
    }
}

/// Percent-encoding of a text: every byte of its UTF-8 encoding.
pub open spec fn url_encoded(text: Seq<char>) -> Seq<char> {
    percent_encode_bytes(encode_utf8(text))
}

/// The characters that a percent-encoded value can hold: unreserved ASCII,
/// `%`, and the upper-case hexadecimal digits.
pub open spec fn is_encoded_char(c: char) -> bool {
    ||| ('0' <= c && c <= '9')
    ||| ('A' <= c && c <= 'Z')
    ||| ('a' <= c && c <= 'z')
    ||| c == '-'
    ||| c == '.'
    ||| c == '_'
    ||| c == '~'
    ||| c == '%'
}

/// Text that holds no query separator: no `&`, `=`, `#`, `?`, `+`, space or `/`.
pub open spec fn is_query_safe(s: Seq<char>) -> bool {
    forall|i: int| 0 <= i < s.len() ==> is_encoded_char(#[trigger] s[i])
}

/// Percent-encoded text is made of unreserved characters, `%` and hexadecimal
/// digits only, so a value placed in a query string cannot open another
/// parameter or end the query.
pub proof fn lemma_url_encoded_is_query_safe(text: Seq<char>)
    ensures
        is_query_safe(url_encoded(text)),
{
    lemma_percent_encode_bytes_safe(encode_utf8(text));
}

proof fn lemma_percent_encode_bytes_safe(bytes: Seq<u8>)
    ensures
        is_query_safe(percent_encode_bytes(bytes)),
    decreases bytes.len(),
{
    if bytes.len() > 0 {
        lemma_percent_encode_bytes_safe(bytes.drop_first());
        let head = percent_encode_byte(bytes[0]);
        let tail = percent_encode_bytes(bytes.drop_first());
        assert(is_query_safe(head));
        assert forall|i: int| 0 <= i < (head + tail).len() implies is_encoded_char(
            #[trigger] (head + tail)[i],
        ) by {
            if i < head.len() {
                assert((head + tail)[i] == head[i]);
            } else {
                assert((head + tail)[i] == tail[i - head.len()]);
            }
        }
    }
}

/// `urlencoding::encode`: percent-encodes every byte of the UTF-8 encoding of
/// the text except ASCII letters, digits, `-`, `.`, `_` and `~`, using
/// upper-case hexadecimal digits. The contract states that per-byte rule
/// exactly, as the crate's source (`encode_into`, `to_hex_digit`) shows it.
#[verifier::external_body]
pub(crate) fn url_encode(text: &str) -> (r: String)
    ensures
        r@ == url_encoded(text@),
{
    urlencoding::encode(text).into_owned()
}

/// One query parameter after the first: `&name=value`.
pub open spec fn param(name: Seq<char>, value: Seq<char>) -> Seq<char> {
    seq!['&'] + name + seq!['='] + value
}

/// An integer parameter, present only when the value is.
pub open spec fn opt_id_param(name: Seq<char>, value: Option<i64>) -> Seq<char> {
    match value {
        Some(v) => param(name, decimal(v as int)),
        None => seq![],
    }
}

/// A percent-encoded text parameter, present only when the value is.
pub open spec fn opt_encoded_param(name: Seq<char>, value: Option<Seq<char>>) -> Seq<char> {
    match value {
        Some(v) => param(name, url_encoded(v)),
        None => seq![],
    }
}

/// A percent-encoded text parameter, present only when the value is there
/// and not empty.
pub open spec fn opt_nonempty_param(name: Seq<char>, value: Option<Seq<char>>) -> Seq<char> {
    match value {
        Some(v) => if v.len() > 0 {
            param(name, url_encoded(v))
        } else {
            seq![]
        },
        None => seq![],
    }
}

/// A parameter written as the text is, present only when the value is.
pub open spec fn opt_raw_param(name: Seq<char>, value: Option<Seq<char>>) -> Seq<char> {
    match value {
        Some(v) => param(name, v),
        None => seq![],
    }
}

/// The view of an optional borrowed text.
pub open spec fn opt_str_view(value: Option<&str>) -> Option<Seq<char>> {
    match value {
        Some(v) => Some(v@),
        None => None,
    }
}

/// The view of an optional owned text.
pub open spec fn opt_string_view(value: Option<String>) -> Option<Seq<char>> {
    match value {
        Some(v) => Some(v@),
        None => None,
    }
}

/// The borrowed text of an optional owned text.
pub fn opt_as_str(value: &Option<String>) -> (r: Option<&str>)
    ensures
        opt_str_view(r) == opt_string_view(*value),
{
    match value {
        Some(v) => Some(v.as_str()),
        None => None,
    }
}

/// An optional text without its outer white space.
pub open spec fn opt_trimmed(value: Option<Seq<char>>) -> Option<Seq<char>> {
    match value {
        Some(v) => Some(trimmed(v)),
        None => None,
    }
}

/// An optional text without its outer white space.
pub fn opt_trim(value: Option<&str>) -> (r: Option<&str>)
    ensures
        opt_str_view(r) == opt_trimmed(opt_str_view(value)),
{
    match value {
        Some(v) => Some(trim(v)),
        None => None,
    }
}

/// Appends `&name=value`.
pub fn append_param(path: &mut String, name: &str, value: &str)
    ensures
        final(path)@ == old(path)@ + param(name@, value@),
{
    proof {
        reveal_strlit("&");
        reveal_strlit("=");
    }
    path.append("&");
    path.append(name);
    path.append("=");
    path.append(value);
    assert(path@ =~= old(path)@ + param(name@, value@));
}

/// Appends `&name=` and the decimal value, when there is a value.
pub fn append_optional_id(path: &mut String, name: &str, value: Option<i64>)
    ensures
        final(path)@ == old(path)@ + opt_id_param(name@, value),
{
    match value {
        Some(v) => {
            proof {
                reveal_strlit("&");
                reveal_strlit("=");
            }
            path.append("&");
            path.append(name);
            path.append("=");
            push_i64(path, v);
            assert(path@ =~= old(path)@ + opt_id_param(name@, value));
        },
        None => {
            assert(path@ =~= old(path)@ + opt_id_param(name@, value));
        },
    }
}

/// Appends `&name=` and the percent-encoded value, when there is a value.
pub fn append_optional_encoded(path: &mut String, name: &str, value: Option<&str>)
    ensures
        final(path)@ == old(path)@ + opt_encoded_param(name@, opt_str_view(value)),
{
    match value {
        Some(v) => {
            let encoded = url_encode(v);
            append_param(path, name, encoded.as_str());
        },
        None => {
            assert(path@ =~= old(path)@ + opt_encoded_param(name@, opt_str_view(value)));
        },
    }
}

/// Appends `&name=` and the percent-encoded value, when there is a value and
/// it is not empty.
pub fn append_optional_nonempty(path: &mut String, name: &str, value: Option<&str>)
    ensures
        final(path)@ == old(path)@ + opt_nonempty_param(name@, opt_str_view(value)),
{
    match value {
        Some(v) => {
            if v.unicode_len() > 0 {
                let encoded = url_encode(v);
                append_param(path, name, encoded.as_str());
            } else {
                assert(path@ =~= old(path)@ + opt_nonempty_param(name@, opt_str_view(value)));
            }
        },
        None => {
            assert(path@ =~= old(path)@ + opt_nonempty_param(name@, opt_str_view(value)));
        },
    }
}

/// Appends `&name=` and the value as it is, when there is a value.
pub fn append_optional_raw(path: &mut String, name: &str, value: Option<&str>)
    ensures
        final(path)@ == old(path)@ + opt_raw_param(name@, opt_str_view(value)),
{
    match value {
        Some(v) => {
            append_param(path, name, v);
        },
        None => {
            assert(path@ =~= old(path)@ + opt_raw_param(name@, opt_str_view(value)));
        },
    }
}

} // verus!

verus! {

/// What is appended to a text is found in the result.
pub broadcast proof fn lemma_contains_appended(x: Seq<char>, y: Seq<char>)
    ensures
        #[trigger] crate::text::text_contains(x + y, y),
{
    assert((x + y).subrange(x.len() as int, (x.len() + y.len()) as int) =~= y);
}

/// A text is found at the start of what it begins.
pub broadcast proof fn lemma_contains_prefix(x: Seq<char>, y: Seq<char>)
    ensures
        #[trigger] crate::text::text_contains(x + y, x),
{
    let i: int = 0;
    assert((x + y).subrange(i, i + x.len()) =~= x);
}

/// What is found in a text is still found after more is appended.
pub broadcast proof fn lemma_contains_extended(x: Seq<char>, y: Seq<char>, needle: Seq<char>)
    requires
        crate::text::text_contains(x, needle),
    ensures
        #[trigger] crate::text::text_contains(x + y, needle),
{
    let i = choose|i: int|
        0 <= i && i + needle.len() <= x.len() && #[trigger] x.subrange(i, i + needle.len()) == needle;
    assert((x + y).subrange(i, i + needle.len()) =~= x.subrange(i, i + needle.len()));
}

/// Whether a path carries a parameter with a value.
pub open spec fn has_param(path: Seq<char>, name: Seq<char>, value: Seq<char>) -> bool {
    crate::text::text_contains(path, param(name, value))
}

} // verus!
