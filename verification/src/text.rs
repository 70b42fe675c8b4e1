//! Text primitives: decimal rendering of integers, comparison, and trimming
//! of white space.
use vstd::prelude::*;
use vstd::string::StringSliceAdditionalSpecFns;
use vstd::utf8::{encode_utf8, is_char_boundary};

verus! {

/// The ASCII digit for `d` (taken modulo 10).
pub open spec fn digit_char(d: nat) -> char {
    ((d % 10) + 48) as char
}

/// The decimal digits of a natural number, most significant first, without
/// leading zeros (zero is the single digit `0`).
pub open spec fn digits(n: nat) -> Seq<char>
    decreases n,
{
    if n < 10 {
        seq![digit_char(n)]
    } else {
        digits(n / 10).push(digit_char(n % 10))
    }
}

/// The decimal rendering of an integer, as `Display` writes it: a `-` for
/// negative values, then the digits of the magnitude.
pub open spec fn decimal(n: int) -> Seq<char> {
    if n < 0 {
        seq!['-'] + digits((-n) as nat)
    } else {
        digits(n as nat)
    }
}

/// The one-character string for a digit below ten.
fn digit_str(d: u64) -> (r: &'static str)
    requires
        d < 10,
    ensures
        r@ == seq![digit_char(d as nat)],
{
    if d == 0 {
        proof { reveal_strlit("0"); }
        "0"
    } else if d == 1 {
        proof { reveal_strlit("1"); }
        "1"
    } else if d == 2 {
        proof { reveal_strlit("2"); }
        "2"
    } else if d == 3 {
        proof { reveal_strlit("3"); }
        "3"
    } else if d == 4 {
        proof { reveal_strlit("4"); }
        "4"
    } else if d == 5 {
        proof { reveal_strlit("5"); }
        "5"
    } else if d == 6 {
        proof { reveal_strlit("6"); }
        "6"
    } else if d == 7 {
        proof { reveal_strlit("7"); }
        "7"
    } else if d == 8 {
        proof { reveal_strlit("8"); }
        "8"
    } else {
        proof { reveal_strlit("9"); }
        "9"
    }
}

/// Appends the decimal digits of `n`.
pub fn push_digits(out: &mut String, n: u64)
    ensures
        final(out)@ == old(out)@ + digits(n as nat),
    decreases n,
{
    if n >= 10 {
        push_digits(out, n / 10);
        let ghost mid = out@;
        out.append(digit_str(n % 10));
        assert(digits(n as nat) == digits((n / 10) as nat).push(digit_char((n % 10) as nat)));
        assert(out@ =~= old(out)@ + digits(n as nat));
    } else {
        out.append(digit_str(n));
        assert(old(out)@ + digits(n as nat) =~= out@);
    }
}

/// Appends the decimal rendering of a signed integer.
pub fn push_i64(out: &mut String, n: i64)
    ensures
        final(out)@ == old(out)@ + decimal(n as int),
{
    if n < 0 {
        proof { reveal_strlit("-"); }
        out.append("-");
        let magnitude: u64 = if n == i64::MIN {
            9223372036854775808u64
        } else {
            (-n) as u64
        };
        push_digits(out, magnitude);
        assert(out@ =~= old(out)@ + decimal(n as int));
    } else {
        push_digits(out, n as u64);
    }
}

/// The decimal rendering of a signed integer.
pub fn i64_text(n: i64) -> (r: String)
    ensures
        r@ == decimal(n as int),
{
    let mut out = String::new();
    push_i64(&mut out, n);
    assert(out@ =~= decimal(n as int));
    out
}

/// Whether two texts hold the same characters.
pub fn text_equals(a: &str, b: &str) -> (r: bool)
    ensures
        r == (a@ == b@),
{
    let n = a.unicode_len();
    if n != b.unicode_len() {
        return false;
    }
    let mut i: usize = 0;
    while i < n
        invariant
            n == a@.len(),
            n == b@.len(),
            i <= n,
            forall|j: int| 0 <= j < i ==> a@[j] == b@[j],
        decreases n - i,
    {
        if a.get_char(i) != b.get_char(i) {
            return false;
        }
        i = i + 1;
    }
    assert(a@ =~= b@);
    true
}

/// The two-digit, zero-padded rendering of a number below 100 (`{:02}`).
pub open spec fn two_digits(n: nat) -> Seq<char> {
    seq![digit_char(n / 10), digit_char(n % 10)]
}

/// Appends a number below 100 as two digits, zero-padded.
pub fn push_two_digits(out: &mut String, n: u64)
    requires
        n < 100,
    ensures
        final(out)@ == old(out)@ + two_digits(n as nat),
{
    out.append(digit_str(n / 10));
    out.append(digit_str(n % 10));
    assert(out@ =~= old(out)@ + two_digits(n as nat)) by {
        assert(((n / 10) as nat) % 10 == (n as nat) / 10);
    }
}

/// Appends the decimal rendering of an unsigned count.
pub fn push_count(out: &mut String, n: u64)
    ensures
        final(out)@ == old(out)@ + decimal(n as int),
{
    push_digits(out, n);
}

/// `true` or `false`, as `Display` writes a `bool`.
pub open spec fn bool_text(b: bool) -> Seq<char> {
    if b {
        "true"@
    } else {
        "false"@
    }
}

/// Appends `true` or `false`.
pub fn push_bool(out: &mut String, b: bool)
    ensures
        final(out)@ == old(out)@ + bool_text(b),
{
    if b {
        out.append("true");
    } else {
        out.append("false");
    }
}

/// Characters with the Unicode `White_Space` property, which `char::is_whitespace`
/// and `str::trim` go by.
pub open spec fn is_white_space(c: char) -> bool {
    ||| ('\t' <= c && c <= '\r')
    ||| c == ' '
    ||| c == '\u{85}'
    ||| c == '\u{a0}'
    ||| c == '\u{1680}'
    ||| ('\u{2000}' <= c && c <= '\u{200a}')
    ||| c == '\u{2028}'
    ||| c == '\u{2029}'
    ||| c == '\u{202f}'
    ||| c == '\u{205f}'
    ||| c == '\u{3000}'
}

/// Whether a character is white space.
pub fn white_space(c: char) -> (r: bool)
    ensures
        r == is_white_space(c),
{
    ('\t' <= c && c <= '\r') || c == ' ' || c == '\u{85}' || c == '\u{a0}' || c == '\u{1680}'
        || ('\u{2000}' <= c && c <= '\u{200a}') || c == '\u{2028}' || c == '\u{2029}' || c
        == '\u{202f}' || c == '\u{205f}' || c == '\u{3000}'
}

/// The text without its leading white space.
pub open spec fn trim_start(s: Seq<char>) -> Seq<char>
    decreases s.len(),
{
    if s.len() > 0 && is_white_space(s[0]) {
        trim_start(s.drop_first())
    } else {
        s
    }
}

/// The text without its trailing white space.
pub open spec fn trim_end(s: Seq<char>) -> Seq<char>
    decreases s.len(),
{
    if s.len() > 0 && is_white_space(s.last()) {
        trim_end(s.drop_last())
    } else {
        s
    }
}

/// The text without leading and trailing white space, as `str::trim` gives it.
pub open spec fn trimmed(s: Seq<char>) -> Seq<char> {
    trim_end(trim_start(s))
}

/// The text without leading and trailing white space.
pub fn trim(s: &str) -> (r: &str)
    ensures
        r@ == trimmed(s@),
{
    let n = s.unicode_len();
    let mut i: usize = 0;
    assert(s@.subrange(0, n as int) =~= s@);
    while i < n && white_space(s.get_char(i))
        invariant
            n == s@.len(),
            i <= n,
            trim_start(s@) == trim_start(s@.subrange(i as int, n as int)),
        decreases n - i,
    {
        assert(s@.subrange(i as int, n as int).drop_first() =~= s@.subrange(
            i + 1,
            n as int,
        ));
        i = i + 1;
    }
    let ghost rest = s@.subrange(i as int, n as int);
    assert(trim_start(rest) == rest);
    let mut j: usize = n;
    while j > i && white_space(s.get_char(j - 1))
        invariant
            n == s@.len(),
            i <= j <= n,
            trim_end(rest) == trim_end(s@.subrange(i as int, j as int)),
        decreases j - i,
    {
        assert(s@.subrange(i as int, j as int).drop_last() =~= s@.subrange(
            i as int,
            j - 1,
        ));
        j = j - 1;
    }
    assert(trim_end(s@.subrange(i as int, j as int)) == s@.subrange(i as int, j as int));
    s.substring_char(i, j)
}

/// Trimmed text holds no white space at either end.
pub proof fn lemma_trimmed_has_no_outer_space(s: Seq<char>)
    ensures
        trimmed(s).len() > 0 ==> !is_white_space(trimmed(s)[0]),
        trimmed(s).len() > 0 ==> !is_white_space(trimmed(s).last()),
{
    lemma_trim_start_shape(s);
    lemma_trim_end_shape(trim_start(s));
}

/// Trimming twice gives what trimming once gives.
pub proof fn lemma_trim_idempotent(s: Seq<char>)
    ensures
        trimmed(trimmed(s)) == trimmed(s),
{
    let t = trimmed(s);
    lemma_trimmed_has_no_outer_space(s);
    assert(trim_start(t) == t);
    assert(trim_end(t) == t);
}

proof fn lemma_trim_start_shape(s: Seq<char>)
    ensures
        trim_start(s).len() > 0 ==> !is_white_space(trim_start(s)[0]),
        trim_start(s).len() <= s.len(),
    decreases s.len(),
{
    if s.len() > 0 && is_white_space(s[0]) {
        lemma_trim_start_shape(s.drop_first());
    }
}

proof fn lemma_trim_end_shape(s: Seq<char>)
    ensures
        trim_end(s).len() > 0 ==> !is_white_space(trim_end(s).last()),
        trim_end(s).len() > 0 && s.len() > 0 && !is_white_space(s[0]) ==> trim_end(s)[0] == s[0],
        trim_end(s).len() <= s.len(),
    decreases s.len(),
{
    if s.len() > 0 && is_white_space(s.last()) {
        lemma_trim_end_shape(s.drop_last());
        if trim_end(s.drop_last()).len() > 0 {
            assert(s.drop_last()[0] == s[0]);
        }
    }
}

/// An ASCII decimal digit.
pub open spec fn is_digit(c: char) -> bool {
    '0' <= c && c <= '9'
}

/// The value of an ASCII decimal digit.
pub open spec fn digit_value(c: char) -> int {
    c as int - 48
}

/// Every character is an ASCII decimal digit.
pub open spec fn all_digits(s: Seq<char>) -> bool {
    forall|i: int| 0 <= i < s.len() ==> is_digit(#[trigger] s[i])
}

/// The number that a run of decimal digits spells, most significant first.
pub open spec fn digits_value(s: Seq<char>) -> int
    decreases s.len(),
{
    if s.len() == 0 {
        0
    } else {
        digits_value(s.drop_last()) * 10 + digit_value(s.last())
    }
}

/// What `str::parse::<i64>` gives: an optional `+` or `-`, then one or more
/// ASCII digits and nothing else, with a value that fits in `i64`.
pub open spec fn parsed_i64(s: Seq<char>) -> Option<int> {
    let negative = s.len() > 0 && s[0] == '-';
    let signed = s.len() > 0 && (s[0] == '-' || s[0] == '+');
    let body = if signed {
        s.drop_first()
    } else {
        s
    };
    if body.len() == 0 || !all_digits(body) {
        None
    } else {
        let v = if negative {
            -digits_value(body)
        } else {
            digits_value(body)
        };
        if i64::MIN <= v && v <= i64::MAX {
            Some(v)
        } else {
            None
        }
    }
}

proof fn lemma_digits_value_nonnegative(s: Seq<char>)
    requires
        all_digits(s),
    ensures
        digits_value(s) >= 0,
    decreases s.len(),
{
    if s.len() > 0 {
        assert(all_digits(s.drop_last())) by {
            assert forall|i: int| 0 <= i < s.drop_last().len() implies is_digit(
                #[trigger] s.drop_last()[i],
            ) by {
                assert(s.drop_last()[i] == s[i]);
            }
        }
        lemma_digits_value_nonnegative(s.drop_last());
        assert(is_digit(s[s.len() - 1]));
    }
}

/// A run of digits spells at least as much as any of its prefixes.
proof fn lemma_digits_value_prefix(s: Seq<char>, k: int)
    requires
        all_digits(s),
        0 <= k <= s.len(),
    ensures
        digits_value(s.take(k)) <= digits_value(s),
    decreases s.len(),
{
    if k < s.len() {
        let p = s.drop_last();
        assert(all_digits(p)) by {
            assert forall|i: int| 0 <= i < p.len() implies is_digit(#[trigger] p[i]) by {
                assert(p[i] == s[i]);
            }
        }
        lemma_digits_value_prefix(p, k);
        assert(p.take(k) =~= s.take(k));
        lemma_digits_value_nonnegative(p);
        assert(is_digit(s[s.len() - 1]));
    } else {
        assert(s.take(k) =~= s);
    }
}

/// Reads a signed decimal integer as `str::parse::<i64>` does.
pub fn parse_i64(s: &str) -> (r: Option<i64>)
    ensures
        match r {
            Some(v) => parsed_i64(s@) == Some(v as int),
            None => parsed_i64(s@) is None,
        },
{
    let n = s.unicode_len();
    if n == 0 {
        return None;
    }
    let first = s.get_char(0);
    let negative = first == '-';
    let start: usize = if first == '-' || first == '+' {
        1
    } else {
        0
    };
    let ghost body = if start == 1 {
        s@.drop_first()
    } else {
        s@
    };
    assert(body =~= s@.subrange(start as int, n as int));
    assert(body == (if s@.len() > 0 && (s@[0] == '-' || s@[0] == '+') {
        s@.drop_first()
    } else {
        s@
    }));
    assert(negative == (s@.len() > 0 && s@[0] == '-'));
    if start == n {
        return None;
    }
    let limit: u64 = if negative {
        9223372036854775808u64
    } else {
        9223372036854775807u64
    };
    let mut acc: u64 = 0;
    let mut i: usize = start;
    assert(body.take(0) =~= Seq::<char>::empty());
    while i < n
        invariant
            n == s@.len(),
            start <= i <= n,
            body =~= s@.subrange(start as int, n as int),
            body == (if s@.len() > 0 && (s@[0] == '-' || s@[0] == '+') {
                s@.drop_first()
            } else {
                s@
            }),
            negative == (s@.len() > 0 && s@[0] == '-'),
            body.len() > 0,
            all_digits(body.take(i - start)),
            acc as int == digits_value(body.take(i - start)),
            acc <= limit,
            limit == (if negative {
                9223372036854775808u64
            } else {
                9223372036854775807u64
            }),
        decreases n - i,
    {
        let c = s.get_char(i);
        let ghost k: int = i - start;
        if !('0' <= c && c <= '9') {
            assert(body[k] == c);
            assert(!is_digit(body[k]));
            assert(!all_digits(body));
            return None;
        }
        let d = (c as u32 - 48) as u64;
        assert(digit_value(c) == d);
        assert(body.take(k + 1).drop_last() =~= body.take(k));
        assert(body.take(k + 1).last() == c);
        if acc > (limit - d) / 10 {
            proof {
                assert(digits_value(body.take(k + 1)) == acc * 10 + d);
                assert(acc * 10 + d > limit) by (nonlinear_arith)
                    requires
                        acc > (limit - d) / 10,
                        d <= 9,
                        limit >= 9,
                ;
                if all_digits(body) {
                    lemma_digits_value_prefix(body, k + 1);
                    assert(digits_value(body) > limit);
                    assert(parsed_i64(s@) is None);
                }
            }
            return None;
        }
        assert(acc * 10 + d <= limit) by (nonlinear_arith)
            requires
                acc <= (limit - d) / 10,
                d <= 9,
                limit >= 9,
        ;
        acc = acc * 10 + d;
        i = i + 1;
        assert(all_digits(body.take(i - start))) by {
            assert forall|j: int| 0 <= j < body.take(i - start).len() implies is_digit(
                #[trigger] body.take(i - start)[j],
            ) by {
                if j < k {
                    assert(body.take(i - start)[j] == body.take(k)[j]);
                }
            }
        }
    }
    assert(body.take(n - start) =~= body);
    if negative {
        if acc == 9223372036854775808u64 {
            Some(i64::MIN)
        } else {
            Some(-(acc as i64))
        }
    } else {
        Some(acc as i64)
    }
}

/// The digits of a number spell it back.
pub proof fn lemma_digits_round_trip(n: nat)
    ensures
        all_digits(digits(n)),
        digits_value(digits(n)) == n,
        digits(n).len() > 0,
    decreases n,
{
    assert(digit_value(digit_char(n)) == n % 10);
    if n < 10 {
        assert(digits(n).drop_last() =~= Seq::<char>::empty());
        assert(digits_value(Seq::<char>::empty()) == 0);
        assert(digits_value(digits(n)) == digits_value(digits(n).drop_last()) * 10 + digit_value(
            digits(n).last(),
        ));
    }
    if n >= 10 {
        lemma_digits_round_trip(n / 10);
        let d = digits(n);
        assert(d.drop_last() =~= digits(n / 10));
        assert(digit_value(digit_char((n % 10) as nat)) == n % 10);
        assert(digits_value(d) == digits_value(digits(n / 10)) * 10 + n % 10);
        assert((n / 10) * 10 + n % 10 == n) by (nonlinear_arith);
        assert forall|i: int| 0 <= i < d.len() implies is_digit(#[trigger] d[i]) by {
            if i < d.len() - 1 {
                assert(d[i] == digits(n / 10)[i]);
            }
        }
    }
}

/// Reading back the decimal rendering of any `i64` gives that number.
pub proof fn lemma_parse_decimal_round_trip(n: i64)
    ensures
        parsed_i64(decimal(n as int)) == Some(n as int),
{
    if n < 0 {
        let m: nat = (-n) as nat;
        lemma_digits_round_trip(m);
        assert((seq!['-'] + digits(m)).drop_first() =~= digits(m));
    } else {
        lemma_digits_round_trip(n as nat);
        assert(is_digit(digits(n as nat)[0]));
    }
}

/// A decimal rendering has no white space around it, so trimming keeps it.
pub proof fn lemma_decimal_trimmed(n: i64)
    ensures
        trimmed(decimal(n as int)) == decimal(n as int),
{
    let d = decimal(n as int);
    let m: nat = if n < 0 { (-n) as nat } else { n as nat };
    lemma_digits_round_trip(m);
    assert(all_digits(digits(m)));
    assert(d.len() > 0);
    assert(!is_white_space(d[0])) by {
        if n >= 0 {
            assert(is_digit(digits(m)[0]));
        }
    }
    assert(!is_white_space(d.last())) by {
        assert(is_digit(digits(m)[digits(m).len() - 1]));
        assert(d.last() == digits(m)[digits(m).len() - 1]);
    }
    assert(trim_start(d) == d);
    assert(trim_end(d) == d);
}

/// The position of the first occurrence of a character, if any.
pub open spec fn index_of_char(s: Seq<char>, c: char) -> Option<int>
    decreases s.len(),
{
    if s.len() == 0 {
        None
    } else if s[0] == c {
        Some(0)
    } else {
        match index_of_char(s.drop_first(), c) {
            Some(i) => Some(i + 1),
            None => None,
        }
    }
}

proof fn lemma_index_of_char(s: Seq<char>, c: char, i: int)
    requires
        0 <= i <= s.len(),
        forall|j: int| 0 <= j < i ==> s[j] != c,
    ensures
        i < s.len() && s[i] == c ==> index_of_char(s, c) == Some(i),
        i == s.len() ==> index_of_char(s, c) is None,
    decreases i,
{
    if i > 0 {
        assert forall|j: int| 0 <= j < i - 1 implies s.drop_first()[j] != c by {
            assert(s.drop_first()[j] == s[j + 1]);
        }
        lemma_index_of_char(s.drop_first(), c, i - 1);
        if i < s.len() && s[i] == c {
            assert(s.drop_first()[i - 1] == c);
        }
    }
}

/// Finds the first occurrence of a character.
pub fn find_char(s: &str, c: char) -> (r: Option<usize>)
    ensures
        match r {
            Some(i) => {
                &&& index_of_char(s@, c) == Some(i as int)
                &&& i < s@.len()
                &&& s@[i as int] == c
            },
            None => index_of_char(s@, c) is None,
        },
{
    let n = s.unicode_len();
    let mut i: usize = 0;
    while i < n
        invariant
            n == s@.len(),
            i <= n,
            forall|j: int| 0 <= j < i ==> s@[j] != c,
        decreases n - i,
    {
        if s.get_char(i) == c {
            proof {
                lemma_index_of_char(s@, c, i as int);
            }
            return Some(i);
        }
        i = i + 1;
    }
    proof {
        lemma_index_of_char(s@, c, i as int);
    }
    None
}

/// The byte-wise prefix of a text, of at most `max` bytes of its UTF-8
/// encoding, as `&text[..text.len().min(max)]` takes it.
pub fn byte_prefix(text: &str, max: usize) -> (r: String)
    requires
        encode_utf8(text@).len() <= usize::MAX,
        is_char_boundary(
            encode_utf8(text@),
            if encode_utf8(text@).len() <= max {
                encode_utf8(text@).len() as int
            } else {
                max as int
            },
        ),
    ensures
        encode_utf8(r@) == encode_utf8(text@).take(
            if encode_utf8(text@).len() <= max {
                encode_utf8(text@).len() as int
            } else {
                max as int
            },
        ),
{
    let len = text.len();
    assert(text.spec_bytes() == encode_utf8(text@));
    let m = if len <= max {
        len
    } else {
        max
    };
    let (head, _) = text.split_at(m);
    assert(head.spec_bytes() == encode_utf8(head@));
    assert(encode_utf8(text@).take(m as int) =~= encode_utf8(text@).subrange(0, m as int));
    String::from_str(head)
}

/// A suffix of a text takes no more bytes to encode than the whole text.
pub proof fn lemma_encode_skip_len(s: Seq<char>, k: int)
    requires
        0 <= k <= s.len(),
    ensures
        encode_utf8(s.skip(k)).len() <= encode_utf8(s).len(),
    decreases k,
{
    if k == 0 {
        assert(s.skip(0) =~= s);
    } else {
        assert(s.skip(k) =~= s.drop_first().skip(k - 1));
        lemma_encode_skip_len(s.drop_first(), k - 1);
    }
}

/// A character in ASCII upper case; other characters stay as they are.
pub open spec fn ascii_upper(c: char) -> char {
    if 'a' <= c && c <= 'z' {
        ((c as u32) - 32) as char
    } else {
        c
    }
}

/// A text with its ASCII letters in upper case, as `to_ascii_uppercase` makes it.
pub open spec fn ascii_uppercase(s: Seq<char>) -> Seq<char> {
    s.map_values(|c: char| ascii_upper(c))
}

/// The upper-case letter for an ASCII lower-case letter.
fn upper_letter(c: char) -> (r: &'static str)
    requires
        'a' <= c && c <= 'z',
    ensures
        r@ == seq![ascii_upper(c)],
{
    match c {
        'a' => {
            proof { reveal_strlit("A"); }
            "A"
        },
        'b' => {
            proof { reveal_strlit("B"); }
            "B"
        },
        'c' => {
            proof { reveal_strlit("C"); }
            "C"
        },
        'd' => {
            proof { reveal_strlit("D"); }
            "D"
        },
        'e' => {
            proof { reveal_strlit("E"); }
            "E"
        },
        'f' => {
            proof { reveal_strlit("F"); }
            "F"
        },
        'g' => {
            proof { reveal_strlit("G"); }
            "G"
        },
        'h' => {
            proof { reveal_strlit("H"); }
            "H"
        },
        'i' => {
            proof { reveal_strlit("I"); }
            "I"
        },
        'j' => {
            proof { reveal_strlit("J"); }
            "J"
        },
        'k' => {
            proof { reveal_strlit("K"); }
            "K"
        },
        'l' => {
            proof { reveal_strlit("L"); }
            "L"
        },
        'm' => {
            proof { reveal_strlit("M"); }
            "M"
        },
        'n' => {
            proof { reveal_strlit("N"); }
            "N"
        },
        'o' => {
            proof { reveal_strlit("O"); }
            "O"
        },
        'p' => {
            proof { reveal_strlit("P"); }
            "P"
        },
        'q' => {
            proof { reveal_strlit("Q"); }
            "Q"
        },
        'r' => {
            proof { reveal_strlit("R"); }
            "R"
        },
        's' => {
            proof { reveal_strlit("S"); }
            "S"
        },
        't' => {
            proof { reveal_strlit("T"); }
            "T"
        },
        'u' => {
            proof { reveal_strlit("U"); }
            "U"
        },
        'v' => {
            proof { reveal_strlit("V"); }
            "V"
        },
        'w' => {
            proof { reveal_strlit("W"); }
            "W"
        },
        'x' => {
            proof { reveal_strlit("X"); }
            "X"
        },
        'y' => {
            proof { reveal_strlit("Y"); }
            "Y"
        },
        'z' => {
            proof { reveal_strlit("Z"); }
            "Z"
        },
        _ => {
            proof { reveal_strlit("Z"); }
            "Z"
        },
    }
}

/// A text with its ASCII letters in upper case.
pub fn to_ascii_uppercase(s: &str) -> (r: String)
    ensures
        r@ == ascii_uppercase(s@),
{
    let n = s.unicode_len();
    let mut out = String::new();
    let mut i: usize = 0;
    while i < n
        invariant
            n == s@.len(),
            i <= n,
            out@ == ascii_uppercase(s@.take(i as int)),
        decreases n - i,
    {
        let c = s.get_char(i);
        if 'a' <= c && c <= 'z' {
            out.append(upper_letter(c));
        } else {
            out.append(s.substring_char(i, i + 1));
        }
        assert(ascii_uppercase(s@.take(i + 1)) =~= ascii_uppercase(s@.take(i as int)).push(
            ascii_upper(s@[i as int]),
        ));
        i = i + 1;
    }
    assert(s@.take(n as int) =~= s@);
    out
}

/// A character in ASCII lower case; other characters stay as they are.
pub open spec fn ascii_lower(c: char) -> char {
    if 'A' <= c && c <= 'Z' {
        ((c as u32) + 32) as char
    } else {
        c
    }
}

/// A text with its ASCII letters in lower case, as `to_ascii_lowercase` makes it.
pub open spec fn ascii_lowercase(s: Seq<char>) -> Seq<char> {
    s.map_values(|c: char| ascii_lower(c))
}

/// The lower-case letter for an ASCII upper-case letter.
fn lower_letter(c: char) -> (r: &'static str)
    requires
        'A' <= c && c <= 'Z',
    ensures
        r@ == seq![ascii_lower(c)],
{
    match c {
        'A' => {
            proof { reveal_strlit("a"); }
            "a"
        },
        'B' => {
            proof { reveal_strlit("b"); }
            "b"
        },
        'C' => {
            proof { reveal_strlit("c"); }
            "c"
        },
        'D' => {
            proof { reveal_strlit("d"); }
            "d"
        },
        'E' => {
            proof { reveal_strlit("e"); }
            "e"
        },
        'F' => {
            proof { reveal_strlit("f"); }
            "f"
        },
        'G' => {
            proof { reveal_strlit("g"); }
            "g"
        },
        'H' => {
            proof { reveal_strlit("h"); }
            "h"
        },
        'I' => {
            proof { reveal_strlit("i"); }
            "i"
        },
        'J' => {
            proof { reveal_strlit("j"); }
            "j"
        },
        'K' => {
            proof { reveal_strlit("k"); }
            "k"
        },
        'L' => {
            proof { reveal_strlit("l"); }
            "l"
        },
        'M' => {
            proof { reveal_strlit("m"); }
            "m"
        },
        'N' => {
            proof { reveal_strlit("n"); }
            "n"
        },
        'O' => {
            proof { reveal_strlit("o"); }
            "o"
        },
        'P' => {
            proof { reveal_strlit("p"); }
            "p"
        },
        'Q' => {
            proof { reveal_strlit("q"); }
            "q"
        },
        'R' => {
            proof { reveal_strlit("r"); }
            "r"
        },
        'S' => {
            proof { reveal_strlit("s"); }
            "s"
        },
        'T' => {
            proof { reveal_strlit("t"); }
            "t"
        },
        'U' => {
            proof { reveal_strlit("u"); }
            "u"
        },
        'V' => {
            proof { reveal_strlit("v"); }
            "v"
        },
        'W' => {
            proof { reveal_strlit("w"); }
            "w"
        },
        'X' => {
            proof { reveal_strlit("x"); }
            "x"
        },
        'Y' => {
            proof { reveal_strlit("y"); }
            "y"
        },
        'Z' => {
            proof { reveal_strlit("z"); }
            "z"
        },
        _ => {
            proof { reveal_strlit("z"); }
            "z"
        },
    }
}

/// A text with its ASCII letters in lower case.
pub fn to_ascii_lowercase(s: &str) -> (r: String)
    ensures
        r@ == ascii_lowercase(s@),
{
    let n = s.unicode_len();
    let mut out = String::new();
    let mut i: usize = 0;
    while i < n
        invariant
            n == s@.len(),
            i <= n,
            out@ == ascii_lowercase(s@.take(i as int)),
        decreases n - i,
    {
        let c = s.get_char(i);
        if 'A' <= c && c <= 'Z' {
            out.append(lower_letter(c));
        } else {
            out.append(s.substring_char(i, i + 1));
        }
        assert(ascii_lowercase(s@.take(i + 1)) =~= ascii_lowercase(s@.take(i as int)).push(
            ascii_lower(s@[i as int]),
        ));
        i = i + 1;
    }
    assert(s@.take(n as int) =~= s@);
    out
}

/// Whether `needle` occurs in `hay` as a run of consecutive characters.
pub open spec fn text_contains(hay: Seq<char>, needle: Seq<char>) -> bool {
    exists|i: int| 0 <= i && i + needle.len() <= hay.len() && #[trigger] hay.subrange(i, i + needle.len()) == needle
}

/// Whether `needle` occurs in `hay`, as `str::contains` finds it.
pub fn contains_text(hay: &str, needle: &str) -> (r: bool)
    ensures
        r == text_contains(hay@, needle@),
{
    let n = hay.unicode_len();
    let m = needle.unicode_len();
    if m > n {
        return false;
    }
    let mut i: usize = 0;
    while i <= n - m
        invariant
            n == hay@.len(),
            m == needle@.len(),
            m <= n,
            i <= n - m + 1,
            forall|k: int| 0 <= k < i ==> #[trigger] hay@.subrange(k, k + m) != needle@,
        decreases n - i,
    {
        let mut j: usize = 0;
        while j < m && hay.get_char(i + j) == needle.get_char(j)
            invariant
                n == hay@.len(),
                m == needle@.len(),
                i + m <= n,
                j <= m,
                forall|t: int| 0 <= t < j ==> hay@[i + t] == needle@[t],
            decreases m - j,
        {
            j = j + 1;
        }
        if j == m {
            assert(hay@.subrange(i as int, i + m) =~= needle@);
            return true;
        }
        assert(hay@.subrange(i as int, i + m)[j as int] != needle@[j as int]);
        i = i + 1;
    }
    proof {
        assert forall|k: int| 0 <= k && k + needle@.len() <= hay@.len() implies #[trigger] hay@.subrange(k, k + needle@.len()) != needle@ by {
            assert(k < i);
        }
    }
    false
}

/// A text takes at least one and at most four bytes per character.
pub proof fn lemma_encode_len_bounds(s: Seq<char>)
    ensures
        s.len() <= encode_utf8(s).len() <= 4 * s.len(),
    decreases s.len(),
{
    if s.len() > 0 {
        lemma_encode_len_bounds(s.drop_first());
    }
}

/// Whether a text takes fewer than `k` bytes (what `str::len` counts).
pub fn byte_len_below(s: &str, k: usize) -> (r: bool)
    ensures
        r == (encode_utf8(s@).len() < k),
{
    proof {
        lemma_encode_len_bounds(s@);
    }
    if s.unicode_len() >= k {
        false
    } else {
        assert(s.spec_bytes() == encode_utf8(s@));
        let bytes = s.as_bytes();
        bytes.len() < k
    }
}

} // verus!
