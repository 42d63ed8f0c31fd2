//! String utilities shared across the service logic.
//!
//! Unicode trimming and lowercasing are done by std behind trusted wrappers
//! whose results are named; everything layered on top (email normalisation
//! and validation, locale selection, prefix stripping, splitting, decimal
//! parsing) is implemented and verified here.

use vstd::prelude::*;
use vstd::string::StrSliceExecFns;
use vstd::string::StringSliceAdditionalSpecFns;

verus! {

broadcast use vstd::string::group_string_axioms;

/// The result of `str::trim`: the string with leading and trailing
/// whitespace removed.
pub uninterp spec fn trim_of(s: Seq<char>) -> Seq<char>;

/// The result of `str::to_lowercase`: depends on the characters alone.
pub uninterp spec fn lower_of(s: Seq<char>) -> Seq<char>;

/// Relies on std's `str::trim`: removes leading and trailing whitespace,
/// so the result is never longer than the input.
#[verifier::external_body]
pub fn trim_str(s: &str) -> (r: &str)
    ensures
        r@ == trim_of(s@),
        r@.len() <= s@.len(),
{
    s.trim()
}

/// Relies on std's `str::to_lowercase`: the result depends on the
/// characters alone, and an empty string stays empty.
#[verifier::external_body]
pub fn to_lowercase_str(s: &str) -> (r: String)
    ensures
        r@ == lower_of(s@),
        s@.len() == 0 ==> r@.len() == 0,
{
    s.to_lowercase()
}

/// Bytes that `urlencoding` passes through unchanged: ASCII alphanumerics
/// and `-`, `.`, `_`, `~`.
pub open spec fn is_url_safe_byte(b: u8) -> bool {
    (48 <= b && b <= 57) || (65 <= b && b <= 90) || (97 <= b && b <= 122) || b == 45 || b == 46
        || b == 95 || b == 126
}

/// The uppercase hex digit for a nibble value; values 16 and above all map
/// to `'F'` so that the function is total.
pub open spec fn url_hex_digit(d: u8) -> char {
    if d == 0 {
        '0'
    } else if d == 1 {
        '1'
    } else if d == 2 {
        '2'
    } else if d == 3 {
        '3'
    } else if d == 4 {
        '4'
    } else if d == 5 {
        '5'
    } else if d == 6 {
        '6'
    } else if d == 7 {
        '7'
    } else if d == 8 {
        '8'
    } else if d == 9 {
        '9'
    } else if d == 10 {
        'A'
    } else if d == 11 {
        'B'
    } else if d == 12 {
        'C'
    } else if d == 13 {
        'D'
    } else if d == 14 {
        'E'
    } else {
        'F'
    }
}

/// Percent-encoding as the `urlencoding` crate performs it: every byte
/// except the safe set becomes `%` followed by two uppercase hex digits.
pub open spec fn urlencoded_of(data: Seq<u8>) -> Seq<char>
    decreases data.len(),
{
    if data.len() == 0 {
        Seq::empty()
    } else {
        (if is_url_safe_byte(data.first()) {
            seq![data.first() as char]
        } else {
            seq!['%', url_hex_digit(data.first() / 16), url_hex_digit(data.first() % 16)]
        }) + urlencoded_of(data.drop_first())
    }
}

/// Relies on urlencoding's `encode`: percent-encodes every byte of the
/// UTF-8 encoding except alphanumerics and `-`, `.`, `_`, `~`.
#[verifier::external_body]
pub fn url_encode(s: &str) -> (r: String)
    ensures
        r@ == urlencoded_of(s.spec_bytes()),
{
    urlencoding::encode(s).into_owned()
}

/// Lowercased, trimmed form of an email address, as the service stores it.
pub fn normalize_email(email: &str) -> (r: String)
    ensures
        r@ == lower_of(trim_of(email@)),
{
    to_lowercase_str(trim_str(email))
}

/// Whether the character sequence contains `c`.
pub fn contains_char(s: &str, c: char) -> (r: bool)
    ensures
        r == s@.contains(c),
{
    let n = s.unicode_len();
    for i in 0..n
        invariant
            n == s@.len(),
            forall|j: int| 0 <= j < i ==> s@[j] != c,
    {
        if s.get_char(i) == c {
            return true;
        }
    }
    false
}

/// The service's email plausibility test: the address must contain both an
/// `@` and a `.`.
pub fn is_valid_email(email: &str) -> (r: bool)
    ensures
        r == (email@.contains('@') && email@.contains('.')),
{
    contains_char(email, '@') && contains_char(email, '.')
}

/// Character-for-character string equality.
pub fn str_eq_chars(a: &str, b: &str) -> (r: bool)
    ensures
        r == (a@ == b@),
{
    let na = a.unicode_len();
    let nb = b.unicode_len();
    if na != nb {
        assert(a@ != b@);
        return false;
    }
    for i in 0..na
        invariant
            na == a@.len() && na == b@.len(),
            forall|j: int| 0 <= j < i ==> a@[j] == b@[j],
    {
        if a.get_char(i) != b.get_char(i) {
            return false;
        }
    }
    proof {
        assert(a@ =~= b@);
    }
    true
}

/// The locale a request resolves to: `"en"` stays `"en"`, everything else
/// (including an absent locale) becomes `"ko"`.
pub fn normalize_locale(locale: Option<&str>) -> (r: String)
    ensures
        r@ == (match locale {
            Some(l) if l@ == "en"@ => "en"@,
            _ => "ko"@,
        }),
{
    match locale {
        Some(l) if str_eq_chars(l, "en") => String::from_str("en"),
        _ => String::from_str("ko"),
    }
}

/// A sequence with every trailing `/` removed.
pub open spec fn trim_end_slash_spec(s: Seq<char>) -> Seq<char>
    decreases s.len(),
{
    if s.len() > 0 && s.last() == '/' {
        trim_end_slash_spec(s.drop_last())
    } else {
        s
    }
}

/// Remove every trailing `/`, as `trim_end_matches('/')` does.
pub fn trim_end_slashes(s: &str) -> (r: &str)
    ensures
        r@ == trim_end_slash_spec(s@),
{
    let n = s.unicode_len();
    let mut end = n;
    assert(s@.subrange(0, n as int) =~= s@);
    while end > 0 && s.get_char(end - 1) == '/'
        invariant
            end <= n,
            n == s@.len(),
            trim_end_slash_spec(s@) == trim_end_slash_spec(s@.subrange(0, end as int)),
        decreases end,
    {
        proof {
            assert(s@.subrange(0, end as int).drop_last() =~= s@.subrange(0, end - 1));
        }
        end = end - 1;
    }
    proof {
        let t = s@.subrange(0, end as int);
        if end > 0 {
            assert(t.last() == s@[end - 1]);
        }
        assert(trim_end_slash_spec(t) == t);
    }
    s.substring_char(0, end)
}

/// The pieces of a character sequence cut at every occurrence of `sep`, as
/// `str::split` yields them: an empty input gives one empty piece, and a
/// separator at either end gives an empty piece there.
pub open spec fn split_chars(s: Seq<char>, sep: char) -> Seq<Seq<char>>
    decreases s.len(),
{
    if s.len() == 0 {
        seq![Seq::empty()]
    } else {
        let rest = split_chars(s.drop_first(), sep);
        if s.first() == sep {
            seq![Seq::<char>::empty()] + rest
        } else {
            seq![seq![s.first()] + rest.first()] + rest.drop_first()
        }
    }
}

/// A split always yields at least one piece.
pub proof fn lemma_split_chars_len(s: Seq<char>, sep: char)
    ensures
        split_chars(s, sep).len() >= 1,
    decreases s.len(),
{
    if s.len() > 0 {
        lemma_split_chars_len(s.drop_first(), sep);
    }
}

/// Splitting a sequence free of the separator yields it whole.
pub proof fn lemma_split_chars_whole(s: Seq<char>, sep: char)
    requires
        forall|i: int| 0 <= i < s.len() ==> s[i] != sep,
    ensures
        split_chars(s, sep) =~= seq![s],
    decreases s.len(),
{
    if s.len() == 0 {
        assert(s =~= Seq::<char>::empty());
    } else {
        lemma_split_chars_whole(s.drop_first(), sep);
        assert(split_chars(s.drop_first(), sep).first() == s.drop_first());
        assert(split_chars(s.drop_first(), sep).drop_first() =~= Seq::<Seq<char>>::empty());
        assert(seq![s.first()] + s.drop_first() =~= s);
    }
}

/// Splitting at the first separator cuts the head piece off whole.
pub proof fn lemma_split_chars_cut(s1: Seq<char>, s2: Seq<char>, sep: char)
    requires
        forall|i: int| 0 <= i < s1.len() ==> s1[i] != sep,
    ensures
        split_chars(s1 + seq![sep] + s2, sep) =~= seq![s1] + split_chars(s2, sep),
    decreases s1.len(),
{
    let s = s1 + seq![sep] + s2;
    if s1.len() == 0 {
        assert(s.first() == sep);
        assert(s.drop_first() =~= s2);
        assert(s1 =~= Seq::<char>::empty());
        assert(split_chars(s, sep) == seq![Seq::<char>::empty()] + split_chars(s2, sep));
    } else {
        lemma_split_chars_cut(s1.drop_first(), s2, sep);
        assert(s.first() == s1.first());
        assert(s.drop_first() =~= s1.drop_first() + seq![sep] + s2);
        let rest = split_chars(s.drop_first(), sep);
        assert(rest =~= seq![s1.drop_first()] + split_chars(s2, sep));
        assert(rest.first() == s1.drop_first());
        assert(rest.drop_first() =~= split_chars(s2, sep));
        assert(seq![s.first()] + rest.first() =~= s1);
        assert(split_chars(s, sep) =~= seq![s1] + split_chars(s2, sep));
    }
}

/// Every char of a string that parses as an integer is a digit or a sign.
pub proof fn lemma_parsed_int_charset(ts: Seq<char>)
    requires
        parsed_int(ts) is Some,
    ensures
        forall|i: int|
            0 <= i < ts.len() ==> (is_digit_char(#[trigger] ts[i]) || ts[i] == '+' || ts[i]
                == '-'),
{
    if ts[0] == '+' || ts[0] == '-' {
        assert(all_digits(ts.skip(1)));
        assert forall|i: int|
            0 <= i < ts.len() implies (is_digit_char(#[trigger] ts[i]) || ts[i] == '+' || ts[i]
            == '-') by {
            if i >= 1 {
                assert(ts.skip(1)[i - 1] == ts[i]);
                assert(is_digit_char(ts.skip(1)[i - 1]));
            }
        }
    } else {
        assert(all_digits(ts));
    }
}

/// Cut a string at every occurrence of `sep`, as `str::split` does.
pub fn split_str(s: &str, sep: char) -> (r: Vec<String>)
    ensures
        r.deep_view() == split_chars(s@, sep),
{
    let n = s.unicode_len();
    let mut out: Vec<String> = Vec::new();
    let mut cur = String::new();
    proof {
        assert(s@.skip(0) == s@);
    }
    for i in 0..n
        invariant
            n == s@.len(),
            split_chars(s@, sep) =~= out.deep_view() + seq![
                cur@ + split_chars(s@.skip(i as int), sep).first(),
            ] + split_chars(s@.skip(i as int), sep).drop_first(),
    {
        let c = s.get_char(i);
        let ghost here = split_chars(s@.skip(i as int), sep);
        let ghost rest = split_chars(s@.skip(i + 1), sep);
        let ghost pre_out = out.deep_view();
        let ghost pre_cur = cur@;
        proof {
            assert(s@.skip(i as int).drop_first() =~= s@.skip(i + 1));
            assert(s@.skip(i as int).first() == s@[i as int]);
            lemma_split_chars_len(s@.skip(i + 1), sep);
        }
        if c == sep {
            proof {
                assert(here == seq![Seq::<char>::empty()] + rest);
                assert(here.first() =~= Seq::<char>::empty());
                assert(here.drop_first() =~= rest);
                assert(pre_cur + here.first() =~= pre_cur);
            }
            out.push(cur);
            cur = String::new();
            proof {
                assert(out.deep_view() =~= pre_out.push(pre_cur));
                assert(rest =~= seq![rest.first()] + rest.drop_first());
                assert(pre_out + seq![pre_cur] + rest =~= pre_out.push(pre_cur) + seq![
                    cur@ + rest.first(),
                ] + rest.drop_first());
            }
        } else {
            proof {
                assert(here == seq![seq![c] + rest.first()] + rest.drop_first());
                assert(here.first() == seq![c] + rest.first());
                assert(here.drop_first() =~= rest.drop_first());
            }
            crate::crypto::push_char(&mut cur, c);
            proof {
                assert(cur@ =~= pre_cur + seq![c]);
                assert(pre_cur + (seq![c] + rest.first()) =~= cur@ + rest.first());
            }
        }
    }
    proof {
        assert(s@.skip(n as int) =~= Seq::<char>::empty());
        assert(split_chars(s@.skip(n as int), sep) == seq![Seq::<char>::empty()]);
        assert(cur@ + split_chars(s@.skip(n as int), sep).first() =~= cur@);
    }
    out.push(cur);
    proof {
        assert(split_chars(s@, sep) =~= out.deep_view());
    }
    out
}

/// Strip a leading occurrence of `p` from `s`, as `str::strip_prefix` does.
pub fn strip_prefix_str<'a>(s: &'a str, p: &str) -> (r: Option<&'a str>)
    ensures
        match r {
            Some(rest) => p@.is_prefix_of(s@) && rest@ == s@.skip(p@.len() as int),
            None => !p@.is_prefix_of(s@),
        },
{
    let np = p.unicode_len();
    let ns = s.unicode_len();
    if np > ns {
        return None;
    }
    for i in 0..np
        invariant
            np == p@.len(),
            ns == s@.len(),
            np <= ns,
            forall|j: int| 0 <= j < i ==> s@[j] == p@[j],
    {
        if s.get_char(i) != p.get_char(i) {
            assert(!p@.is_prefix_of(s@));
            return None;
        }
    }
    proof {
        assert(s@.subrange(0, np as int) =~= p@);
    }
    Some(s.substring_char(np, ns))
}

/// Whether a char is an ASCII decimal digit.
pub open spec fn is_digit_char(c: char) -> bool {
    48 <= c as u32 && c as u32 <= 57
}

/// The numeric value of an ASCII digit char.
pub open spec fn digit_val(c: char) -> int {
    c as u32 - 48
}

/// Whether every char of the sequence is an ASCII decimal digit.
pub open spec fn all_digits(s: Seq<char>) -> bool {
    forall|i: int| 0 <= i < s.len() ==> is_digit_char(#[trigger] s[i])
}

/// The value of a digit sequence read in base ten.
pub open spec fn digits_val(s: Seq<char>) -> int
    decreases s.len(),
{
    if s.len() == 0 {
        0
    } else {
        digits_val(s.drop_last()) * 10 + digit_val(s.last())
    }
}

/// What std's integer parsing accepts: an optional `+` or `-` sign followed
/// by at least one ASCII digit, and nothing else. `None` stands for a
/// malformed string; the range check is the caller's.
pub open spec fn parsed_int(s: Seq<char>) -> Option<int> {
    if s.len() == 0 {
        None
    } else if s[0] == '+' || s[0] == '-' {
        if s.len() > 1 && all_digits(s.skip(1)) {
            if s[0] == '-' {
                Some(-digits_val(s.skip(1)))
            } else {
                Some(digits_val(s.skip(1)))
            }
        } else {
            None
        }
    } else if all_digits(s) {
        Some(digits_val(s))
    } else {
        None
    }
}

/// What std's unsigned parsing accepts: an optional `+` sign followed by at
/// least one ASCII digit.
pub open spec fn parsed_uint(s: Seq<char>) -> Option<int> {
    if s.len() == 0 {
        None
    } else if s[0] == '+' {
        if s.len() > 1 && all_digits(s.skip(1)) {
            Some(digits_val(s.skip(1)))
        } else {
            None
        }
    } else if all_digits(s) {
        Some(digits_val(s))
    } else {
        None
    }
}

/// A digit sequence never reads as a negative value.
pub proof fn lemma_digits_val_nonneg(s: Seq<char>)
    requires
        all_digits(s),
    ensures
        digits_val(s) >= 0,
    decreases s.len(),
{
    if s.len() > 0 {
        assert(all_digits(s.drop_last()));
        lemma_digits_val_nonneg(s.drop_last());
    }
}

/// Extending a digit sequence never shrinks its value.
pub proof fn lemma_digits_val_prefix(s: Seq<char>, j: int)
    requires
        all_digits(s),
        0 <= j <= s.len(),
    ensures
        digits_val(s.take(j)) <= digits_val(s),
    decreases s.len() - j,
{
    if j < s.len() {
        lemma_digits_val_prefix(s, j + 1);
        let t = s.take(j + 1);
        assert(t.drop_last() =~= s.take(j));
        assert(all_digits(t.drop_last()));
        lemma_digits_val_nonneg(t.drop_last());
        assert(digits_val(t) == digits_val(s.take(j)) * 10 + digit_val(t.last()));
    } else {
        assert(s.take(j) =~= s);
    }
}

/// Parse a string exactly as `str::parse::<i64>` does: an optional sign,
/// then digits; `None` on a malformed string or a value outside `i64`.
pub fn parse_i64(s: &str) -> (r: Option<i64>)
    ensures
        match parsed_int(s@) {
            Some(n) => if i64::MIN <= n <= i64::MAX {
                r == Some(n as i64)
            } else {
                r is None
            },
            None => r is None,
        },
{
    let n = s.unicode_len();
    if n == 0 {
        return None;
    }
    let c0 = s.get_char(0);
    let neg = c0 == '-';
    let has_sign = neg || c0 == '+';
    let start: usize = if has_sign {
        1
    } else {
        0
    };
    if start >= n {
        return None;
    }
    let ghost digits = if has_sign {
        s@.skip(1)
    } else {
        s@
    };
    proof {
        assert(s@.subrange(start as int, start as int) =~= digits.take(0));
    }
    let mut acc: i64 = 0;
    let mut i = start;
    while i < n
        invariant
            start <= i <= n,
            n == s@.len(),
            start == (if has_sign { 1int } else { 0int }),
            start < n,
            neg == (s@[0] == '-'),
            has_sign == (s@[0] == '-' || s@[0] == '+'),
            digits == (if has_sign { s@.skip(1) } else { s@ }),
            digits.len() == n - start,
            forall|j: int| 0 <= j < i - start ==> is_digit_char(#[trigger] digits[j]),
            acc <= 0,
            acc as int == -digits_val(digits.take(i - start)),
        decreases n - i,
    {
        let c = s.get_char(i);
        let cv = c as u32;
        proof {
            assert(digits[i - start] == s@[i as int]);
        }
        if cv < 48 || cv > 57 {
            proof {
                assert(!is_digit_char(digits[i - start]));
                assert(!all_digits(digits));
            }
            return None;
        }
        let d = (cv - 48) as i64;
        let ghost p = digits.take(i - start + 1);
        proof {
            assert(p.drop_last() =~= digits.take(i - start));
            assert(p.last() == digits[i - start]);
            assert(digits_val(p) == digits_val(digits.take(i - start)) * 10 + d);
        }
        if acc < -922_337_203_685_477_580i64 || (acc == -922_337_203_685_477_580i64 && d > 8) {
            proof {
                assert(digits_val(p) > i64::MAX as int + 1);
                if parsed_int(s@) is Some {
                    assert(all_digits(digits));
                    lemma_digits_val_prefix(digits, i - start + 1);
                    assert(digits_val(digits) > i64::MAX as int + 1);
                }
            }
            return None;
        }
        acc = acc * 10 - d;
        i = i + 1;
    }
    proof {
        assert(digits.take(i - start) =~= digits);
        assert(all_digits(digits));
    }
    if neg {
        Some(acc)
    } else {
        if acc == i64::MIN {
            return None;
        }
        Some(-acc)
    }
}

/// Parse a string exactly as `str::parse::<u16>` does: an optional `+`,
/// then digits; `None` on a malformed string or a value above `u16::MAX`.
pub fn parse_u16(s: &str) -> (r: Option<u16>)
    ensures
        match parsed_uint(s@) {
            Some(n) => if n <= u16::MAX {
                r == Some(n as u16)
            } else {
                r is None
            },
            None => r is None,
        },
{
    let n = s.unicode_len();
    if n == 0 {
        return None;
    }
    let c0 = s.get_char(0);
    let has_sign = c0 == '+';
    let start: usize = if has_sign {
        1
    } else {
        0
    };
    if start >= n {
        return None;
    }
    let ghost digits = if has_sign {
        s@.skip(1)
    } else {
        s@
    };
    proof {
        assert(s@.subrange(start as int, start as int) =~= digits.take(0));
    }
    let mut acc: u32 = 0;
    let mut i = start;
    while i < n
        invariant
            start <= i <= n,
            n == s@.len(),
            start == (if has_sign { 1int } else { 0int }),
            start < n,
            has_sign == (s@[0] == '+'),
            digits == (if has_sign { s@.skip(1) } else { s@ }),
            digits.len() == n - start,
            forall|j: int| 0 <= j < i - start ==> is_digit_char(#[trigger] digits[j]),
            acc <= u16::MAX,
            acc as int == digits_val(digits.take(i - start)),
        decreases n - i,
    {
        let c = s.get_char(i);
        let cv = c as u32;
        proof {
            assert(digits[i - start] == s@[i as int]);
        }
        if cv < 48 || cv > 57 {
            proof {
                assert(!is_digit_char(digits[i - start]));
                assert(!all_digits(digits));
            }
            return None;
        }
        let d = cv - 48;
        let ghost p = digits.take(i - start + 1);
        proof {
            assert(p.drop_last() =~= digits.take(i - start));
            assert(p.last() == digits[i - start]);
            assert(digits_val(p) == digits_val(digits.take(i - start)) * 10 + d);
        }
        let next = acc * 10 + d;
        if next > 65535 {
            proof {
                assert(digits_val(p) > u16::MAX);
                if parsed_uint(s@) is Some {
                    assert(all_digits(digits));
                    lemma_digits_val_prefix(digits, i - start + 1);
                    assert(digits_val(digits) > u16::MAX);
                }
            }
            return None;
        }
        acc = next;
        i = i + 1;
    }
    proof {
        assert(digits.take(i - start) =~= digits);
        assert(all_digits(digits));
    }
    Some(acc as u16)
}

/// The char for a single decimal digit; values 10 and above all map to
/// `'9'` so that the function is total.
pub open spec fn dec_digit(d: int) -> char {
    if d == 0 {
        '0'
    } else if d == 1 {
        '1'
    } else if d == 2 {
        '2'
    } else if d == 3 {
        '3'
    } else if d == 4 {
        '4'
    } else if d == 5 {
        '5'
    } else if d == 6 {
        '6'
    } else if d == 7 {
        '7'
    } else if d == 8 {
        '8'
    } else {
        '9'
    }
}

/// The decimal digits of a non-negative value, with no digits at all for
/// zero.
pub open spec fn dec_digits_of(n: int) -> Seq<char>
    decreases n,
{
    if n <= 0 {
        Seq::empty()
    } else {
        dec_digits_of(n / 10).push(dec_digit(n % 10))
    }
}

/// The decimal rendering of an integer, as `i64`'s `Display` writes it: a
/// leading `-` for negatives, and `0` for zero.
pub open spec fn int_dec(v: int) -> Seq<char> {
    if v == 0 {
        seq!['0']
    } else if v < 0 {
        seq!['-'] + dec_digits_of(-v)
    } else {
        dec_digits_of(v)
    }
}

fn dec_char(d: u64) -> (c: char)
    requires
        d < 10,
    ensures
        c == dec_digit(d as int),
{
    match d {
        0 => '0',
        1 => '1',
        2 => '2',
        3 => '3',
        4 => '4',
        5 => '5',
        6 => '6',
        7 => '7',
        8 => '8',
        _ => '9',
    }
}

proof fn lemma_dec_digits_value(n: int)
    requires
        n > 0,
    ensures
        all_digits(dec_digits_of(n)),
        digits_val(dec_digits_of(n)) == n,
        dec_digits_of(n).len() >= 1,
    decreases n,
{
    let d = n % 10;
    let q = n / 10;
    if q > 0 {
        lemma_dec_digits_value(q);
    } else {
        assert(dec_digits_of(q) =~= Seq::<char>::empty());
    }
    let s = dec_digits_of(q).push(dec_digit(d));
    assert(s.drop_last() =~= dec_digits_of(q));
    assert(is_digit_char(dec_digit(d)) && digit_val(dec_digit(d)) == d);
    assert(digits_val(s) == digits_val(dec_digits_of(q)) * 10 + d);
    assert(forall|i: int|
        0 <= i < s.len() ==> is_digit_char(#[trigger] s[i]));
}

/// Law: the decimal rendering of any integer reads back as exactly that
/// integer — `fmt_i64` and `parse_i64` are inverse on every value.
pub proof fn lemma_int_dec_round_trip(v: int)
    ensures
        parsed_int(int_dec(v)) == Some(v),
{
    if v == 0 {
        let s = seq!['0'];
        assert(is_digit_char(s[0]));
        assert(s.drop_last() =~= Seq::<char>::empty());
        assert(s.last() == '0');
        assert(digit_val('0') == 0);
        assert(digits_val(s) == digits_val(s.drop_last()) * 10 + digit_val(s.last()));
    } else if v > 0 {
        lemma_dec_digits_value(v);
        let s = dec_digits_of(v);
        assert(is_digit_char(s[0]));
        assert(s[0] != '+' && s[0] != '-');
    } else {
        lemma_dec_digits_value(-v);
        let s = seq!['-'] + dec_digits_of(-v);
        assert(s[0] == '-');
        assert(s.skip(1) =~= dec_digits_of(-v));
    }
}

/// Render an integer in decimal, exactly as std's `Display` for `i64` does.
pub fn fmt_i64(v: i64) -> (r: String)
    ensures
        r@ == int_dec(v as int),
{
    if v == 0 {
        proof {
            reveal_strlit("0");
            assert("0"@ =~= seq!['0']);
        }
        return String::from_str("0");
    }
    let neg = v < 0;
    let mut m: u64 = if neg {
        (-(v as i128)) as u64
    } else {
        v as u64
    };
    let ghost m0 = m as int;
    let mut digits: Vec<char> = Vec::new();
    while m > 0
        invariant
            dec_digits_of(m0) =~= dec_digits_of(m as int) + digits@.reverse(),
            m0 > 0,
        decreases m,
    {
        let d = m % 10;
        let ghost pre = digits@;
        digits.push(dec_char(d));
        m = m / 10;
        proof {
            assert(digits@.reverse() =~= seq![dec_digit(d as int)] + pre.reverse());
            assert(dec_digits_of(m as int) + (seq![dec_digit(d as int)] + pre.reverse())
                =~= dec_digits_of(m as int).push(dec_digit(d as int)) + pre.reverse());
        }
    }
    let mut r = String::new();
    if neg {
        crate::crypto::push_char(&mut r, '-');
    }
    let ghost sign: Seq<char> = if neg {
        seq!['-']
    } else {
        Seq::empty()
    };
    let nd = digits.len();
    for j in 0..nd
        invariant
            nd == digits@.len(),
            sign == (if neg {
                seq!['-']
            } else {
                Seq::<char>::empty()
            }),
            r@ =~= sign + digits@.reverse().take(j as int),
    {
        let c = digits[nd - 1 - j];
        crate::crypto::push_char(&mut r, c);
        proof {
            assert(digits@.reverse().take(j + 1) =~= digits@.reverse().take(j as int).push(
                digits@[nd - 1 - j],
            ));
        }
    }
    proof {
        assert(digits@.reverse().take(nd as int) =~= digits@.reverse());
        assert(dec_digits_of(0) =~= Seq::<char>::empty());
        assert(r@ =~= sign + dec_digits_of(m0));
    }
    r
}

/// Render an `i32` in decimal, as its `Display` does.
pub fn fmt_i32(v: i32) -> (r: String)
    ensures
        r@ == int_dec(v as int),
{
    fmt_i64(v as i64)
}

} // verus!
