//! Character and string primitives shared by the other modules.

use vstd::prelude::*;

verus! {

/// The code points with the Unicode property `White_Space`.
pub open spec fn is_whitespace_char(c: char) -> bool {
    let n: u32 = c as u32;
    ||| 0x09 <= n <= 0x0D
    ||| n == 0x20
    ||| n == 0x85
    ||| n == 0xA0
    ||| n == 0x1680
    ||| 0x2000 <= n <= 0x200A
    ||| n == 0x2028
    ||| n == 0x2029
    ||| n == 0x202F
    ||| n == 0x205F
    ||| n == 0x3000
}

/// `s` without its leading whitespace.
pub open spec fn trim_start_of(s: Seq<char>) -> Seq<char>
    decreases s.len(),
{
    if s.len() > 0 && is_whitespace_char(s[0]) {
        trim_start_of(s.drop_first())
    } else {
        s
    }
}

/// `s` without its trailing whitespace.
pub open spec fn trim_end_of(s: Seq<char>) -> Seq<char>
    decreases s.len(),
{
    if s.len() > 0 && is_whitespace_char(s.last()) {
        trim_end_of(s.drop_last())
    } else {
        s
    }
}

/// `s` without leading and trailing whitespace.
pub open spec fn trimmed(s: Seq<char>) -> Seq<char> {
    trim_end_of(trim_start_of(s))
}

/// A string is blank when nothing is left of it after trimming.
pub open spec fn is_blank(s: Seq<char>) -> bool {
    trimmed(s).len() == 0
}

/// Trimming at the start drops exactly the whitespace before the first
/// character that is none.
pub proof fn lemma_trim_start(s: Seq<char>)
    ensures
        trim_start_of(s).len() <= s.len(),
        trim_start_of(s) == s.subrange(s.len() - trim_start_of(s).len(), s.len() as int),
        forall|i: int|
            0 <= i < s.len() - trim_start_of(s).len() ==> is_whitespace_char(#[trigger] s[i]),
        trim_start_of(s).len() > 0 ==> !is_whitespace_char(trim_start_of(s)[0]),
    decreases s.len(),
{
    if s.len() > 0 && is_whitespace_char(s[0]) {
        let rest = s.drop_first();
        lemma_trim_start(rest);
        let t = trim_start_of(rest);
        assert(t =~= s.subrange(s.len() - t.len(), s.len() as int));
        assert forall|i: int| 0 <= i < s.len() - t.len() implies is_whitespace_char(
            #[trigger] s[i],
        ) by {
            if i > 0 {
                assert(s[i] == rest[i - 1]);
            }
        }
    } else {
        assert(s =~= s.subrange(0, s.len() as int));
    }
}

/// Trimming at the end drops exactly the whitespace after the last character
/// that is none.
pub proof fn lemma_trim_end(s: Seq<char>)
    ensures
        trim_end_of(s).len() <= s.len(),
        trim_end_of(s) == s.take(trim_end_of(s).len() as int),
        forall|i: int| trim_end_of(s).len() <= i < s.len() ==> is_whitespace_char(#[trigger] s[i]),
        trim_end_of(s).len() > 0 ==> !is_whitespace_char(trim_end_of(s).last()),
    decreases s.len(),
{
    if s.len() > 0 && is_whitespace_char(s.last()) {
        let rest = s.drop_last();
        lemma_trim_end(rest);
        let t = trim_end_of(rest);
        assert(t =~= s.take(t.len() as int));
        assert forall|i: int| t.len() <= i < s.len() implies is_whitespace_char(
            #[trigger] s[i],
        ) by {
            if i < s.len() - 1 {
                assert(s[i] == rest[i]);
            }
        }
    } else {
        assert(s =~= s.take(s.len() as int));
    }
}

/// A string is blank exactly when it holds nothing but whitespace.
pub proof fn lemma_blank(s: Seq<char>)
    ensures
        is_blank(s) <==> forall|i: int| 0 <= i < s.len() ==> is_whitespace_char(#[trigger] s[i]),
{
    let t = trim_start_of(s);
    let k = s.len() - t.len();
    lemma_trim_start(s);
    lemma_trim_end(t);
    if forall|i: int| 0 <= i < s.len() ==> is_whitespace_char(#[trigger] s[i]) {
        if t.len() > 0 {
            assert(t[0] == s[k]);
        }
    } else {
        let j = choose|j: int| 0 <= j < s.len() && !is_whitespace_char(s[j]);
        assert(j >= k);
        assert(t[j - k] == s[j]);
        if trim_end_of(t).len() <= j - k {
            assert(is_whitespace_char(t[j - k]));
        }
    }
}

/// Value of a sequence of decimal digits, most significant first.
pub open spec fn digits_value(s: Seq<char>) -> int
    decreases s.len(),
{
    if s.len() == 0 {
        0
    } else {
        digits_value(s.drop_last()) * 10 + (s.last() as int - '0' as int)
    }
}

/// Whether `s` holds nothing but the digits `0` to `9`.
pub open spec fn all_decimal_digits(s: Seq<char>) -> bool {
    forall|i: int| 0 <= i < s.len() ==> '0' <= #[trigger] s[i] <= '9'
}

/// What parsing `s` as a `usize` gives: an optional `+`, then one or more
/// decimal digits whose value fits the type.
pub open spec fn parsed_usize(s: Seq<char>) -> Option<usize> {
    let digits = if s.len() > 0 && s[0] == '+' {
        s.drop_first()
    } else {
        s
    };
    if digits.len() > 0 && all_decimal_digits(digits) && digits_value(digits) <= usize::MAX {
        Some(digits_value(digits) as usize)
    } else {
        None
    }
}

/// What parsing `s` as an `i64` gives: an optional `+` or `-`, then one or
/// more decimal digits whose signed value fits the type.
pub open spec fn parsed_i64(s: Seq<char>) -> Option<i64> {
    let negative = s.len() > 0 && s[0] == '-';
    let digits = if s.len() > 0 && (s[0] == '+' || s[0] == '-') {
        s.drop_first()
    } else {
        s
    };
    let value = if negative {
        -digits_value(digits)
    } else {
        digits_value(digits)
    };
    if digits.len() > 0 && all_decimal_digits(digits) && i64::MIN <= value <= i64::MAX {
        Some(value as i64)
    } else {
        None
    }
}

/// What is left of `s` after `prefix`, where `s` starts with it.
pub open spec fn without_prefix(s: Seq<char>, prefix: Seq<char>) -> Option<Seq<char>> {
    if prefix.is_prefix_of(s) {
        Some(s.subrange(prefix.len() as int, s.len() as int))
    } else {
        None
    }
}

/// The characters of an optional string.
pub open spec fn opt_str_view(s: Option<&str>) -> Option<Seq<char>> {
    match s {
        Some(s) => Some(s@),
        None => None,
    }
}

/// Lowercase form of a string under the Unicode case mappings, as
/// `str::to_lowercase` computes it.
pub uninterp spec fn lowercase_of(s: Seq<char>) -> Seq<char>;

/// Whether a character is alphabetic or numeric in the sense of the Unicode
/// general categories, as `char::is_alphanumeric` decides it.
pub uninterp spec fn is_alphanumeric_char(c: char) -> bool;

/// Whether two strings hold the same characters.
pub fn str_eq(a: &str, b: &str) -> (r: bool)
    ensures
        r == (a@ == b@),
{
    a.to_owned() == b.to_owned()
}

/// Whether a character has the Unicode property `White_Space`.
pub fn is_whitespace(c: char) -> (r: bool)
    ensures
        r == is_whitespace_char(c),
{
    let n: u32 = c as u32;
    (0x09 <= n && n <= 0x0D) || n == 0x20 || n == 0x85 || n == 0xA0 || n == 0x1680 || (0x2000 <= n
        && n <= 0x200A) || n == 0x2028 || n == 0x2029 || n == 0x202F || n == 0x205F || n == 0x3000
}

/// Whether `s` is blank: empty, or whitespace only.
pub fn blank(s: &str) -> (r: bool)
    ensures
        r == is_blank(s@),
{
    let mut all = true;
    for c in it: s.chars()
        invariant
            it.seq() == s@,
            all <==> forall|j: int| 0 <= j < it.index() ==> is_whitespace_char(#[trigger] s@[j]),
    {
        if !is_whitespace(c) {
            all = false;
        }
    }
    proof {
        lemma_blank(s@);
    }
    all
}

/// `s` without its leading and trailing whitespace.
pub fn trim(s: &str) -> (r: &str)
    ensures
        r@ == trimmed(s@),
{
    let n = s.unicode_len();
    let mut first: usize = n;
    let mut end: usize = 0;
    let mut i: usize = 0;
    for c in it: s.chars()
        invariant
            it.seq() == s@,
            n == s@.len(),
            i == it.index(),
            i <= n,
            first <= n,
            end <= i,
            forall|j: int| 0 <= j < i && j < first ==> is_whitespace_char(#[trigger] s@[j]),
            first < n ==> first < i && !is_whitespace_char(s@[first as int]),
            first == n ==> end == 0,
            forall|j: int| end <= j < i ==> is_whitespace_char(#[trigger] s@[j]),
            end > 0 ==> !is_whitespace_char(s@[end - 1]) && first < end,
    {
        if !is_whitespace(c) {
            if first == n {
                first = i;
            }
            end = i + 1;
        }
        i = i + 1;
    }
    proof {
        let t = trim_start_of(s@);
        let k = s@.len() - t.len();
        lemma_trim_start(s@);
        lemma_trim_end(t);
        if t.len() > 0 {
            assert(t[0] == s@[k]);
        }
        assert(k == first);
        let u = trim_end_of(t);
        if first < n {
            if u.len() < end - first {
                assert(t[end - first - 1] == s@[end - 1]);
            }
            if u.len() > end - first {
                assert(u.last() == t[u.len() - 1]);
                assert(t[u.len() - 1] == s@[first + u.len() - 1]);
            }
            assert(u =~= s@.subrange(first as int, end as int));
        } else {
            assert(u =~= s@.subrange(0, 0));
        }
    }
    if first < end {
        s.substring_char(first, end)
    } else {
        s.substring_char(0, 0)
    }
}

/// Gives the rest of `s` after `prefix`, or `None` where `s` does not start
/// with it.
pub fn strip_prefix<'a>(s: &'a str, prefix: &str) -> (r: Option<&'a str>)
    ensures
        r is Some <==> without_prefix(s@, prefix@) is Some,
        r matches Some(rest) ==> without_prefix(s@, prefix@) == Some(rest@),
{
    let n = prefix.unicode_len();
    let m = s.unicode_len();
    if m < n {
        return None;
    }
    if str_eq(s.substring_char(0, n), prefix) {
        Some(s.substring_char(n, m))
    } else {
        None
    }
}

/// Trusted: `str::to_lowercase`. The result is named, not described: the
/// Unicode case tables are not restated here.
#[verifier::external_body]
pub(crate) fn to_lowercase(s: &str) -> (r: String)
    ensures
        r@ == lowercase_of(s@),
{
    s.to_lowercase()
}

/// Trusted: `char::is_alphanumeric`. The result is named, not described.
#[verifier::external_body]
pub(crate) fn is_alphanumeric(c: char) -> (r: bool)
    ensures
        r == is_alphanumeric_char(c),
{
    c.is_alphanumeric()
}

/// The digits of a number text: what follows the sign, where a sign is
/// allowed and present.
pub open spec fn digits_after_sign(s: Seq<char>, minus_allowed: bool) -> Seq<char> {
    if s.len() > 0 && (s[0] == '+' || (minus_allowed && s[0] == '-')) {
        s.drop_first()
    } else {
        s
    }
}

/// Appending a digit multiplies the value by ten and adds the digit.
proof fn lemma_digits_push(s: Seq<char>, c: char)
    ensures
        digits_value(s.push(c)) == digits_value(s) * 10 + (c as int - '0' as int),
{
    assert(s.push(c).drop_last() =~= s);
}

/// The value of a sequence of digits is at least that of each of its
/// prefixes.
proof fn lemma_digits_prefix(s: Seq<char>, k: int)
    requires
        all_decimal_digits(s),
        0 <= k <= s.len(),
    ensures
        0 <= digits_value(s.take(k)) <= digits_value(s),
    decreases s.len() - k,
{
    if k == s.len() {
        assert(s.take(k) =~= s);
        lemma_digits_nonnegative(s);
    } else {
        lemma_digits_prefix(s, k + 1);
        assert(s.take(k + 1) =~= s.take(k).push(s[k]));
        lemma_digits_push(s.take(k), s[k]);
        assert forall|i: int| 0 <= i < s.take(k).len() implies '0' <= #[trigger] s.take(k)[i]
            <= '9' by {
            assert(s.take(k)[i] == s[i]);
        }
        lemma_digits_nonnegative(s.take(k));
    }
}

/// The value of a sequence of digits is not negative.
proof fn lemma_digits_nonnegative(s: Seq<char>)
    requires
        all_decimal_digits(s),
    ensures
        digits_value(s) >= 0,
    decreases s.len(),
{
    if s.len() > 0 {
        assert forall|i: int| 0 <= i < s.drop_last().len() implies '0' <= #[trigger] s.drop_last()[i]
            <= '9' by {
            assert(s.drop_last()[i] == s[i]);
        }
        lemma_digits_nonnegative(s.drop_last());
    }
}

/// Reads an optional sign and decimal digits. Gives whether the text starts
/// with a minus sign and the value of the digits, provided there is at least
/// one digit, nothing but digits follows the sign, and the value is at most
/// `limit`.
fn parse_magnitude(s: &str, minus_allowed: bool, limit: u64) -> (r: Option<(bool, u64)>)
    ensures
        match r {
            Some((negative, value)) => {
                &&& digits_after_sign(s@, minus_allowed).len() > 0
                &&& all_decimal_digits(digits_after_sign(s@, minus_allowed))
                &&& digits_value(digits_after_sign(s@, minus_allowed)) == value
                &&& value <= limit
                &&& negative == (minus_allowed && s@[0] == '-')
            },
            None => {
                ||| digits_after_sign(s@, minus_allowed).len() == 0
                ||| !all_decimal_digits(digits_after_sign(s@, minus_allowed))
                ||| digits_value(digits_after_sign(s@, minus_allowed)) > limit
            },
        },
{
    let ghost digits = digits_after_sign(s@, minus_allowed);
    let ghost start: int = s@.len() - digits.len();
    let mut negative = false;
    let mut value: u64 = 0;
    let ghost mut seen: int = 0;
    let mut any = false;
    let mut first = true;
    for c in it: s.chars()
        invariant
            it.seq() == s@,
            digits == digits_after_sign(s@, minus_allowed),
            start == s@.len() - digits.len(),
            0 <= start <= 1,
            first == (it.index() == 0),
            it.index() >= start ==> seen == it.index() - start,
            it.index() < start ==> seen == 0,
            0 <= seen <= it.index(),
            any == (seen > 0),
            negative == (it.index() > 0 && minus_allowed && s@[0] == '-'),
            value <= limit,
            value == digits_value(digits.take(seen)),
            forall|i: int| 0 <= i < seen ==> '0' <= #[trigger] digits[i] <= '9',
    {
        let ghost at = it.index();
        assert(c == s@[at]);
        if first && (c == '+' || (minus_allowed && c == '-')) {
            negative = c == '-';
            assert(digits.take(0) =~= Seq::<char>::empty());
        } else {
            assert(digits[seen] == c);
            if c < '0' || c > '9' {
                return None;
            }
            let d: u64 = (c as u32 - '0' as u32) as u64;
            let next: u128 = value as u128 * 10 + d as u128;
            proof {
                assert(digits.take(seen + 1) =~= digits.take(seen).push(c));
                lemma_digits_push(digits.take(seen), c);
                if next > limit && all_decimal_digits(digits) {
                    lemma_digits_prefix(digits, seen + 1);
                }
            }
            if next > limit as u128 {
                return None;
            }
            value = next as u64;
            any = true;
            proof {
                seen = seen + 1;
            }
        }
        first = false;
    }
    assert(digits.take(seen) =~= digits);
    if !any {
        None
    } else {
        Some((negative, value))
    }
}

/// Parses a `usize` as `str::parse` does: an optional `+`, then one or more
/// decimal digits whose value fits the type.
pub fn parse_usize(s: &str) -> (r: Option<usize>)
    ensures
        r == parsed_usize(s@),
{
    match parse_magnitude(s, false, usize::MAX as u64) {
        Some((_, value)) => Some(value as usize),
        None => None,
    }
}

/// Parses an `i64` as `str::parse` does: an optional sign, then one or more
/// decimal digits whose signed value fits the type.
pub fn parse_i64(s: &str) -> (r: Option<i64>)
    ensures
        r == parsed_i64(s@),
{
    match parse_magnitude(s, true, 0x8000_0000_0000_0000u64) {
        Some((negative, value)) => {
            if negative {
                if value == 0x8000_0000_0000_0000u64 {
                    Some(i64::MIN)
                } else {
                    Some(-(value as i64))
                }
            } else if value <= i64::MAX as u64 {
                Some(value as i64)
            } else {
                None
            }
        },
        None => None,
    }
}

/// Whether `s` holds the character `c`.
pub fn contains_char(s: &str, c: char) -> (r: bool)
    ensures
        r == s@.contains(c),
{
    let mut found = false;
    for x in it: s.chars()
        invariant
            it.seq() == s@,
            found <==> exists|j: int| 0 <= j < it.index() && s@[j] == c,
    {
        if x == c {
            found = true;
        }
    }
    found
}

/// The character of a decimal digit.
pub open spec fn digit_char(d: nat) -> char {
    if d == 0 {
        '0'
    } else if d == 1 {
        '1'
    } else if d == 2 {
        '2'
    } else if d == 3 {
        '3'
    } else if d == 4 {
        '4'
    } else if d == 5 {
        '5'
    } else if d == 6 {
        '6'
    } else if d == 7 {
        '7'
    } else if d == 8 {
        '8'
    } else {
        '9'
    }
}

/// Decimal text of a number, without sign or leading zeros.
pub open spec fn decimal_text(n: nat) -> Seq<char>
    decreases n,
{
    if n < 10 {
        seq![digit_char(n)]
    } else {
        decimal_text(n / 10).push(digit_char(n % 10))
    }
}

/// The one-character string of a decimal digit.
fn digit_str(d: usize) -> (r: &'static str)
    requires
        d < 10,
    ensures
        r@ == seq![digit_char(d as nat)],
{
    proof {
        reveal_strlit("0");
        reveal_strlit("1");
        reveal_strlit("2");
        reveal_strlit("3");
        reveal_strlit("4");
        reveal_strlit("5");
        reveal_strlit("6");
        reveal_strlit("7");
        reveal_strlit("8");
        reveal_strlit("9");
    }
    let r = if d == 0 {
        "0"
    } else if d == 1 {
        "1"
    } else if d == 2 {
        "2"
    } else if d == 3 {
        "3"
    } else if d == 4 {
        "4"
    } else if d == 5 {
        "5"
    } else if d == 6 {
        "6"
    } else if d == 7 {
        "7"
    } else if d == 8 {
        "8"
    } else {
        "9"
    };
    assert(r@ =~= seq![digit_char(d as nat)]);
    r
}

/// Writes a number in decimal.
pub fn decimal_string(n: usize) -> (r: String)
    ensures
        r@ == decimal_text(n as nat),
    decreases n,
{
    let last = digit_str(n % 10);
    if n < 10 {
        String::from_str(last)
    } else {
        let r = decimal_string(n / 10).concat(last);
        assert(r@ =~= decimal_text((n / 10) as nat).push(digit_char((n % 10) as nat)));
        r
    }
}

} // verus!
