//! Small string utilities with exact specifications.

use vstd::prelude::*;
use vstd::string::*;
use vstd::utf8::{decode_utf8, valid_utf8};

verus! {

/// Character-wise equality of two string slices.
pub fn str_eq(a: &str, b: &str) -> (r: bool)
    ensures
        r == (a@ == b@),
{
    let n = a.unicode_len();
    let m = b.unicode_len();
    if n != m {
        return false;
    }
    let mut i: usize = 0;
    while i < n
        invariant
            n == a@.len(),
            m == b@.len(),
            n == m,
            i <= n,
            forall|j: int| 0 <= j < i ==> a@[j] == b@[j],
        decreases n - i,
    {
        if a.get_char(i) != b.get_char(i) {
            return false;
        }
        i = i + 1;
    }
    assert(a@ =~= b@);
    true
}

/// Two character sequences that differ at some position are different.
pub proof fn lemma_texts_differ_at(s: Seq<char>, t: Seq<char>, i: int)
    requires
        0 <= i < s.len(),
        i < t.len(),
        s[i] != t[i],
    ensures
        s != t,
{
}

/// Every character of `s` is a lowercase ASCII letter, an ASCII digit or `_`.
pub open spec fn is_lowercase_ascii_word(s: Seq<char>) -> bool {
    forall|i: int| 0 <= i < s.len() ==> ('a' <= #[trigger] s[i] <= 'z' || '0' <= s[i] <= '9' || s[i] == '_')
}

/// `p` is the position of the first `c` in `s`.
pub open spec fn is_first_index_of(s: Seq<char>, c: char, p: int) -> bool {
    &&& 0 <= p < s.len()
    &&& s[p] == c
    &&& forall|j: int| 0 <= j < p ==> s[j] != c
}

/// The position of the first `c` in `s`, if `s` holds one.
pub fn find_char(s: &str, c: char) -> (r: Option<usize>)
    ensures
        r matches Some(p) ==> is_first_index_of(s@, c, p as int),
        r is None ==> !s@.contains(c),
{
    let n = s.unicode_len();
    let mut i: usize = 0;
    while i < n
        invariant
            n == s@.len(),
            i <= n,
            forall|j: int| 0 <= j < i ==> s@[j] != c,
        decreases n - i,
    {
        if s.get_char(i) == c {
            return Some(i);
        }
        i = i + 1;
    }
    None
}

/// Every character of the text is ASCII.
pub open spec fn is_ascii_text(s: Seq<char>) -> bool {
    forall|i: int| 0 <= i < s.len() ==> (#[trigger] s[i] as int) < 128
}

/// The ASCII lowercase of a character: `A`-`Z` become `a`-`z`, every other character stays.
pub open spec fn spec_ascii_lower_char(c: char) -> char {
    if 'A' <= c <= 'Z' {
        ((c as int) + 32) as char
    } else {
        c
    }
}

/// The ASCII lowercase of a text, character by character.
pub open spec fn spec_ascii_lowercase(s: Seq<char>) -> Seq<char> {
    s.map_values(|c: char| spec_ascii_lower_char(c))
}

/// The lowercase form that `str::to_lowercase` computes for a text that is not all ASCII;
/// it is given by the Unicode case tables.
pub uninterp spec fn spec_unicode_lowercase(s: Seq<char>) -> Seq<char>;

/// The lowercase form of a text, as `str::to_lowercase` computes it: an all-ASCII text has
/// each `A`-`Z` turned into `a`-`z` and every other character kept.
pub open spec fn spec_lowercase(s: Seq<char>) -> Seq<char> {
    if is_ascii_text(s) {
        spec_ascii_lowercase(s)
    } else {
        spec_unicode_lowercase(s)
    }
}

/// A lowercase ASCII word is its own lowercase form.
pub proof fn lemma_lowercase_word(s: Seq<char>)
    requires
        is_lowercase_ascii_word(s),
    ensures
        spec_lowercase(s) == s,
{
    assert(is_ascii_text(s)) by {
        assert forall|i: int| 0 <= i < s.len() implies (#[trigger] s[i] as int) < 128 by {
            assert('a' <= s[i] <= 'z' || '0' <= s[i] <= '9' || s[i] == '_');
        }
    }
    assert(spec_ascii_lowercase(s) =~= s);
}

/// Calls `str::to_lowercase`. Claimed of it: on an all-ASCII text each `A`-`Z` becomes
/// `a`-`z` and every other character stays, as `char::to_lowercase` documents for ASCII
/// (it agrees with `char::to_ascii_lowercase` there); any other text gives the result named
/// [`spec_unicode_lowercase`]. Nothing is said of the Unicode case tables beyond ASCII.
#[verifier::external_body]
pub fn to_lowercase(s: &str) -> (r: String)
    ensures
        r@ == (if is_ascii_text(s@) {
            spec_ascii_lowercase(s@)
        } else {
            spec_unicode_lowercase(s@)
        }),
{
    s.to_lowercase()
}

/// The character of a decimal digit.
pub open spec fn spec_digit_char(d: int) -> char {
    (d + 48) as char
}

/// The decimal text of a natural number, most significant digit first, without leading zeros.
pub open spec fn spec_nat_text(n: nat) -> Seq<char>
    decreases n,
{
    if n < 10 {
        seq![spec_digit_char(n as int)]
    } else {
        spec_nat_text(n / 10) + seq![spec_digit_char((n % 10) as int)]
    }
}

/// The decimal text of an integer, with a leading `-` when it is negative.
pub open spec fn spec_int_text(i: int) -> Seq<char> {
    if i < 0 {
        seq!['-'] + spec_nat_text((-i) as nat)
    } else {
        spec_nat_text(i as nat)
    }
}

/// The text of one decimal digit.
fn digit_str(d: u64) -> (r: &'static str)
    requires
        d < 10,
    ensures
        r@ == seq![spec_digit_char(d as int)],
{
    proof {
        reveal_strlit("0");
        reveal_strlit("1");
        reveal_strlit("2");
        reveal_strlit("3");
        reveal_strlit("4");
        reveal_strlit("5");
        reveal_strlit("6");
        reveal_strlit("7");
        reveal_strlit("8");
        reveal_strlit("9");
    }
    match d {
        0 => "0",
        1 => "1",
        2 => "2",
        3 => "3",
        4 => "4",
        5 => "5",
        6 => "6",
        7 => "7",
        8 => "8",
        _ => "9",
    }
}

/// The decimal text of an unsigned number.
pub fn format_u64(n: u64) -> (r: String)
    ensures
        r@ == spec_nat_text(n as nat),
    decreases n,
{
    if n < 10 {
        String::from_str(digit_str(n))
    } else {
        let mut r = format_u64(n / 10);
        r.append(digit_str(n % 10));
        r
    }
}

/// The decimal text of a `u32`, as `u32::to_string` writes it.
pub fn format_u32(n: u32) -> (r: String)
    ensures
        r@ == spec_int_text(n as int),
{
    format_u64(n as u64)
}

/// The decimal text of a `usize`, as `usize::to_string` writes it.
pub fn format_usize(n: usize) -> (r: String)
    ensures
        r@ == spec_int_text(n as int),
{
    format_u64(n as u64)
}

/// The decimal text of an `i32`, as `i32::to_string` writes it.
pub fn format_i32(n: i32) -> (r: String)
    ensures
        r@ == spec_int_text(n as int),
{
    if n < 0 {
        let magnitude: u64 = (0i64 - (n as i64)) as u64;
        let mut r = String::from_str("-");
        let digits = format_u64(magnitude);
        r.append(digits.as_str());
        proof {
            reveal_strlit("-");
        }
        r
    } else {
        format_u64(n as u64)
    }
}

/// Why a text is not an integer of the wanted type; the cases of `core::num::IntErrorKind`
/// that decimal parsing can give.
#[derive(Debug, Clone, Copy, PartialEq, Eq, Structural)]
pub enum IntParseError {
    Empty,
    InvalidDigit,
    PosOverflow,
    NegOverflow,
}

impl IntParseError {
    /// The message of the error, as `ParseIntError` displays it.
    pub open spec fn spec_message(self) -> Seq<char> {
        match self {
            IntParseError::Empty => "cannot parse integer from empty string"@,
            IntParseError::InvalidDigit => "invalid digit found in string"@,
            IntParseError::PosOverflow => "number too large to fit in target type"@,
            IntParseError::NegOverflow => "number too small to fit in target type"@,
        }
    }

    /// The message of the error, as `ParseIntError` displays it.
    pub fn message(&self) -> (r: &'static str)
        ensures
            r@ == self.spec_message(),
    {
        match self {
            IntParseError::Empty => "cannot parse integer from empty string",
            IntParseError::InvalidDigit => "invalid digit found in string",
            IntParseError::PosOverflow => "number too large to fit in target type",
            IntParseError::NegOverflow => "number too small to fit in target type",
        }
    }
}

/// `c` is an ASCII decimal digit.
pub open spec fn is_digit(c: char) -> bool {
    '0' <= c <= '9'
}

/// The value of an ASCII decimal digit.
pub open spec fn spec_digit_value(c: char) -> int {
    c as int - 48
}

/// Reads the digits `ds` after the value `acc` read so far: each digit is checked before the
/// value is checked against the bounds, and the first failure is the one reported. A value
/// read with a leading `-` (`positive` false) is built downwards from zero.
pub open spec fn spec_read_digits(acc: int, ds: Seq<char>, positive: bool, min: int, max: int) -> Result<int, IntParseError>
    decreases ds.len(),
{
    if ds.len() == 0 {
        Ok(acc)
    } else if !is_digit(ds[0]) {
        Err(IntParseError::InvalidDigit)
    } else {
        let next = if positive {
            acc * 10 + spec_digit_value(ds[0])
        } else {
            acc * 10 - spec_digit_value(ds[0])
        };
        if positive && next > max {
            Err(IntParseError::PosOverflow)
        } else if !positive && next < min {
            Err(IntParseError::NegOverflow)
        } else {
            spec_read_digits(next, ds.drop_first(), positive, min, max)
        }
    }
}

/// Decimal integer parsing as `FromStr` does it for the primitive integer types: an optional
/// `+` (or `-` for a signed type) and then only ASCII digits; no whitespace, no underscores.
pub open spec fn spec_parse_int(s: Seq<char>, signed: bool, min: int, max: int) -> Result<int, IntParseError> {
    if s.len() == 0 {
        Err(IntParseError::Empty)
    } else if (s[0] == '+' || s[0] == '-') && s.len() == 1 {
        Err(IntParseError::InvalidDigit)
    } else if s[0] == '+' {
        spec_read_digits(0, s.drop_first(), true, min, max)
    } else if s[0] == '-' && signed {
        spec_read_digits(0, s.drop_first(), false, min, max)
    } else {
        spec_read_digits(0, s, true, min, max)
    }
}

/// Decimal parsing of a text into an integer between `min` and `max`.
pub fn parse_int(s: &str, signed: bool, min: i64, max: i64) -> (r: Result<i64, IntParseError>)
    requires
        -0x1_0000_0000 <= min <= 0 <= max <= 0x1_0000_0000,
    ensures
        r matches Ok(v) ==> spec_parse_int(s@, signed, min as int, max as int) == Ok::<int, IntParseError>(v as int),
        r matches Err(e) ==> spec_parse_int(s@, signed, min as int, max as int) == Err::<int, IntParseError>(e),
{
    let n = s.unicode_len();
    if n == 0 {
        return Err(IntParseError::Empty);
    }
    let first = s.get_char(0);
    if (first == '+' || first == '-') && n == 1 {
        return Err(IntParseError::InvalidDigit);
    }
    let positive = !(first == '-' && signed);
    let start: usize = if first == '+' || (first == '-' && signed) { 1 } else { 0 };
    proof {
        assert(s@.skip(start as int) =~= (if start == 1 { s@.drop_first() } else { s@ }));
        assert(s@[0] == first);
        assert(spec_parse_int(s@, signed, min as int, max as int) == spec_read_digits(
            0,
            s@.skip(start as int),
            positive,
            min as int,
            max as int,
        ));
    }
    let mut acc: i64 = 0;
    let mut i: usize = start;
    while i < n
        invariant
            n == s@.len(),
            start <= i <= n,
            min <= acc <= max,
            positive ==> acc >= 0,
            !positive ==> acc <= 0,
            -0x1_0000_0000 <= min <= 0 <= max <= 0x1_0000_0000,
            spec_read_digits(acc as int, s@.skip(i as int), positive, min as int, max as int)
                == spec_parse_int(s@, signed, min as int, max as int),
        decreases n - i,
    {
        let c = s.get_char(i);
        proof {
            assert(s@.skip(i as int)[0] == c);
            assert(s@.skip(i as int).drop_first() =~= s@.skip(i + 1));
        }
        if !('0' <= c && c <= '9') {
            return Err(IntParseError::InvalidDigit);
        }
        let d: i64 = (c as u32 - 48) as i64;
        let next: i64 = if positive { acc * 10 + d } else { acc * 10 - d };
        if positive && next > max {
            return Err(IntParseError::PosOverflow);
        }
        if !positive && next < min {
            return Err(IntParseError::NegOverflow);
        }
        acc = next;
        i = i + 1;
    }
    proof {
        assert(s@.skip(n as int).len() == 0);
    }
    Ok(acc)
}

/// Reading digits across a concatenation reads the first part, then the second from there.
pub proof fn lemma_read_digits_concat(acc: int, a: Seq<char>, b: Seq<char>, positive: bool, min: int, max: int)
    ensures
        spec_read_digits(acc, a + b, positive, min, max) == (match spec_read_digits(acc, a, positive, min, max) {
            Ok(x) => spec_read_digits(x, b, positive, min, max),
            Err(e) => Err(e),
        }),
    decreases a.len(),
{
    if a.len() > 0 {
        assert((a + b)[0] == a[0]);
        assert((a + b).drop_first() =~= a.drop_first() + b);
        let next = if positive {
            acc * 10 + spec_digit_value(a[0])
        } else {
            acc * 10 - spec_digit_value(a[0])
        };
        lemma_read_digits_concat(next, a.drop_first(), b, positive, min, max);
    } else {
        assert(a + b =~= b);
    }
}

/// The decimal text of a number within the bounds reads back as that number, upwards for a
/// positive number and downwards (as after a `-`) for a negative one.
pub proof fn lemma_read_nat_text(n: nat, positive: bool, min: int, max: int)
    requires
        positive ==> n <= max,
        !positive ==> -n >= min,
    ensures
        spec_read_digits(0, spec_nat_text(n), positive, min, max) == Ok::<int, IntParseError>(
            if positive { n as int } else { -n },
        ),
    decreases n,
{
    if n < 10 {
        let t = spec_nat_text(n);
        lemma_digit_char(n as int);
        assert(t.drop_first() =~= Seq::<char>::empty());
        assert(t[0] == spec_digit_char(n as int));
        let w: int = if positive { n as int } else { -n };
        assert(spec_read_digits(w, t.drop_first(), positive, min, max) == Ok::<int, IntParseError>(w));
    } else {
        let q = n / 10;
        let d = (n % 10) as int;
        lemma_read_nat_text(q, positive, min, max);
        lemma_digit_char(d);
        assert(n == q * 10 + d);
        lemma_read_digits_concat(0, spec_nat_text(q), seq![spec_digit_char(d)], positive, min, max);
        let c = seq![spec_digit_char(d)];
        assert(c.drop_first() =~= Seq::<char>::empty());
        assert(c[0] == spec_digit_char(d));
        let v: int = if positive { q as int } else { -q };
        let w: int = if positive { n as int } else { -n };
        assert(spec_read_digits(w, c.drop_first(), positive, min, max) == Ok::<int, IntParseError>(w));
        assert(spec_read_digits(v, c, positive, min, max) == Ok::<int, IntParseError>(w));
        assert(spec_nat_text(n) == spec_nat_text(q) + c);
    }
}

/// A digit's character is a digit character of that value.
pub proof fn lemma_digit_char(d: int)
    requires
        0 <= d < 10,
    ensures
        is_digit(spec_digit_char(d)),
        spec_digit_value(spec_digit_char(d)) == d,
{
    assert(spec_digit_char(d) as int == d + 48);
}

/// The decimal text of an integer in range parses back as that integer.
pub proof fn lemma_parse_int_text(i: int, signed: bool, min: int, max: int)
    requires
        min <= i <= max,
        min <= 0 <= max,
        i < 0 ==> signed,
    ensures
        spec_parse_int(spec_int_text(i), signed, min, max) == Ok::<int, IntParseError>(i),
{
    if i < 0 {
        let t = spec_int_text(i);
        let m = (-i) as nat;
        lemma_read_nat_text(m, false, min, max);
        assert(t.drop_first() =~= spec_nat_text(m));
        lemma_nat_text_starts_with_digit(m);
    } else {
        lemma_nat_text_starts_with_digit(i as nat);
        lemma_read_nat_text(i as nat, true, min, max);
    }
}

/// The decimal text of a number is made of digits only, so it is not empty and does not
/// start with a sign.
pub proof fn lemma_nat_text_starts_with_digit(n: nat)
    ensures
        spec_nat_text(n).len() >= 1,
        forall|j: int| 0 <= j < spec_nat_text(n).len() ==> is_digit(#[trigger] spec_nat_text(n)[j]),
    decreases n,
{
    if n >= 10 {
        lemma_nat_text_starts_with_digit(n / 10);
    }
}

/// The texts of `parts` written one after another with `sep` between neighbours.
pub open spec fn spec_join(parts: Seq<Seq<char>>, sep: Seq<char>) -> Seq<char>
    decreases parts.len(),
{
    if parts.len() == 0 {
        Seq::empty()
    } else if parts.len() == 1 {
        parts[0]
    } else {
        spec_join(parts.drop_last(), sep) + sep + parts.last()
    }
}

/// The texts of a list of strings.
pub open spec fn spec_texts(v: Seq<String>) -> Seq<Seq<char>> {
    v.map_values(|s: String| s@)
}

/// Joins strings with a separator, as `[String]::join` does.
pub fn join_strings(parts: &Vec<String>, sep: &str) -> (r: String)
    ensures
        r@ == spec_join(spec_texts(parts@), sep@),
{
    let mut r = String::new();
    let ghost texts = spec_texts(parts@);
    let mut i: usize = 0;
    while i < parts.len()
        invariant
            i <= parts.len(),
            texts == spec_texts(parts@),
            r@ == spec_join(texts.take(i as int), sep@),
        decreases parts.len() - i,
    {
        proof {
            assert(texts.take(i + 1).drop_last() =~= texts.take(i as int));
            assert(texts.take(i + 1).last() == parts@[i as int]@);
        }
        if i == 0 {
            r.append(parts[i].as_str());
            proof {
                assert(r@ =~= spec_join(texts.take(1), sep@));
            }
        } else {
            r.append(sep);
            r.append(parts[i].as_str());
        }
        i = i + 1;
    }
    proof {
        assert(texts.take(parts.len() as int) =~= texts);
    }
    r
}

/// Digits read between the bounds stay between the bounds.
pub proof fn lemma_read_digits_in_bounds(acc: int, ds: Seq<char>, positive: bool, min: int, max: int)
    requires
        min <= acc <= max,
        positive ==> acc >= 0,
        !positive ==> acc <= 0,
    ensures
        spec_read_digits(acc, ds, positive, min, max) matches Ok(v) ==> min <= v <= max,
    decreases ds.len(),
{
    if ds.len() > 0 && is_digit(ds[0]) {
        let next = if positive {
            acc * 10 + spec_digit_value(ds[0])
        } else {
            acc * 10 - spec_digit_value(ds[0])
        };
        if (positive && next <= max) || (!positive && next >= min) {
            lemma_read_digits_in_bounds(next, ds.drop_first(), positive, min, max);
        }
    }
}

/// A parsed integer lies between the bounds it was parsed within.
pub proof fn lemma_parse_int_in_bounds(s: Seq<char>, signed: bool, min: int, max: int)
    requires
        min <= 0 <= max,
    ensures
        spec_parse_int(s, signed, min, max) matches Ok(v) ==> min <= v <= max,
{
    if s.len() > 0 {
        lemma_read_digits_in_bounds(0, s.drop_first(), true, min, max);
        lemma_read_digits_in_bounds(0, s.drop_first(), false, min, max);
        lemma_read_digits_in_bounds(0, s, true, min, max);
    }
}

/// The pieces of text of a list of attributes, as (key, value) pairs.
pub open spec fn spec_pairs_text(pairs: Seq<(String, String)>) -> Seq<(Seq<char>, Seq<char>)> {
    pairs.map_values(|p: (String, String)| (p.0@, p.1@))
}

/// `c` has the Unicode `White_Space` property, as `char::is_whitespace` documents it.
pub open spec fn is_white_space(c: char) -> bool {
    ||| '\u{9}' <= c <= '\u{d}'
    ||| c == ' '
    ||| c == '\u{85}'
    ||| c == '\u{a0}'
    ||| c == '\u{1680}'
    ||| '\u{2000}' <= c <= '\u{200a}'
    ||| c == '\u{2028}'
    ||| c == '\u{2029}'
    ||| c == '\u{202f}'
    ||| c == '\u{205f}'
    ||| c == '\u{3000}'
}

/// The text without its leading white space.
pub open spec fn spec_trim_start(s: Seq<char>) -> Seq<char>
    decreases s.len(),
{
    if s.len() > 0 && is_white_space(s[0]) {
        spec_trim_start(s.drop_first())
    } else {
        s
    }
}

/// The text without its trailing white space.
pub open spec fn spec_trim_end(s: Seq<char>) -> Seq<char>
    decreases s.len(),
{
    if s.len() > 0 && is_white_space(s.last()) {
        spec_trim_end(s.drop_last())
    } else {
        s
    }
}

/// The text without leading and trailing white space, as `str::trim` gives it.
pub open spec fn spec_trim(s: Seq<char>) -> Seq<char> {
    spec_trim_end(spec_trim_start(s))
}

/// Whether a character has the Unicode `White_Space` property.
pub fn char_is_white_space(c: char) -> (r: bool)
    ensures
        r == is_white_space(c),
{
    ('\u{9}' <= c && c <= '\u{d}') || c == ' ' || c == '\u{85}' || c == '\u{a0}' || c == '\u{1680}' || ('\u{2000}'
        <= c && c <= '\u{200a}') || c == '\u{2028}' || c == '\u{2029}' || c == '\u{202f}' || c == '\u{205f}' || c
        == '\u{3000}'
}

/// The text without leading and trailing white space.
pub fn trim(s: &str) -> (r: &str)
    ensures
        r@ == spec_trim(s@),
{
    let n = s.unicode_len();
    let mut i: usize = 0;
    proof {
        assert(s@.subrange(0, n as int) =~= s@);
    }
    while i < n && char_is_white_space(s.get_char(i))
        invariant
            n == s@.len(),
            i <= n,
            spec_trim_start(s@) == spec_trim_start(s@.subrange(i as int, n as int)),
        decreases n - i,
    {
        proof {
            assert(s@.subrange(i as int, n as int).drop_first() =~= s@.subrange(i + 1, n as int));
        }
        i = i + 1;
    }
    let ghost t = s@.subrange(i as int, n as int);
    proof {
        assert(spec_trim_start(t) == t);
    }
    let mut j: usize = n;
    while j > i && char_is_white_space(s.get_char(j - 1))
        invariant
            n == s@.len(),
            i <= j <= n,
            t == s@.subrange(i as int, n as int),
            spec_trim_end(t) == spec_trim_end(s@.subrange(i as int, j as int)),
        decreases j - i,
    {
        proof {
            assert(s@.subrange(i as int, j as int).drop_last() =~= s@.subrange(i as int, j - 1));
        }
        j = j - 1;
    }
    s.substring_char(i, j)
}

/// The text holds an `&`, which starts an entity or character reference.
pub open spec fn has_reference_start(s: Seq<char>) -> bool {
    s.contains('&')
}

/// What `quick_xml::escape::unescape` makes of a text: the text with its entity and
/// character references replaced, or nothing when a reference is malformed or unknown.
pub uninterp spec fn spec_xml_unescape(s: Seq<char>) -> Option<Seq<char>>;

/// The text with its references replaced: a text without `&` is its own result, and any
/// other text gives what [`spec_xml_unescape`] names (nothing for a malformed reference).
pub open spec fn spec_unescaped(s: Seq<char>) -> Option<Seq<char>> {
    if has_reference_start(s) {
        spec_xml_unescape(s)
    } else {
        Some(s)
    }
}

/// Calls `quick_xml::escape::unescape`. Claimed of it: it succeeds exactly when the result
/// named [`spec_xml_unescape`] exists, and then gives it; and a text without `&` comes back
/// unchanged (the function only acts at an `&`). The grammar of references is not stated, nor
/// the text of the error message.
#[verifier::external_body]
pub fn xml_unescape(s: &str) -> (r: Result<String, String>)
    ensures
        match r {
            Ok(t) => spec_xml_unescape(s@) == Some(t@) && (!has_reference_start(s@) ==> t@ == s@),
            Err(_) => spec_xml_unescape(s@) is None && has_reference_start(s@),
        },
{
    match quick_xml::escape::unescape(s) {
        Ok(c) => Ok(c.into_owned()),
        Err(e) => Err(e.to_string()),
    }
}

/// Calls `String::from_utf8`, which documents that it fails exactly when the bytes are not
/// valid UTF-8 and otherwise holds the characters they encode.
#[verifier::external_body]
pub fn utf8_to_string(bytes: Vec<u8>) -> (r: Option<String>)
    ensures
        r is Some <==> valid_utf8(bytes@),
        r matches Some(s) ==> s@ == decode_utf8(bytes@),
{
    String::from_utf8(bytes).ok()
}

/// What `String::from_utf8_lossy` makes of bytes that are not valid UTF-8.
pub uninterp spec fn spec_utf8_lossy_invalid(bytes: Seq<u8>) -> Seq<char>;

/// The characters `String::from_utf8_lossy` gives for the bytes: the decoded text when they
/// are valid UTF-8.
pub open spec fn spec_utf8_lossy(bytes: Seq<u8>) -> Seq<char> {
    if valid_utf8(bytes) {
        decode_utf8(bytes)
    } else {
        spec_utf8_lossy_invalid(bytes)
    }
}

/// Calls `String::from_utf8_lossy`. Claimed of it: valid UTF-8 is decoded as it is (its
/// documentation: invalid sequences are replaced, nothing else is changed); for invalid
/// input the result is the one named [`spec_utf8_lossy_invalid`].
#[verifier::external_body]
pub fn utf8_lossy(bytes: &[u8]) -> (r: String)
    ensures
        r@ == (if valid_utf8(bytes@) {
            decode_utf8(bytes@)
        } else {
            spec_utf8_lossy_invalid(bytes@)
        }),
{
    String::from_utf8_lossy(bytes).into_owned()
}

} // verus!
