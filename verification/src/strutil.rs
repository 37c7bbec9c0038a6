//! String helpers shared by the screens and the rules: building strings,
//! UTF-8 byte lengths, decimal numbers and whitespace trimming.

use vstd::prelude::*;
use vstd::string::*;
use vstd::utf8::*;

verus! {

/// Number of bytes that the UTF-8 encoding of `chars` takes, which is what
/// `str::len` and `String::len` report.
pub open spec fn byte_len(chars: Seq<char>) -> nat {
    encode_utf8(chars).len()
}

/// Appends one character to a string.
///
/// Wraps `String::push`; its documentation says the character is appended
/// to the end of the string, which is what the contract states.
#[verifier::external_body]
pub fn push_char(s: &mut String, c: char)
    ensures
        final(s)@ == old(s)@.push(c),
{
    s.push(c);
}

/// Appends every character of `t` to `s`.
pub fn push_str(s: &mut String, t: &str)
    ensures
        final(s)@ == old(s)@ + t@,
{
    s.append(t);
}

/// A new string holding the characters of `t`.
pub fn string_of(t: &str) -> (s: String)
    ensures
        s@ == t@,
{
    let mut s = String::new();
    s.append(t);
    s
}

/// A copy of a string.
pub fn copy_string(t: &String) -> (s: String)
    ensures
        s@ == t@,
{
    t.clone()
}

/// Byte length of a string slice, as `str::len` reports it.
pub open spec fn str_len(s: Seq<char>) -> usize {
    byte_len(s) as usize
}

/// The characters of a string slice, one per element.
pub fn chars_of(s: &str) -> (v: Vec<char>)
    ensures
        v@ == s@,
{
    let n = s.unicode_len();
    let mut v: Vec<char> = Vec::new();
    let mut i: usize = 0;
    while i < n
        invariant
            n == s@.len(),
            i <= n,
            v@ == s@.subrange(0, i as int),
        decreases n - i,
    {
        let c = s.get_char(i);
        v.push(c);
        i = i + 1;
    }
    assert(v@ == s@);
    v
}

/// Whether two string slices hold the same characters.
pub fn str_eq(a: &str, b: &str) -> (r: bool)
    ensures
        r == (a@ == b@),
{
    let x = chars_of(a);
    let y = chars_of(b);
    if x.len() != y.len() {
        return false;
    }
    let mut i: usize = 0;
    while i < x.len()
        invariant
            x@ == a@,
            y@ == b@,
            x@.len() == y@.len(),
            i <= x@.len(),
            forall|j: int| 0 <= j < i ==> x@[j] == y@[j],
        decreases x@.len() - i,
    {
        if x[i] != y[i] {
            return false;
        }
        i = i + 1;
    }
    assert(x@ =~= y@);
    true
}

// ---------------------------------------------------------------------------
// Decimal numbers
// ---------------------------------------------------------------------------

/// The ASCII digit that stands for `d`, for `d` below ten.
pub open spec fn digit_char(d: nat) -> char {
    if d == 0 {
        '0'
    } else if d == 1 {
        '1'
    } else if d == 2 {
        '2'
    } else if d == 3 {
        '3'
    } else if d == 4 {
        '4'
    } else if d == 5 {
        '5'
    } else if d == 6 {
        '6'
    } else if d == 7 {
        '7'
    } else if d == 8 {
        '8'
    } else {
        '9'
    }
}

/// The decimal digits of `n`, most significant first, without leading zeros.
pub open spec fn decimal(n: nat) -> Seq<char>
    decreases n,
{
    if n < 10 {
        seq![digit_char(n)]
    } else {
        decimal(n / 10).push(digit_char(n % 10))
    }
}

/// Whether `c` is one of the ASCII digits `0` to `9`.
pub open spec fn is_digit(c: char) -> bool {
    '0' <= c && c <= '9'
}

/// The value of an ASCII digit.
pub open spec fn digit_value(c: char) -> nat {
    (c as u32 - '0' as u32) as nat
}

/// Whether every character of `s` is an ASCII digit.
pub open spec fn all_digits(s: Seq<char>) -> bool {
    forall|i: int| 0 <= i < s.len() ==> is_digit(#[trigger] s[i])
}

/// The number that a run of decimal digits spells.
pub open spec fn digits_value(s: Seq<char>) -> nat
    decreases s.len(),
{
    if s.len() == 0 {
        0
    } else {
        digits_value(s.drop_last()) * 10 + digit_value(s.last())
    }
}

/// The digits of an unsigned number's text: one leading `+` is dropped when
/// something follows it.
pub open spec fn unsigned_digits(s: Seq<char>) -> Seq<char> {
    if s.len() > 1 && s[0] == '+' {
        s.drop_first()
    } else {
        s
    }
}

/// What parsing `s` as an unsigned integer no larger than `max` gives: the
/// text is an optional `+` and then at least one ASCII digit, and the value
/// must not exceed `max`.
pub open spec fn parse_unsigned(s: Seq<char>, max: nat) -> Option<nat> {
    let d = unsigned_digits(s);
    if d.len() > 0 && all_digits(d) && digits_value(d) <= max {
        Some(digits_value(d))
    } else {
        None
    }
}

fn digit_of(d: usize) -> (c: char)
    requires
        d < 10,
    ensures
        c == digit_char(d as nat),
{
    if d == 0 {
        '0'
    } else if d == 1 {
        '1'
    } else if d == 2 {
        '2'
    } else if d == 3 {
        '3'
    } else if d == 4 {
        '4'
    } else if d == 5 {
        '5'
    } else if d == 6 {
        '6'
    } else if d == 7 {
        '7'
    } else if d == 8 {
        '8'
    } else {
        '9'
    }
}

/// Appends the decimal digits of `n` to `s`.
pub fn push_decimal(s: &mut String, n: usize)
    ensures
        final(s)@ == old(s)@ + decimal(n as nat),
    decreases n,
{
    if n >= 10 {
        push_decimal(s, n / 10);
    }
    let c = digit_of(n % 10);
    push_char(s, c);
    assert(final(s)@ == old(s)@ + decimal(n as nat)) by {
        if n >= 10 {
            assert(decimal(n as nat) == decimal((n / 10) as nat).push(digit_char((n % 10) as nat)));
        }
    }
}

/// The decimal text of `n`, as `format!("{}", n)` writes it.
pub fn decimal_string(n: usize) -> (s: String)
    ensures
        s@ == decimal(n as nat),
{
    let mut s = String::new();
    push_decimal(&mut s, n);
    assert(s@ =~= decimal(n as nat));
    s
}

proof fn lemma_digits_value_push(s: Seq<char>, c: char)
    ensures
        digits_value(s.push(c)) == digits_value(s) * 10 + digit_value(c),
{
    assert(s.push(c).drop_last() =~= s);
}

proof fn lemma_digit(d: nat)
    requires
        d < 10,
    ensures
        is_digit(digit_char(d)),
        digit_value(digit_char(d)) == d,
{
}

pub(crate) proof fn lemma_decimal_digits(n: nat)
    ensures
        decimal(n).len() > 0,
        all_digits(decimal(n)),
        digits_value(decimal(n)) == n,
        decimal(n)[0] != '+',
    decreases n,
{
    lemma_digit(n % 10);
    if n < 10 {
        assert(decimal(n).drop_last() =~= Seq::<char>::empty());
        assert(n % 10 == n);
        assert(digits_value(decimal(n)) == digits_value(Seq::<char>::empty()) * 10 + digit_value(
            digit_char(n),
        ));
    } else {
        assert((n / 10) * 10 + n % 10 == n) by (nonlinear_arith);
        lemma_decimal_digits(n / 10);
        let prev = decimal(n / 10);
        lemma_digits_value_push(prev, digit_char(n % 10));
        assert(decimal(n) == prev.push(digit_char(n % 10)));
        assert forall|i: int| 0 <= i < decimal(n).len() implies is_digit(#[trigger] decimal(n)[i]) by {
            if i < prev.len() {
                assert(decimal(n)[i] == prev[i]);
            }
        }
    }
}

/// Reading back the decimal text of a number gives the number:
/// `parse_unsigned_text` undoes `decimal_string` for any number within the
/// bound.
pub proof fn law_decimal_round_trip(n: nat, max: nat)
    requires
        n <= max,
    ensures
        parse_unsigned(decimal(n), max) == Some(n),
{
    lemma_decimal_digits(n);
}

/// Parses an unsigned integer no larger than `max`, as `str::parse` does for
/// Rust's unsigned integer types whose largest value is `max`.
pub fn parse_unsigned_text(s: &str, max: u64) -> (r: Option<u64>)
    ensures
        match parse_unsigned(s@, max as nat) {
            Some(v) => r == Some(v as u64),
            None => r is None,
        },
{
    let chars = chars_of(s);
    let n = chars.len();
    let start: usize = if n > 1 && chars[0] == '+' { 1 } else { 0 };
    let ghost d = unsigned_digits(s@);
    assert(d =~= s@.subrange(start as int, n as int));
    if start >= n {
        return None;
    }
    let mut value: u128 = 0;
    let mut i: usize = start;
    while i < n
        invariant
            chars@ == s@,
            n == chars@.len(),
            start <= i <= n,
            d == chars@.subrange(start as int, n as int),
            d == unsigned_digits(s@),
            all_digits(chars@.subrange(start as int, i as int)),
            ({
                let dv = digits_value(chars@.subrange(start as int, i as int));
                (value == dv && dv <= max) || (value == max + 1 && dv > max)
            }),
        decreases n - i,
    {
        let c = chars[i];
        if !('0' <= c && c <= '9') {
            assert(!is_digit(d[i - start]));
            return None;
        }
        let ghost prev = chars@.subrange(start as int, i as int);
        assert(chars@.subrange(start as int, i + 1) =~= prev.push(c));
        proof {
            lemma_digits_value_push(prev, c);
        }
        let dv: u128 = ((c as u32) - ('0' as u32)) as u128;
        if value > max as u128 {
            value = (max as u128) + 1;
        } else {
            let next = value * 10 + dv;
            if next > max as u128 {
                value = (max as u128) + 1;
            } else {
                value = next;
            }
        }
        i = i + 1;
    }
    assert(chars@.subrange(start as int, n as int) == d);
    if value > max as u128 {
        None
    } else {
        Some(value as u64)
    }
}

// ---------------------------------------------------------------------------
// Whitespace
// ---------------------------------------------------------------------------

/// Whether `c` has Unicode's White_Space property, which is what
/// `char::is_whitespace` tests.
pub open spec fn is_whitespace(c: char) -> bool {
    ||| '\u{9}' <= c && c <= '\u{d}'
    ||| c == ' '
    ||| c == '\u{85}'
    ||| c == '\u{a0}'
    ||| c == '\u{1680}'
    ||| '\u{2000}' <= c && c <= '\u{200a}'
    ||| c == '\u{2028}'
    ||| c == '\u{2029}'
    ||| c == '\u{202f}'
    ||| c == '\u{205f}'
    ||| c == '\u{3000}'
}

/// `s` without its leading whitespace.
pub open spec fn trim_start(s: Seq<char>) -> Seq<char>
    decreases s.len(),
{
    if s.len() > 0 && is_whitespace(s[0]) {
        trim_start(s.drop_first())
    } else {
        s
    }
}

/// `s` without its trailing whitespace.
pub open spec fn trim_end(s: Seq<char>) -> Seq<char>
    decreases s.len(),
{
    if s.len() > 0 && is_whitespace(s.last()) {
        trim_end(s.drop_last())
    } else {
        s
    }
}

/// `s` without leading and trailing whitespace, as `str::trim` gives it.
pub open spec fn trim(s: Seq<char>) -> Seq<char> {
    trim_end(trim_start(s))
}

fn char_is_whitespace(c: char) -> (b: bool)
    ensures
        b == is_whitespace(c),
{
    ('\u{9}' <= c && c <= '\u{d}') || c == ' ' || c == '\u{85}' || c == '\u{a0}' || c == '\u{1680}'
        || ('\u{2000}' <= c && c <= '\u{200a}') || c == '\u{2028}' || c == '\u{2029}' || c
        == '\u{202f}' || c == '\u{205f}' || c == '\u{3000}'
}

/// The text of `s` without leading and trailing whitespace.
pub fn trim_text(s: &str) -> (r: String)
    ensures
        r@ == trim(s@),
{
    let chars = chars_of(s);
    let n = chars.len();
    let mut lo: usize = 0;
    assert(chars@.subrange(0, n as int) =~= s@);
    while lo < n && char_is_whitespace(chars[lo])
        invariant
            chars@ == s@,
            n == chars@.len(),
            lo <= n,
            trim_start(s@) == trim_start(chars@.subrange(lo as int, n as int)),
        decreases n - lo,
    {
        let ghost rest = chars@.subrange(lo as int, n as int);
        assert(rest.drop_first() =~= chars@.subrange(lo + 1, n as int));
        lo = lo + 1;
    }
    let ghost started = chars@.subrange(lo as int, n as int);
    assert(trim_start(s@) == started) by {
        assert(started.len() == 0 || !is_whitespace(started[0]));
    }
    let mut hi: usize = n;
    while hi > lo && char_is_whitespace(chars[hi - 1])
        invariant
            chars@ == s@,
            n == chars@.len(),
            lo <= hi <= n,
            trim(s@) == trim_end(chars@.subrange(lo as int, hi as int)),
        decreases hi - lo,
    {
        let ghost rest = chars@.subrange(lo as int, hi as int);
        assert(rest.drop_last() =~= chars@.subrange(lo as int, hi - 1));
        hi = hi - 1;
    }
    let ghost kept = chars@.subrange(lo as int, hi as int);
    assert(trim(s@) == kept) by {
        assert(kept.len() == 0 || !is_whitespace(kept.last()));
    }
    let mut r = String::new();
    let mut i: usize = lo;
    while i < hi
        invariant
            chars@ == s@,
            n == chars@.len(),
            lo <= i <= hi <= n,
            r@ == chars@.subrange(lo as int, i as int),
        decreases hi - i,
    {
        push_char(&mut r, chars[i]);
        assert(chars@.subrange(lo as int, i + 1) =~= chars@.subrange(lo as int, i as int).push(
            chars@[i as int],
        ));
        i = i + 1;
    }
    r
}

/// The decimal text of a number has no leading zero: it starts with `0`
/// only for zero itself, which is the single character `0`.
pub proof fn law_decimal_has_no_leading_zero(n: nat)
    ensures
        decimal(n).len() >= 1,
        n == 0 <==> decimal(n)[0] == '0',
        n == 0 ==> decimal(n) == seq!['0'],
    decreases n,
{
    if n >= 10 {
        law_decimal_has_no_leading_zero(n / 10);
        assert(decimal(n)[0] == decimal(n / 10)[0]);
    }
}

/// What `trim` keeps of a text runs from after its leading whitespace to
/// before its trailing whitespace: it is a piece of the text, it neither
/// starts nor ends with whitespace, and trimming it again changes nothing.
pub proof fn law_trim_strips_both_ends(s: Seq<char>)
    ensures
        exists|a: int, b: int|
            0 <= a <= b <= s.len() && #[trigger] s.subrange(a, b) == trim(s) && (forall|k: int|
                0 <= k < a ==> is_whitespace(#[trigger] s[k])) && (forall|k: int|
                b <= k < s.len() ==> is_whitespace(#[trigger] s[k])),
        trim(s).len() > 0 ==> !is_whitespace(trim(s)[0]) && !is_whitespace(trim(s).last()),
        trim(trim(s)) == trim(s),
{
    let a = lemma_trim_start_piece(s);
    let t = trim_start(s);
    let c = lemma_trim_end_piece(t);
    let r = trim_end(t);
    assert(s.subrange(a, a + c) =~= r);
    assert forall|k: int| a + c <= k < s.len() implies is_whitespace(#[trigger] s[k]) by {
        assert(s[k] == t[k - a]);
    }
    if r.len() > 0 {
        assert(r[0] == t[0]);
    }
    lemma_trim_start_stops(r);
    lemma_trim_end_stops(r);
}

proof fn lemma_trim_start_piece(s: Seq<char>) -> (a: int)
    ensures
        0 <= a <= s.len(),
        trim_start(s) == s.subrange(a, s.len() as int),
        forall|k: int| 0 <= k < a ==> is_whitespace(#[trigger] s[k]),
        trim_start(s).len() > 0 ==> !is_whitespace(trim_start(s)[0]),
    decreases s.len(),
{
    if s.len() > 0 && is_whitespace(s[0]) {
        let rest = s.drop_first();
        let a = lemma_trim_start_piece(rest);
        assert(s.subrange(a + 1, s.len() as int) =~= rest.subrange(a, rest.len() as int));
        assert forall|k: int| 0 <= k < a + 1 implies is_whitespace(#[trigger] s[k]) by {
            if k > 0 {
                assert(s[k] == rest[k - 1]);
            }
        }
        a + 1
    } else {
        assert(s.subrange(0, s.len() as int) =~= s);
        0
    }
}

proof fn lemma_trim_end_piece(s: Seq<char>) -> (b: int)
    ensures
        0 <= b <= s.len(),
        trim_end(s) == s.subrange(0, b),
        forall|k: int| b <= k < s.len() ==> is_whitespace(#[trigger] s[k]),
        trim_end(s).len() > 0 ==> !is_whitespace(trim_end(s).last()),
    decreases s.len(),
{
    if s.len() > 0 && is_whitespace(s.last()) {
        let rest = s.drop_last();
        let b = lemma_trim_end_piece(rest);
        assert(s.subrange(0, b) =~= rest.subrange(0, b));
        assert forall|k: int| b <= k < s.len() implies is_whitespace(#[trigger] s[k]) by {
            if k < s.len() - 1 {
                assert(s[k] == rest[k]);
            }
        }
        b
    } else {
        assert(s.subrange(0, s.len() as int) =~= s);
        s.len() as int
    }
}

pub(crate) proof fn lemma_trim_start_stops(s: Seq<char>)
    requires
        s.len() > 0 ==> !is_whitespace(s[0]),
    ensures
        trim_start(s) == s,
{
}

pub(crate) proof fn lemma_trim_end_stops(s: Seq<char>)
    requires
        s.len() > 0 ==> !is_whitespace(s.last()),
    ensures
        trim_end(s) == s,
{
}

} // verus!
