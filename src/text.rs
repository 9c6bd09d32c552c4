//! Text handling of form values: trimming, yes/no answers, numbers, editing.

use vstd::prelude::*;
use vstd::string::StrSliceExecFns;

verus! {

/// Whether a character has Unicode's White_Space property, which is what
/// `char::is_whitespace` tests.
pub open spec fn is_white_space(c: char) -> bool {
    let n = c as u32;
    (0x9 <= n && n <= 0xD) || n == 0x20 || n == 0x85 || n == 0xA0 || n == 0x1680
        || (0x2000 <= n && n <= 0x200A) || n == 0x2028 || n == 0x2029 || n == 0x202F
        || n == 0x205F || n == 0x3000
}

/// A text without its leading white space.
pub open spec fn trimmed_start(s: Seq<char>) -> Seq<char>
    decreases s.len(),
{
    if s.len() > 0 && is_white_space(s[0]) {
        trimmed_start(s.drop_first())
    } else {
        s
    }
}

/// A text without its trailing white space.
pub open spec fn trimmed_end(s: Seq<char>) -> Seq<char>
    decreases s.len(),
{
    if s.len() > 0 && is_white_space(s.last()) {
        trimmed_end(s.drop_last())
    } else {
        s
    }
}

/// A text without its leading and trailing white space.
pub open spec fn trimmed(s: Seq<char>) -> Seq<char> {
    trimmed_end(trimmed_start(s))
}

/// What `str::to_lowercase` makes of a text.
pub uninterp spec fn lowered(s: Seq<char>) -> Seq<char>;

pub open spec fn is_ascii_digit(c: char) -> bool {
    48 <= (c as u32) && (c as u32) <= 57
}

/// A text of one or more ASCII digits.
pub open spec fn all_digits(s: Seq<char>) -> bool {
    s.len() > 0 && forall|i: int| 0 <= i < s.len() ==> is_ascii_digit(#[trigger] s[i])
}

/// The number that a text of decimal digits writes.
pub open spec fn digits_value(s: Seq<char>) -> int
    decreases s.len(),
{
    if s.len() == 0 {
        0
    } else {
        digits_value(s.drop_last()) * 10 + ((s.last() as u32) - 48)
    }
}

/// The integer that a text writes as an optional sign ('+' or '-') followed by
/// one or more ASCII digits, if it is one.
pub open spec fn integer_value(s: Seq<char>) -> Option<int> {
    if s.len() > 0 && (s[0] == '-' || s[0] == '+') {
        if all_digits(s.drop_first()) {
            Some(if s[0] == '-' { -digits_value(s.drop_first()) } else { digits_value(s.drop_first()) })
        } else {
            None
        }
    } else if all_digits(s) {
        Some(digits_value(s))
    } else {
        None
    }
}

/// The `i64` that a text reads as: an integer written as above that `i64` holds.
pub open spec fn parsed_i64(s: Seq<char>) -> Option<i64> {
    match integer_value(s) {
        Some(v) => if i64::MIN <= v && v <= i64::MAX {
            Some(v as i64)
        } else {
            None
        },
        None => None,
    }
}

/// Relies on `str::trim`: leading and trailing white space (as
/// `char::is_whitespace` defines it) removed.
#[verifier::external_body]
pub(crate) fn trim(s: &str) -> (r: String)
    ensures
        r@ == trimmed(s@),
{
    s.trim().to_string()
}

/// Relies on `str::to_lowercase`: the result depends on the characters alone.
#[verifier::external_body]
fn lowercase(s: &str) -> (r: String)
    ensures
        r@ == lowered(s@),
{
    s.to_lowercase()
}

/// Relies on `str::parse::<i64>`: an optional '+' or '-' sign followed by
/// ASCII digits, whose value `i64` holds; anything else is an error.
#[verifier::external_body]
fn parse_i64(s: &str) -> (r: Option<i64>)
    ensures
        r == parsed_i64(s@),
{
    s.parse::<i64>().ok()
}

/// Relies on `String::push`: the character is appended.
#[verifier::external_body]
pub(crate) fn push_char(s: &mut String, c: char)
    ensures
        final(s)@ == old(s)@.push(c),
{
    s.push(c);
}

/// Removes the last character, if any.
pub(crate) fn pop_char(s: &mut String)
    ensures
        old(s)@.len() == 0 ==> final(s)@ == old(s)@,
        old(s)@.len() > 0 ==> final(s)@ == old(s)@.drop_last(),
{
    let n = s.as_str().unicode_len();
    if n > 0 {
        let kept = s.as_str().substring_char(0, n - 1).to_owned();
        proof {
            assert(kept@ =~= old(s)@.drop_last());
        }
        *s = kept;
    }
}

pub open spec fn digit_char(d: int) -> char {
    if d == 0 { '0' }
    else if d == 1 { '1' }
    else if d == 2 { '2' }
    else if d == 3 { '3' }
    else if d == 4 { '4' }
    else if d == 5 { '5' }
    else if d == 6 { '6' }
    else if d == 7 { '7' }
    else if d == 8 { '8' }
    else { '9' }
}

/// The decimal digits of a natural number, most significant first.
pub open spec fn digits(n: nat) -> Seq<char>
    decreases n,
{
    if n < 10 {
        seq![digit_char(n as int)]
    } else {
        digits(n / 10).push(digit_char((n % 10) as int))
    }
}

/// An integer written in decimal, with a leading '-' when negative.
pub open spec fn decimal(n: int) -> Seq<char> {
    if n < 0 {
        seq!['-'] + digits((-n) as nat)
    } else {
        digits(n as nat)
    }
}

fn digit_of(d: u64) -> (c: char)
    requires
        d < 10,
    ensures
        c == digit_char(d as int),
{
    if d == 0 { '0' }
    else if d == 1 { '1' }
    else if d == 2 { '2' }
    else if d == 3 { '3' }
    else if d == 4 { '4' }
    else if d == 5 { '5' }
    else if d == 6 { '6' }
    else if d == 7 { '7' }
    else if d == 8 { '8' }
    else { '9' }
}

/// Writes an integer in decimal, with a leading '-' when negative.
pub(crate) fn decimal_text(n: i64) -> (r: String)
    ensures
        r@ == decimal(n as int),
{
    let mag: u64 = if n < 0 {
        ((-(n + 1)) as u64) + 1
    } else {
        n as u64
    };
    let mut m: u64 = mag;
    let mut written: Vec<char> = Vec::new();
    while m >= 10
        invariant
            digits(mag as nat) == digits(m as nat) + written@,
        decreases m,
    {
        let c = digit_of(m % 10);
        proof {
            assert(digits(m as nat) == digits((m / 10) as nat).push(c));
            assert(digits((m / 10) as nat).push(c) + written@ =~= digits((m / 10) as nat) + written@.insert(0, c));
        }
        written.insert(0, c);
        m = m / 10;
    }
    let c = digit_of(m);
    proof {
        assert(digits(m as nat) == seq![c]);
        assert(seq![c] + written@ =~= written@.insert(0, c));
    }
    written.insert(0, c);
    let mut r = if n < 0 {
        "-".to_owned()
    } else {
        String::new()
    };
    let ghost sign: Seq<char> = if n < 0 { seq!['-'] } else { Seq::empty() };
    proof {
        reveal_strlit("-");
        assert(r@ =~= sign + written@.subrange(0, 0));
    }
    let mut i: usize = 0;
    while i < written.len()
        invariant
            i <= written@.len(),
            written@ == digits(mag as nat),
            sign == (if n < 0 { seq!['-'] } else { Seq::<char>::empty() }),
            r@ == sign + written@.subrange(0, i as int),
        decreases written.len() - i,
    {
        push_char(&mut r, written[i]);
        proof {
            assert(sign + written@.subrange(0, i + 1) =~= (sign + written@.subrange(0, i as int)).push(written@[i as int]));
        }
        i = i + 1;
    }
    proof {
        assert(written@.subrange(0, written@.len() as int) =~= written@);
        if n < 0 {
            assert(mag as int == -(n as int));
        } else {
            assert(sign + written@ =~= written@);
        }
    }
    r
}

/// Whether a yes/no answer says yes: once trimmed and lowered, it starts with 'y'.
pub open spec fn says_yes(s: Seq<char>) -> bool {
    let low = lowered(trimmed(s));
    low.len() > 0 && low[0] == 'y'
}

pub fn answer_is_yes(s: &str) -> (r: bool)
    ensures
        r == says_yes(s@),
{
    let t = trim(s);
    let low = lowercase(t.as_str());
    let l = low.as_str();
    l.unicode_len() > 0 && l.get_char(0) == 'y'
}

/// An optional integer field: `None` when blank once trimmed, else the
/// integer that its trimmed text reads as, if any.
pub open spec fn optional_number(s: Seq<char>) -> Option<i64> {
    if trimmed(s).len() == 0 {
        None
    } else {
        parsed_i64(trimmed(s))
    }
}

/// A number field that is not blank once trimmed and does not read as an integer.
pub open spec fn unreadable_number(s: Seq<char>) -> bool {
    trimmed(s).len() > 0 && parsed_i64(trimmed(s)) is None
}

/// A number field read: `None` when its text is unreadable, else the optional
/// number it holds.
pub open spec fn number_field(s: Seq<char>) -> Option<Option<i64>> {
    if unreadable_number(s) {
        None
    } else {
        Some(optional_number(s))
    }
}

pub fn read_optional_number(s: &str) -> (r: Option<i64>)
    ensures
        r == optional_number(s@),
{
    let t = trim(s);
    if t.as_str().unicode_len() == 0 {
        None
    } else {
        parse_i64(t.as_str())
    }
}

pub fn read_number_field(s: &str) -> (r: Option<Option<i64>>)
    ensures
        r == number_field(s@),
{
    let t = trim(s);
    if t.as_str().unicode_len() == 0 {
        Some(None)
    } else {
        match parse_i64(t.as_str()) {
            Some(v) => Some(Some(v)),
            None => None,
        }
    }
}

} // verus!
