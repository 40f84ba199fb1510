//! Text primitives used throughout the crate: decimal rendering of integers and
//! the few `String` operations that the rest of the library builds on.

use vstd::prelude::*;

verus! {

/// The character of decimal digit `d`.
pub open spec fn digit_char(d: int) -> char {
    if d == 0 {
        '0'
    } else if d == 1 {
        '1'
    } else if d == 2 {
        '2'
    } else if d == 3 {
        '3'
    } else if d == 4 {
        '4'
    } else if d == 5 {
        '5'
    } else if d == 6 {
        '6'
    } else if d == 7 {
        '7'
    } else if d == 8 {
        '8'
    } else {
        '9'
    }
}

/// The decimal rendering of `n`, most significant digit first, no leading zeros.
pub open spec fn decimal(n: nat) -> Seq<char>
    decreases n,
{
    if n < 10 {
        seq![digit_char(n as int)]
    } else {
        decimal(n / 10).push(digit_char((n % 10) as int))
    }
}

/// The decimal rendering of a signed integer, with a leading `-` for negatives.
pub open spec fn signed_decimal(n: int) -> Seq<char> {
    if n < 0 {
        seq!['-'] + decimal((-n) as nat)
    } else {
        decimal(n as nat)
    }
}

/// `String::push`: appends one character.
#[verifier::external_body]
pub(crate) fn string_push(s: &mut String, c: char)
    ensures
        final(s)@ == old(s)@.push(c),
{
    s.push(c)
}

/// `String::from_utf8`: the text whose UTF-8 encoding is `bytes`, when `bytes` is
/// valid UTF-8. Claimed: `Some` exactly for valid UTF-8 (as `vstd::utf8::valid_utf8`
/// states it), holding the decoded characters.
#[verifier::external_body]
pub(crate) fn string_from_utf8(bytes: Vec<u8>) -> (res: Option<String>)
    ensures
        match res {
            Some(s) => vstd::utf8::valid_utf8(bytes@) && s@ == vstd::utf8::decode_utf8(bytes@),
            None => !vstd::utf8::valid_utf8(bytes@),
        },
{
    String::from_utf8(bytes).ok()
}

/// `str::chars` collected into a vector: the characters of `s` in order.
#[verifier::external_body]
pub(crate) fn str_chars(s: &str) -> (res: Vec<char>)
    ensures
        res@ == s@,
{
    s.chars().collect()
}

fn digit_to_char(d: u8) -> (c: char)
    requires
        d < 10,
    ensures
        c == digit_char(d as int),
{
    match d {
        0 => '0',
        1 => '1',
        2 => '2',
        3 => '3',
        4 => '4',
        5 => '5',
        6 => '6',
        7 => '7',
        8 => '8',
        _ => '9',
    }
}

/// Appends the decimal rendering of `n` to `s`.
pub fn push_decimal(s: &mut String, n: u128)
    ensures
        final(s)@ == old(s)@ + decimal(n as nat),
    decreases n,
{
    if n >= 10 {
        push_decimal(s, n / 10);
    }
    let d = (n % 10) as u8;
    string_push(s, digit_to_char(d));
    proof {
        if n >= 10 {
            assert(decimal(n as nat) == decimal((n / 10) as nat).push(digit_char((n % 10) as int)));
        }
    }
}

/// Appends the signed decimal rendering of `n` to `s`.
pub fn push_signed_decimal(s: &mut String, n: i128)
    ensures
        final(s)@ == old(s)@ + signed_decimal(n as int),
{
    if n < 0 {
        string_push(s, '-');
        let m = (-(n + 1)) as u128 + 1;
        push_decimal(s, m);
    } else {
        push_decimal(s, n as u128);
    }
}

/// The decimal rendering of `n`.
pub fn decimal_string(n: u128) -> (res: String)
    ensures
        res@ == decimal(n as nat),
{
    let mut s = String::new();
    push_decimal(&mut s, n);
    s
}

/// Appends `t` to `s`.
pub fn push_str(s: &mut String, t: &str)
    ensures
        final(s)@ == old(s)@ + t@,
{
    s.append(t);
}

} // verus!

verus! {

/// Unicode `White_Space`, the property that `char::is_whitespace` tests.
pub open spec fn is_white_space(c: char) -> bool {
    let u = c as u32;
    ||| 9 <= u <= 13
    ||| u == 32
    ||| u == 0x85
    ||| u == 0xA0
    ||| u == 0x1680
    ||| 0x2000 <= u <= 0x200A
    ||| u == 0x2028
    ||| u == 0x2029
    ||| u == 0x202F
    ||| u == 0x205F
    ||| u == 0x3000
}

/// `s` without its leading white space.
pub open spec fn trim_start_text(s: Seq<char>) -> Seq<char>
    decreases s.len(),
{
    if s.len() > 0 && is_white_space(s[0]) {
        trim_start_text(s.drop_first())
    } else {
        s
    }
}

/// `s` without its trailing white space.
pub open spec fn trim_end_text(s: Seq<char>) -> Seq<char>
    decreases s.len(),
{
    if s.len() > 0 && is_white_space(s.last()) {
        trim_end_text(s.drop_last())
    } else {
        s
    }
}

/// `s` without leading and trailing white space (`str::trim`).
pub open spec fn trim_text(s: Seq<char>) -> Seq<char> {
    trim_end_text(trim_start_text(s))
}

/// ASCII upper-case letters mapped to lower case, everything else kept.
pub open spec fn ascii_lower_char(c: char) -> char {
    if 65 <= (c as u32) <= 90 {
        ((c as u32) + 32) as char
    } else {
        c
    }
}

/// `s` with ASCII letters lower-cased (`str::to_ascii_lowercase`).
pub open spec fn ascii_lower(s: Seq<char>) -> Seq<char> {
    s.map_values(|c: char| ascii_lower_char(c))
}

/// Whether `c` is white space.
pub fn char_is_white_space(c: char) -> (res: bool)
    ensures
        res == is_white_space(c),
{
    let u = c as u32;
    (9 <= u && u <= 13) || u == 32 || u == 0x85 || u == 0xA0 || u == 0x1680 || (0x2000 <= u && u
        <= 0x200A) || u == 0x2028 || u == 0x2029 || u == 0x202F || u == 0x205F || u == 0x3000
}

/// The lower-case form of an ASCII letter; other characters unchanged.
pub fn char_ascii_lower(c: char) -> (res: char)
    ensures
        res == ascii_lower_char(c),
{
    let u = c as u32;
    if 65 <= u && u <= 90 {
        ((u + 32) as u8) as char
    } else {
        c
    }
}

/// A new string holding `chars[start..end]`.
pub fn string_of_range(chars: &Vec<char>, start: usize, end: usize) -> (res: String)
    requires
        start <= end <= chars@.len(),
    ensures
        res@ == chars@.subrange(start as int, end as int),
{
    let mut out = String::new();
    let mut i = start;
    while i < end
        invariant
            start <= i <= end,
            end <= chars@.len(),
            out@ == chars@.subrange(start as int, i as int),
        decreases end - i,
    {
        string_push(&mut out, chars[i]);
        i += 1;
        proof {
            assert(chars@.subrange(start as int, i as int) =~= chars@.subrange(start as int, i - 1).push(
                chars@[i - 1],
            ));
        }
    }
    out
}

/// `s` without leading and trailing white space.
pub fn trim(s: &str) -> (res: String)
    ensures
        res@ == trim_text(s@),
{
    let chars = str_chars(s);
    let n = chars.len();
    let mut a: usize = 0;
    proof {
        assert(chars@.skip(0) =~= chars@);
    }
    while a < n && char_is_white_space(chars[a])
        invariant
            a <= n,
            n == chars@.len(),
            chars@ == s@,
            trim_start_text(s@) == trim_start_text(chars@.skip(a as int)),
        decreases n - a,
    {
        proof {
            assert(chars@.skip(a as int).drop_first() =~= chars@.skip(a + 1));
        }
        a += 1;
    }
    proof {
        assert(trim_start_text(s@) == chars@.skip(a as int));
    }
    let mut b: usize = n;
    let ghost rest = chars@.skip(a as int);
    proof {
        assert(chars@.subrange(a as int, n as int) =~= rest);
    }
    while b > a && char_is_white_space(chars[b - 1])
        invariant
            a <= b <= n,
            n == chars@.len(),
            rest == chars@.skip(a as int),
            trim_end_text(rest) == trim_end_text(chars@.subrange(a as int, b as int)),
        decreases b,
    {
        proof {
            assert(chars@.subrange(a as int, b as int).drop_last() =~= chars@.subrange(a as int, b - 1));
        }
        b -= 1;
    }
    string_of_range(&chars, a, b)
}

/// `s` with ASCII letters lower-cased.
pub fn to_ascii_lower(s: &str) -> (res: String)
    ensures
        res@ == ascii_lower(s@),
{
    let chars = str_chars(s);
    let mut out = String::new();
    let mut i: usize = 0;
    while i < chars.len()
        invariant
            i <= chars@.len(),
            chars@ == s@,
            out@ == ascii_lower(s@).take(i as int),
        decreases chars@.len() - i,
    {
        string_push(&mut out, char_ascii_lower(chars[i]));
        i += 1;
        proof {
            assert(ascii_lower(s@).take(i as int) =~= ascii_lower(s@).take(i - 1).push(
                ascii_lower_char(s@[i - 1]),
            ));
        }
    }
    proof {
        assert(ascii_lower(s@).take(i as int) =~= ascii_lower(s@));
    }
    out
}

/// Whether `s` equals `t` ignoring ASCII case.
pub fn eq_ignore_ascii_case(s: &str, t: &str) -> (res: bool)
    ensures
        res == (ascii_lower(s@) == ascii_lower(t@)),
{
    let a = to_ascii_lower(s);
    let b = to_ascii_lower(t);
    a == b
}

} // verus!

verus! {

/// The full Unicode lower-case mapping of `s` (`str::to_lowercase`).
pub uninterp spec fn unicode_lowercase(s: Seq<char>) -> Seq<char>;

/// `str::to_lowercase`: claimed to return `unicode_lowercase(s)`, a function of
/// the text alone (the Unicode case tables of the standard library).
#[verifier::external_body]
pub(crate) fn to_lowercase(s: &str) -> (res: String)
    ensures
        res@ == unicode_lowercase(s@),
{
    s.to_lowercase()
}

/// The full Unicode upper-case mapping of `s` (`str::to_uppercase`).
pub uninterp spec fn unicode_uppercase(s: Seq<char>) -> Seq<char>;

/// `str::to_uppercase`: claimed to return `unicode_uppercase(s)`, a function of
/// the text alone (the Unicode case tables of the standard library).
#[verifier::external_body]
pub(crate) fn to_uppercase(s: &str) -> (res: String)
    ensures
        res@ == unicode_uppercase(s@),
{
    s.to_uppercase()
}

} // verus!
