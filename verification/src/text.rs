//! Character classes, digit strings and small string-building helpers
//! shared by the tokenizer, the parser and the code generator.

use vstd::prelude::*;
use vstd::string::*;

verus! {

// ---------------------------------------------------------------------------
// Characters classified through std
// ---------------------------------------------------------------------------

/// What `char::is_alphanumeric` returns; a function of the character alone.
pub uninterp spec fn alphanumeric(c: char) -> bool;

/// Relies on `char::is_alphanumeric`: true exactly for Unicode letters and digits.
pub assume_specification[ char::is_alphanumeric ](c: char) -> (r: bool)
    ensures
        r == alphanumeric(c),
;

/// What `char::is_whitespace` returns; a function of the character alone.
pub uninterp spec fn whitespace(c: char) -> bool;

/// Relies on `char::is_whitespace`: true exactly for Unicode whitespace.
pub assume_specification[ char::is_whitespace ](c: char) -> (r: bool)
    ensures
        r == whitespace(c),
;

/// Relies on `String::push`: appends one character at the end of the string.
pub assume_specification[ String::push ](s: &mut String, c: char)
    ensures
        final(s)@ == old(s)@.push(c),
;

// ---------------------------------------------------------------------------
// Character classes of the assembly language itself
// ---------------------------------------------------------------------------

pub open spec fn is_space_char(c: char) -> bool {
    c == ' ' || c == '\t'
}

pub open spec fn is_bin_char(c: char) -> bool {
    c == '0' || c == '1'
}

pub open spec fn is_dec_char(c: char) -> bool {
    '0' <= c && c <= '9'
}

pub open spec fn is_hex_char(c: char) -> bool {
    is_dec_char(c) || ('a' <= c && c <= 'f') || ('A' <= c && c <= 'F')
}

/// A line break, or the NUL character that stands for the end of the input.
pub open spec fn is_endline_char(c: char) -> bool {
    c == '\0' || c == '\n' || c == '\r'
}

/// A character that may appear in an identifier: letters, digits, `_` and `.`.
pub open spec fn is_literal_char(c: char) -> bool {
    alphanumeric(c) || c == '_' || c == '.'
}

pub fn exec_is_space_char(c: char) -> (r: bool)
    ensures
        r == is_space_char(c),
{
    c == ' ' || c == '\t'
}

pub fn exec_is_bin_char(c: char) -> (r: bool)
    ensures
        r == is_bin_char(c),
{
    c == '0' || c == '1'
}

pub fn exec_is_dec_char(c: char) -> (r: bool)
    ensures
        r == is_dec_char(c),
{
    '0' <= c && c <= '9'
}

pub fn exec_is_hex_char(c: char) -> (r: bool)
    ensures
        r == is_hex_char(c),
{
    exec_is_dec_char(c) || ('a' <= c && c <= 'f') || ('A' <= c && c <= 'F')
}

pub fn exec_is_endline_char(c: char) -> (r: bool)
    ensures
        r == is_endline_char(c),
{
    c == '\0' || c == '\n' || c == '\r'
}

pub fn exec_is_literal_char(c: char) -> (r: bool)
    ensures
        r == is_literal_char(c),
{
    c.is_alphanumeric() || c == '_' || c == '.'
}

// ---------------------------------------------------------------------------
// Digit strings and their 32-bit values
// ---------------------------------------------------------------------------

/// What reading a digit string gives: its value, or the way it failed.
#[derive(Debug, Clone, Copy, PartialEq, Eq, Structural)]
pub enum Digits {
    Val(u32),
    TooBig,
    Bad,
}

/// The value of one digit under `radix`, if it is a digit at all.
pub open spec fn digit_val(c: char, radix: u32) -> Option<u32> {
    if is_dec_char(c) && (c as int) - ('0' as int) < radix {
        Some((((c as int) - ('0' as int)) as u32))
    } else if radix == 16 && 'a' <= c && c <= 'f' {
        Some((((c as int) - ('a' as int) + 10) as u32))
    } else if radix == 16 && 'A' <= c && c <= 'F' {
        Some((((c as int) - ('A' as int) + 10) as u32))
    } else {
        None
    }
}

/// Reads digits left to right, accumulating into `acc`; fails on the
/// first non-digit, or as soon as the value no longer fits in 32 bits.
pub open spec fn digits_rec(s: Seq<char>, i: int, acc: u32, radix: u32) -> Digits
    decreases s.len() - i,
{
    if !(0 <= i < s.len()) {
        Digits::Val(acc)
    } else {
        match digit_val(s[i], radix) {
            Option::None => Digits::Bad,
            Option::Some(d) => {
                let next = (acc as int) * (radix as int) + (d as int);
                if next > u32::MAX {
                    Digits::TooBig
                } else {
                    digits_rec(s, i + 1, next as u32, radix)
                }
            },
        }
    }
}

/// The 32-bit value of a whole digit string.
pub open spec fn spec_parse_digits(s: Seq<char>, radix: u32) -> Digits {
    digits_rec(s, 0, 0, radix)
}

/// Reads a digit string under `radix`, exactly as [`spec_parse_digits`]
/// describes it.
pub fn parse_digits(t: &str, radix: u32) -> (r: Digits)
    requires
        radix == 2 || radix == 10 || radix == 16,
    ensures
        r == spec_parse_digits(t@, radix),
{
    let n = t.unicode_len();
    let mut acc: u32 = 0;
    let mut i: usize = 0;
    while i < n
        invariant
            i <= n,
            n == t@.len(),
            radix == 2 || radix == 10 || radix == 16,
            spec_parse_digits(t@, radix) == digits_rec(t@, i as int, acc, radix),
        decreases n - i,
    {
        let c = t.get_char(i);
        let d: u32 = if '0' <= c && c <= '9' {
            let d = (c as u32) - ('0' as u32);
            if d >= radix {
                return Digits::Bad;
            }
            d
        } else if radix == 16 && 'a' <= c && c <= 'f' {
            (c as u32) - ('a' as u32) + 10
        } else if radix == 16 && 'A' <= c && c <= 'F' {
            (c as u32) - ('A' as u32) + 10
        } else {
            return Digits::Bad;
        };
        proof {
            assert(digit_val(t@[i as int], radix) == Some(d));
            assert((acc as u64) * (radix as u64) + (d as u64) <= 0xFFFF_FFFFu64 * 16u64 + 15u64)
                by (nonlinear_arith)
                requires
                    acc <= u32::MAX,
                    radix <= 16,
                    d < 16,
            ;
        }
        let next: u64 = (acc as u64) * (radix as u64) + (d as u64);
        if next > u32::MAX as u64 {
            return Digits::TooBig;
        }
        acc = next as u32;
        i += 1;
    }
    Digits::Val(acc)
}

// ---------------------------------------------------------------------------
// Upper-casing ASCII letters
// ---------------------------------------------------------------------------

/// An ASCII lower-case letter raised to upper case; anything else unchanged.
pub open spec fn upper_char(c: char) -> char {
    if 'a' <= c && c <= 'z' {
        (((c as int) - 32) as char)
    } else {
        c
    }
}

/// A whole sequence raised to upper case, character by character.
pub open spec fn upper_seq(s: Seq<char>) -> Seq<char> {
    Seq::new(s.len(), |i: int| upper_char(s[i]))
}

/// Raises one character to upper case.
pub fn exec_upper_char(c: char) -> (r: char)
    ensures
        r == upper_char(c),
{
    match c {
        'a' => 'A',
        'b' => 'B',
        'c' => 'C',
        'd' => 'D',
        'e' => 'E',
        'f' => 'F',
        'g' => 'G',
        'h' => 'H',
        'i' => 'I',
        'j' => 'J',
        'k' => 'K',
        'l' => 'L',
        'm' => 'M',
        'n' => 'N',
        'o' => 'O',
        'p' => 'P',
        'q' => 'Q',
        'r' => 'R',
        's' => 'S',
        't' => 'T',
        'u' => 'U',
        'v' => 'V',
        'w' => 'W',
        'x' => 'X',
        'y' => 'Y',
        'z' => 'Z',
        other => other,
    }
}

/// Raises a whole string to upper case.
pub fn to_upper(t: &str) -> (r: String)
    ensures
        r@ == upper_seq(t@),
{
    let n = t.unicode_len();
    let mut out = String::new();
    let mut i: usize = 0;
    while i < n
        invariant
            i <= n,
            n == t@.len(),
            out@ =~= upper_seq(t@).subrange(0, i as int),
        decreases n - i,
    {
        out.push(exec_upper_char(t.get_char(i)));
        i += 1;
        proof {
            assert(out@ =~= upper_seq(t@).subrange(0, i as int));
        }
    }
    proof {
        assert(out@ =~= upper_seq(t@));
    }
    out
}

// ---------------------------------------------------------------------------
// Rendering numbers as decimal text
// ---------------------------------------------------------------------------

/// The character of one decimal digit.
pub open spec fn dec_digit_char(d: int) -> char {
    if d == 0 {
        '0'
    } else if d == 1 {
        '1'
    } else if d == 2 {
        '2'
    } else if d == 3 {
        '3'
    } else if d == 4 {
        '4'
    } else if d == 5 {
        '5'
    } else if d == 6 {
        '6'
    } else if d == 7 {
        '7'
    } else if d == 8 {
        '8'
    } else {
        '9'
    }
}

/// The decimal rendering of a non-negative number, most significant
/// digit first.
pub open spec fn dec_str(n: int) -> Seq<char>
    decreases n,
{
    if n < 10 {
        seq![dec_digit_char(n)]
    } else {
        dec_str(n / 10).push(dec_digit_char(n % 10))
    }
}

fn push_dec_digit(s: &mut String, d: u128)
    requires
        d < 10,
    ensures
        final(s)@ == old(s)@.push(dec_digit_char(d as int)),
{
    match d {
        0 => s.push('0'),
        1 => s.push('1'),
        2 => s.push('2'),
        3 => s.push('3'),
        4 => s.push('4'),
        5 => s.push('5'),
        6 => s.push('6'),
        7 => s.push('7'),
        8 => s.push('8'),
        9 => s.push('9'),
        _ => {
            proof {
                assert(false);
            }
        },
    }
}

/// Appends the decimal rendering of `n`.
pub fn push_dec(s: &mut String, n: u128)
    ensures
        final(s)@ == old(s)@ + dec_str(n as int),
    decreases n,
{
    if n < 10 {
        push_dec_digit(s, n);
        proof {
            assert(old(s)@.push(dec_digit_char(n as int)) =~= old(s)@ + dec_str(n as int));
        }
    } else {
        push_dec(s, n / 10);
        push_dec_digit(s, n % 10);
        proof {
            assert((old(s)@ + dec_str(n as int / 10)).push(dec_digit_char(n as int % 10)) =~= old(
                s,
            )@ + dec_str(n as int));
        }
    }
}

// ---------------------------------------------------------------------------
// Trimming surrounding whitespace
// ---------------------------------------------------------------------------

/// The sequence with its leading whitespace removed.
pub open spec fn drop_leading(s: Seq<char>) -> Seq<char>
    decreases s.len(),
{
    if s.len() > 0 && whitespace(s[0]) {
        drop_leading(s.subrange(1, s.len() as int))
    } else {
        s
    }
}

/// The sequence with its trailing whitespace removed.
pub open spec fn drop_trailing(s: Seq<char>) -> Seq<char>
    decreases s.len(),
{
    if s.len() > 0 && whitespace(s.last()) {
        drop_trailing(s.drop_last())
    } else {
        s
    }
}

/// The sequence with whitespace removed from both ends.
pub open spec fn spec_trim(s: Seq<char>) -> Seq<char> {
    drop_trailing(drop_leading(s))
}

proof fn lemma_drop_leading(s: Seq<char>, k: int)
    requires
        0 <= k <= s.len(),
        forall|j: int| 0 <= j < k ==> whitespace(s[j]),
        k == s.len() || !whitespace(s[k]),
    ensures
        drop_leading(s) == s.subrange(k, s.len() as int),
    decreases k,
{
    if k == 0 {
        if s.len() > 0 && whitespace(s[0]) {
            assert(false);
        }
        assert(s.subrange(0, s.len() as int) =~= s);
    } else {
        let t = s.subrange(1, s.len() as int);
        lemma_drop_leading(t, k - 1);
        assert(t.subrange(k - 1, t.len() as int) =~= s.subrange(k, s.len() as int));
    }
}

/// The characters of a string slice, gathered into a vector.
pub fn str_to_chars(s: &str) -> (r: Vec<char>)
    ensures
        r@ == s@,
{
    let n = s.unicode_len();
    let mut v: Vec<char> = Vec::new();
    let mut i: usize = 0;
    while i < n
        invariant
            i <= n,
            n == s@.len(),
            v@ =~= s@.subrange(0, i as int),
        decreases n - i,
    {
        v.push(s.get_char(i));
        i += 1;
    }
    proof {
        assert(v@ =~= s@);
    }
    v
}

/// Removes the whitespace at both ends of a character vector.
pub fn trim_chars(src: &Vec<char>) -> (r: Vec<char>)
    ensures
        r@ == spec_trim(src@),
{
    let n = src.len();
    let mut start: usize = 0;
    while start < n && src[start].is_whitespace()
        invariant
            start <= n,
            n == src@.len(),
            forall|j: int| 0 <= j < start ==> whitespace(src@[j]),
        decreases n - start,
    {
        start += 1;
    }
    proof {
        lemma_drop_leading(src@, start as int);
    }
    let mut out: Vec<char> = Vec::new();
    let mut i: usize = start;
    while i < n
        invariant
            start <= i <= n,
            n == src@.len(),
            out@ =~= src@.subrange(start as int, i as int),
        decreases n - i,
    {
        out.push(src[i]);
        i += 1;
    }
    proof {
        assert(out@ =~= drop_leading(src@));
    }
    while out.len() > 0 && out[out.len() - 1].is_whitespace()
        invariant
            drop_trailing(out@) == drop_trailing(drop_leading(src@)),
        decreases out.len(),
    {
        proof {
            assert(out@.drop_last() =~= out@.subrange(0, out@.len() - 1));
        }
        out.pop();
    }
    proof {
        assert(drop_trailing(out@) == out@);
    }
    out
}

/// A string of the shape `prefix mid suffix`, usually quoting a name.
pub fn quoted(prefix: &str, mid: &String, suffix: &str) -> (r: String)
    ensures
        r@ == prefix@ + mid@ + suffix@,
{
    let mut s = String::new();
    s.append(prefix);
    s.append(mid.as_str());
    s.append(suffix);
    proof {
        assert(s@ =~= prefix@ + mid@ + suffix@);
    }
    s
}

/// Whether two string slices hold the same characters.
pub fn str_eq(a: &str, b: &str) -> (r: bool)
    ensures
        r == (a@ == b@),
{
    let an = a.unicode_len();
    let bn = b.unicode_len();
    if an != bn {
        proof {
            assert(a@ != b@);
        }
        return false;
    }
    let mut i: usize = 0;
    while i < an
        invariant
            i <= an,
            an == a@.len() == b@.len(),
            forall|k: int| 0 <= k < i ==> a@[k] == b@[k],
        decreases an - i,
    {
        if a.get_char(i) != b.get_char(i) {
            return false;
        }
        i += 1;
    }
    proof {
        assert(a@ =~= b@);
    }
    true
}

} // verus!
