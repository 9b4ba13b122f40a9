//! Characters, case and decimal numbers.
//!
//! The grammars of a definition container are stated over sequences of
//! characters. Letters and digits are those of ASCII, and case is folded for
//! the letters of ASCII only.

use vstd::prelude::*;
use vstd::string::StrSliceExecFns;
use vstd::string::StringExecFns;

verus! {

/// A decimal digit.
pub open spec fn is_digit(c: char) -> bool {
    '0' <= c <= '9'
}

/// A letter of ASCII or a decimal digit.
pub open spec fn is_key_char(c: char) -> bool {
    ('a' <= c <= 'z') || ('A' <= c <= 'Z') || ('0' <= c <= '9')
}

/// A capital letter of ASCII made small; any other character as it is.
pub open spec fn lower_char(c: char) -> char {
    if 'A' <= c <= 'Z' {
        ((c as u32) + 32) as char
    } else {
        c
    }
}

/// A text with its capital letters made small.
pub open spec fn lowered(s: Seq<char>) -> Seq<char> {
    Seq::new(s.len(), |i: int| lower_char(s[i]))
}

/// The number that a digit stands for.
pub open spec fn digit_value(c: char) -> nat {
    (c as u32 - '0' as u32) as nat
}

/// The number that a sequence of decimal digits stands for; zero for none.
pub open spec fn digits_value(s: Seq<char>) -> nat
    decreases s.len(),
{
    if s.len() == 0 {
        0
    } else {
        10 * digits_value(s.drop_last()) + digit_value(s.last())
    }
}

/// Whether every character is a decimal digit.
pub open spec fn all_digits(s: Seq<char>) -> bool {
    forall|i: int| 0 <= i < s.len() ==> is_digit(#[trigger] s[i])
}

/// The number that a text stands for, where it is one or more decimal
/// digits and the number is at most `max`.
pub open spec fn number_of(s: Seq<char>, max: nat) -> Option<nat> {
    if s.len() > 0 && all_digits(s) && digits_value(s) <= max {
        Some(digits_value(s))
    } else {
        None
    }
}

/// More digits do not make a number smaller.
pub proof fn lemma_digits_grow(s: Seq<char>, n: int)
    requires
        0 <= n <= s.len(),
    ensures
        digits_value(s.take(n)) <= digits_value(s),
    decreases s.len() - n,
{
    if n < s.len() {
        lemma_digits_grow(s, n + 1);
        assert(s.take(n + 1).drop_last() =~= s.take(n));
    } else {
        assert(s.take(n) =~= s);
    }
}

/// Whether a character is a decimal digit.
pub fn is_digit_char(c: char) -> (r: bool)
    ensures
        r == is_digit(c),
{
    c >= '0' && c <= '9'
}

/// Whether a character may stand in a key.
pub fn is_alnum(c: char) -> (r: bool)
    ensures
        r == is_key_char(c),
{
    (c >= 'a' && c <= 'z') || (c >= 'A' && c <= 'Z') || (c >= '0' && c <= '9')
}

/// The characters of a text.
pub fn chars_of(s: &str) -> (chars: Vec<char>)
    ensures
        chars@ == s@,
{
    let n: usize = s.unicode_len();
    let mut chars: Vec<char> = Vec::new();
    let mut i: usize = 0;
    while i < n
        invariant
            i <= n,
            n == s@.len(),
            chars@ == s@.take(i as int),
        decreases n - i,
    {
        chars.push(s.get_char(i));
        i = i + 1;
        assert(chars@ =~= s@.take(i as int));
    }
    assert(s@.take(n as int) =~= s@);
    chars
}

/// The part of a text from character `from` up to character `to`.
pub fn slice_string(s: &str, from: usize, to: usize) -> (part: String)
    requires
        from <= to <= s@.len(),
    ensures
        part@ == s@.subrange(from as int, to as int),
{
    String::from_str(s.substring_char(from, to))
}

/// Whether a text, with its capital letters made small, is `name`.
pub fn eq_ignore_case(text: &Vec<char>, name: &str) -> (r: bool)
    ensures
        r == (lowered(text@) == name@),
{
    let n: usize = name.unicode_len();
    if text.len() != n {
        return false;
    }
    let mut i: usize = 0;
    while i < n
        invariant
            i <= n,
            n == name@.len(),
            n == text@.len(),
            forall|j: int| 0 <= j < i ==> lower_char(text@[j]) == name@[j],
        decreases n - i,
    {
        let a: char = text[i];
        let b: char = name.get_char(i);
        let same: bool = if a >= 'A' && a <= 'Z' {
            b as u32 == a as u32 + 32
        } else {
            a == b
        };
        if !same {
            assert(lowered(text@)[i as int] != name@[i as int]);
            return false;
        }
        i = i + 1;
    }
    assert(lowered(text@) =~= name@);
    true
}

/// Reads the characters from `from` up to `to` as a decimal number of at
/// most `max`.
pub fn parse_number(chars: &Vec<char>, from: usize, to: usize, max: u32) -> (r: Option<u32>)
    requires
        from <= to <= chars@.len(),
    ensures
        r is Some <==> number_of(chars@.subrange(from as int, to as int), max as nat) is Some,
        r matches Some(v) ==> number_of(chars@.subrange(from as int, to as int), max as nat)
            == Some(v as nat),
{
    let ghost s = chars@.subrange(from as int, to as int);
    if from == to {
        return None;
    }
    let mut acc: u64 = 0;
    let mut i: usize = from;
    while i < to
        invariant
            from <= i <= to,
            to <= chars@.len(),
            s == chars@.subrange(from as int, to as int),
            all_digits(s.take(i - from)),
            acc == digits_value(s.take(i - from)),
            acc <= max,
        decreases to - i,
    {
        let c: char = chars[i];
        if !is_digit_char(c) {
            assert(!is_digit(s[i - from]));
            return None;
        }
        let d: u64 = (c as u32 - '0' as u32) as u64;
        let next: u64 = acc * 10 + d;
        proof {
            assert(s.take(i + 1 - from).drop_last() =~= s.take(i - from));
            assert(s.take(i + 1 - from).last() == c);
            assert(next == digits_value(s.take(i + 1 - from)));
            assert forall|j: int| 0 <= j < i + 1 - from implies is_digit(
                #[trigger] s.take(i + 1 - from)[j],
            ) by {
                if j < i - from {
                    assert(s.take(i - from)[j] == s[j]);
                }
            }
        }
        if next > max as u64 {
            proof {
                lemma_digits_grow(s, i + 1 - from);
            }
            return None;
        }
        acc = next;
        i = i + 1;
    }
    assert(s.take(to - from) =~= s);
    Some(acc as u32)
}

/// A class of characters that a run is made of.
#[derive(Debug, Clone, Copy, PartialEq, Eq, Structural)]
pub enum CharClass {
    /// Letters of ASCII and decimal digits.
    KeyChar,
    /// Decimal digits.
    Digit,
    /// Every character but the double quote.
    NotQuote,
    /// Every character but the space.
    NotBlank,
}

/// Whether a character belongs to a class.
pub open spec fn in_class(c: char, class: CharClass) -> bool {
    match class {
        CharClass::KeyChar => is_key_char(c),
        CharClass::Digit => is_digit(c),
        CharClass::NotQuote => c != '"',
        CharClass::NotBlank => c != ' ',
    }
}

/// Where the run of characters of one class that starts at `pos` ends: the
/// first place from `pos` on whose character is not of the class, or the end
/// of the text.
pub open spec fn run_end(s: Seq<char>, pos: int, class: CharClass) -> int
    decreases s.len() - pos,
{
    if 0 <= pos < s.len() && in_class(s[pos], class) {
        run_end(s, pos + 1, class)
    } else {
        pos
    }
}

/// A run ends at or after its start and within the text; it holds
/// characters of its class only, and the character behind it is not of the
/// class.
pub proof fn lemma_run_end(s: Seq<char>, pos: int, class: CharClass)
    requires
        0 <= pos <= s.len(),
    ensures
        pos <= run_end(s, pos, class) <= s.len(),
        forall|j: int| pos <= j < run_end(s, pos, class) ==> in_class(#[trigger] s[j], class),
        run_end(s, pos, class) < s.len() ==> !in_class(s[run_end(s, pos, class)], class),
    decreases s.len() - pos,
{
    if pos < s.len() && in_class(s[pos], class) {
        lemma_run_end(s, pos + 1, class);
    }
}

/// The place at which a run ends is the only one that ends it.
pub proof fn lemma_run_end_unique(s: Seq<char>, pos: int, class: CharClass, end: int)
    requires
        0 <= pos <= end <= s.len(),
        forall|j: int| pos <= j < end ==> in_class(#[trigger] s[j], class),
        end < s.len() ==> !in_class(s[end], class),
    ensures
        run_end(s, pos, class) == end,
    decreases end - pos,
{
    if pos < end {
        assert(in_class(s[pos], class));
        lemma_run_end_unique(s, pos + 1, class, end);
    }
}

/// Whether a character belongs to a class.
pub fn char_in_class(c: char, class: CharClass) -> (r: bool)
    ensures
        r == in_class(c, class),
{
    match class {
        CharClass::KeyChar => is_alnum(c),
        CharClass::Digit => is_digit_char(c),
        CharClass::NotQuote => c != '"',
        CharClass::NotBlank => c != ' ',
    }
}

/// Finds the end of the run that starts at `pos`.
pub fn scan_run(chars: &Vec<char>, pos: usize, class: CharClass) -> (end: usize)
    requires
        pos <= chars@.len(),
    ensures
        end == run_end(chars@, pos as int, class),
        pos <= end <= chars@.len(),
{
    let n: usize = chars.len();
    let mut end: usize = pos;
    while end < n && char_in_class(chars[end], class)
        invariant
            pos <= end <= n,
            n == chars@.len(),
            forall|j: int| pos <= j < end ==> in_class(#[trigger] chars@[j], class),
        decreases n - end,
    {
        end = end + 1;
    }
    proof {
        lemma_run_end_unique(chars@, pos as int, class, end as int);
    }
    end
}

} // verus!
