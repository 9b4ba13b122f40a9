//! The grammars of values.
//!
//! A value is a sequence of tokens with spaces between them. A token is a
//! quoted string, which may hold spaces, or a word, which holds none. What a
//! field takes from a value depends on its kind: one quoted string, a flag,
//! a number, four signed bytes, a list of either kind, or a number and what
//! belongs to it.

use vstd::prelude::*;
use crate::cif::text::CharClass;
use crate::cif::text::chars_of;
use crate::cif::text::lemma_run_end;
use crate::cif::text::number_of;
use crate::cif::text::parse_number;
use crate::cif::text::run_end;
use crate::cif::text::scan_run;
use crate::cif::text::slice_string;
use crate::error::DecodeError;
use crate::error::StructuralError;

verus! {

/// The error of a value that does not follow the grammar of its field.
pub open spec fn malformed_value() -> DecodeError {
    DecodeError::Malformed(StructuralError::MalformedValue)
}

/// A token of a value: the place of its text in the value, without the
/// quotes where it is quoted.
#[derive(Debug, Clone, Copy, PartialEq, Eq, Structural)]
pub struct Token {
    pub quoted: bool,
    pub start: usize,
    pub end: usize,
}

/// The mathematical value of a `Token`.
pub struct Span {
    pub quoted: bool,
    pub start: int,
    pub end: int,
}

impl View for Token {
    type V = Span;

    open spec fn view(&self) -> Span {
        Span { quoted: self.quoted, start: self.start as int, end: self.end as int }
    }
}

/// The mathematical values of a sequence of tokens.
pub open spec fn spans_of(tokens: Seq<Token>) -> Seq<Span> {
    Seq::new(tokens.len(), |i: int| tokens[i]@)
}

/// The tokens of a value from `pos` on, or `None` where a quoted string is
/// not closed.
pub open spec fn tokens_from(s: Seq<char>, pos: int) -> Option<Seq<Span>>
    decreases
            (if pos < s.len() {
                s.len() - pos
            } else {
                0
            }),
{
    if pos < 0 || pos >= s.len() {
        Some(Seq::empty())
    } else if s[pos] == ' ' {
        tokens_from(s, pos + 1)
    } else if s[pos] == '"' {
        let close = run_end(s, pos + 1, CharClass::NotQuote);
        if close <= pos || close >= s.len() {
            None
        } else {
            match tokens_from(s, close + 1) {
                None => None,
                Some(rest) => Some(seq![Span { quoted: true, start: pos + 1, end: close }] + rest),
            }
        }
    } else {
        let end = run_end(s, pos + 1, CharClass::NotBlank);
        if end <= pos {
            None
        } else {
            match tokens_from(s, end) {
                None => None,
                Some(rest) => Some(seq![Span { quoted: false, start: pos, end: end }] + rest),
            }
        }
    }
}

/// The tokens of a value.
pub open spec fn tokens_of(s: Seq<char>) -> Option<Seq<Span>> {
    tokens_from(s, 0)
}

/// The text of a token.
pub open spec fn span_text(s: Seq<char>, span: Span) -> Seq<char> {
    s.subrange(span.start, span.end)
}

/// Whether every token lies within a text of `len` characters.
pub open spec fn spans_within(spans: Seq<Span>, len: int) -> bool {
    forall|i: int| 0 <= i < spans.len() ==> 0 <= (#[trigger] spans[i]).start <= spans[i].end <= len
}

/// Every token of a value lies within the value.
pub proof fn lemma_tokens_within(s: Seq<char>, pos: int)
    requires
        0 <= pos,
        tokens_from(s, pos) is Some,
    ensures
        spans_within(tokens_from(s, pos).unwrap(), s.len() as int),
    decreases
            (if pos < s.len() {
                s.len() - pos
            } else {
                0
            }),
{
    if pos < s.len() {
        if s[pos] == ' ' {
            lemma_tokens_within(s, pos + 1);
        } else if s[pos] == '"' {
            let close = run_end(s, pos + 1, CharClass::NotQuote);
            lemma_run_end(s, pos + 1, CharClass::NotQuote);
            lemma_tokens_within(s, close + 1);
        } else {
            let end = run_end(s, pos + 1, CharClass::NotBlank);
            lemma_run_end(s, pos + 1, CharClass::NotBlank);
            lemma_tokens_within(s, end);
        }
    }
}

/// Cuts a value into its tokens.
pub fn tokenize(chars: &Vec<char>) -> (r: Option<Vec<Token>>)
    ensures
        r is Some <==> tokens_of(chars@) is Some,
        r matches Some(tokens) ==> Some(spans_of(tokens@)) == tokens_of(chars@) && spans_within(
            spans_of(tokens@),
            chars@.len() as int,
        ),
{
    let n: usize = chars.len();
    let mut tokens: Vec<Token> = Vec::new();
    let mut pos: usize = 0;
    while pos < n
        invariant
            pos <= n,
            n == chars@.len(),
            match tokens_from(chars@, pos as int) {
                Some(rest) => tokens_of(chars@) == Some(spans_of(tokens@) + rest),
                None => tokens_of(chars@) is None,
            },
        decreases n - pos,
    {
        let ghost before = spans_of(tokens@);
        let c: char = chars[pos];
        if c == ' ' {
            pos = pos + 1;
        } else if c == '"' {
            let close: usize = scan_run(chars, pos + 1, CharClass::NotQuote);
            if close >= n {
                return None;
            }
            let token = Token { quoted: true, start: pos + 1, end: close };
            tokens.push(token);
            proof {
                assert(spans_of(tokens@) =~= before + seq![token@]);
                match tokens_from(chars@, close + 1) {
                    Some(rest) => {
                        assert((before + seq![token@]) + rest =~= before + (seq![token@] + rest));
                    },
                    None => {},
                }
            }
            pos = close + 1;
        } else {
            let end: usize = scan_run(chars, pos + 1, CharClass::NotBlank);
            let token = Token { quoted: false, start: pos, end };
            tokens.push(token);
            proof {
                assert(spans_of(tokens@) =~= before + seq![token@]);
                match tokens_from(chars@, end as int) {
                    Some(rest) => {
                        assert((before + seq![token@]) + rest =~= before + (seq![token@] + rest));
                    },
                    None => {},
                }
            }
            pos = end;
        }
    }
    proof {
        assert(spans_of(tokens@) + Seq::<Span>::empty() =~= spans_of(tokens@));
        lemma_tokens_within(chars@, 0);
    }
    Some(tokens)
}

/// The text that a value holds as its only token, a quoted string.
pub open spec fn text_value(s: Seq<char>) -> Option<Seq<char>> {
    match tokens_of(s) {
        Some(t) => if t.len() == 1 && t[0].quoted {
            Some(span_text(s, t[0]))
        } else {
            None
        },
        None => None,
    }
}

/// The number of at most `max` that a value holds as its only token, a word
/// of decimal digits.
pub open spec fn number_value(s: Seq<char>, max: nat) -> Option<nat> {
    match tokens_of(s) {
        Some(t) => if t.len() == 1 && !t[0].quoted {
            number_of(span_text(s, t[0]), max)
        } else {
            None
        },
        None => None,
    }
}

/// The flag that a value holds: the number 0 or 1.
pub open spec fn flag_value(s: Seq<char>) -> Option<bool> {
    match number_value(s, 1) {
        Some(v) => Some(v == 1),
        None => None,
    }
}

/// The byte that a value holds.
pub open spec fn byte_value(s: Seq<char>) -> Option<u8> {
    match number_value(s, 255) {
        Some(v) => Some(v as u8),
        None => None,
    }
}

/// Whether a text is a decimal fraction: digits, and after a point digits
/// again; the point and what follows it may be left out.
pub open spec fn is_decimal(s: Seq<char>) -> bool {
    let whole = run_end(s, 0, CharClass::Digit);
    0 < whole && (whole == s.len() || (s[whole] == '.' && whole + 1 < s.len() && run_end(
        s,
        whole + 1,
        CharClass::Digit,
    ) == s.len()))
}

/// The decimal fraction that a value holds as its only token, as it is
/// written.
pub open spec fn decimal_value(s: Seq<char>) -> Option<Seq<char>> {
    match tokens_of(s) {
        Some(t) => if t.len() == 1 && !t[0].quoted && is_decimal(span_text(s, t[0])) {
            Some(span_text(s, t[0]))
        } else {
            None
        },
        None => None,
    }
}

/// The signed byte that a word stands for: decimal digits, with a minus
/// sign in front of them or without.
pub open spec fn signed_of(s: Seq<char>) -> Option<i8> {
    if s.len() > 0 && s[0] == '-' {
        match number_of(s.skip(1), 128) {
            Some(v) => Some((0 - v) as i8),
            None => None,
        }
    } else {
        match number_of(s, 127) {
            Some(v) => Some(v as i8),
            None => None,
        }
    }
}

/// The area that a value holds: four signed bytes, two corners of two
/// coordinates each.
pub open spec fn coords_value(s: Seq<char>) -> Option<((i8, i8), (i8, i8))> {
    match tokens_of(s) {
        Some(t) => if t.len() == 4 && (forall|i: int|
            0 <= i < 4 ==> !(#[trigger] t[i]).quoted && signed_of(span_text(s, t[i])) is Some) {
            Some(
                (
                    (
                        signed_of(span_text(s, t[0])).unwrap(),
                        signed_of(span_text(s, t[1])).unwrap(),
                    ),
                    (
                        signed_of(span_text(s, t[2])).unwrap(),
                        signed_of(span_text(s, t[3])).unwrap(),
                    ),
                ),
            )
        } else {
            None
        },
        None => None,
    }
}

/// Whether the tokens from place `from` on are all quoted strings.
pub open spec fn all_quoted(t: Seq<Span>, from: int) -> bool {
    forall|i: int| from <= i < t.len() ==> (#[trigger] t[i]).quoted
}

/// Whether the tokens from place `from` on are all bytes.
pub open spec fn all_bytes(s: Seq<char>, t: Seq<Span>, from: int) -> bool {
    forall|i: int|
        from <= i < t.len() ==> !(#[trigger] t[i]).quoted && number_of(span_text(s, t[i]), 255)
            is Some
}

/// The list of texts that a value holds: one or more quoted strings.
pub open spec fn texts_value(s: Seq<char>) -> Option<Seq<Seq<char>>> {
    match tokens_of(s) {
        Some(t) => if t.len() >= 1 && all_quoted(t, 0) {
            Some(Seq::new(t.len(), |i: int| span_text(s, t[i])))
        } else {
            None
        },
        None => None,
    }
}

/// The list of bytes that a value holds: one or more numbers.
pub open spec fn bytes_value(s: Seq<char>) -> Option<Seq<u8>> {
    match tokens_of(s) {
        Some(t) => if t.len() >= 1 && all_bytes(s, t, 0) {
            Some(Seq::new(t.len(), |i: int| number_of(span_text(s, t[i]), 255).unwrap() as u8))
        } else {
            None
        },
        None => None,
    }
}

/// The numbered list that a value holds: a number, and the numbers that
/// belong to it.
pub open spec fn keyed_bytes_value(s: Seq<char>) -> Option<(u8, Seq<u8>)> {
    match bytes_value(s) {
        Some(b) => Some((b[0], b.skip(1))),
        None => None,
    }
}

/// The numbered text that a value holds: a number, and the quoted string
/// that belongs to it.
pub open spec fn keyed_text_value(s: Seq<char>) -> Option<(u8, Seq<char>)> {
    match tokens_of(s) {
        Some(t) => if t.len() == 2 && !t[0].quoted && t[1].quoted && number_of(
            span_text(s, t[0]),
            255,
        ) is Some {
            Some((number_of(span_text(s, t[0]), 255).unwrap() as u8, span_text(s, t[1])))
        } else {
            None
        },
        None => None,
    }
}

/// A value cut into tokens, with what the tokens refer to.
pub struct Cut {
    pub chars: Vec<char>,
    pub tokens: Vec<Token>,
}

impl Cut {
    /// Whether the tokens are those of the text `s`.
    pub open spec fn cuts(&self, s: Seq<char>) -> bool {
        &&& self.chars@ == s
        &&& tokens_of(s) == Some(spans_of(self.tokens@))
        &&& spans_within(spans_of(self.tokens@), s.len() as int)
    }
}

/// Cuts a value into its tokens.
pub fn cut(value: &str) -> (r: Option<Cut>)
    ensures
        r is Some <==> tokens_of(value@) is Some,
        r matches Some(c) ==> c.cuts(value@),
{
    let chars: Vec<char> = chars_of(value);
    match tokenize(&chars) {
        Some(tokens) => Some(Cut { chars, tokens }),
        None => None,
    }
}

/// Reads a value that is one quoted string.
pub fn parse_text(value: &str) -> (r: Option<String>)
    ensures
        r is Some <==> text_value(value@) is Some,
        r matches Some(text) ==> Some(text@) == text_value(value@),
{
    let c: Cut = cut(value)?;
    if c.tokens.len() != 1 || !c.tokens[0].quoted {
        return None;
    }
    assert(spans_of(c.tokens@)[0] == c.tokens@[0]@);
    Some(slice_string(value, c.tokens[0].start, c.tokens[0].end))
}

/// Reads a value that is one number of at most `max`.
pub fn parse_number_value(value: &str, max: u32) -> (r: Option<u32>)
    ensures
        r is Some <==> number_value(value@, max as nat) is Some,
        r matches Some(v) ==> Some(v as nat) == number_value(value@, max as nat),
{
    let c: Cut = cut(value)?;
    if c.tokens.len() != 1 || c.tokens[0].quoted {
        return None;
    }
    assert(spans_of(c.tokens@)[0] == c.tokens@[0]@);
    parse_number(&c.chars, c.tokens[0].start, c.tokens[0].end, max)
}

/// Reads a value that is a flag.
pub fn parse_flag(value: &str) -> (r: Option<bool>)
    ensures
        r == flag_value(value@),
{
    match parse_number_value(value, 1) {
        Some(v) => Some(v == 1),
        None => None,
    }
}

/// Reads a value that is a byte.
pub fn parse_byte(value: &str) -> (r: Option<u8>)
    ensures
        r == byte_value(value@),
{
    match parse_number_value(value, 255) {
        Some(v) => Some(v as u8),
        None => None,
    }
}

/// Reads a value that is a decimal fraction, and keeps it as it is written.
pub fn parse_decimal(value: &str) -> (r: Option<String>)
    ensures
        r is Some <==> decimal_value(value@) is Some,
        r matches Some(text) ==> Some(text@) == decimal_value(value@),
{
    let c: Cut = cut(value)?;
    if c.tokens.len() != 1 || c.tokens[0].quoted {
        return None;
    }
    assert(spans_of(c.tokens@)[0] == c.tokens@[0]@);
    let start: usize = c.tokens[0].start;
    let end: usize = c.tokens[0].end;
    let word: Vec<char> = copy_chars(&c.chars, start, end);
    let n: usize = word.len();
    let whole: usize = scan_run(&word, 0, CharClass::Digit);
    if whole == 0 {
        return None;
    }
    if whole < n {
        if word[whole] != '.' || whole + 1 >= n {
            return None;
        }
        let fraction: usize = scan_run(&word, whole + 1, CharClass::Digit);
        if fraction != n {
            return None;
        }
    }
    Some(slice_string(value, start, end))
}

/// A copy of the characters from `from` up to `to`.
pub fn copy_chars(chars: &Vec<char>, from: usize, to: usize) -> (part: Vec<char>)
    requires
        from <= to <= chars@.len(),
    ensures
        part@ == chars@.subrange(from as int, to as int),
{
    let mut part: Vec<char> = Vec::new();
    let mut i: usize = from;
    while i < to
        invariant
            from <= i <= to,
            to <= chars@.len(),
            part@ == chars@.subrange(from as int, i as int),
        decreases to - i,
    {
        part.push(chars[i]);
        i = i + 1;
        assert(part@ =~= chars@.subrange(from as int, i as int));
    }
    part
}

/// Reads the word from `from` up to `to` as a signed byte.
pub fn parse_signed(chars: &Vec<char>, from: usize, to: usize) -> (r: Option<i8>)
    requires
        from <= to <= chars@.len(),
    ensures
        r == signed_of(chars@.subrange(from as int, to as int)),
{
    let ghost s = chars@.subrange(from as int, to as int);
    if from < to && chars[from] == '-' {
        assert(s.skip(1) =~= chars@.subrange(from + 1, to as int));
        match parse_number(chars, from + 1, to, 128) {
            Some(v) => Some((0 - v as i16) as i8),
            None => None,
        }
    } else {
        match parse_number(chars, from, to, 127) {
            Some(v) => Some(v as i8),
            None => None,
        }
    }
}

/// Reads a value that is an area of four signed bytes.
pub fn parse_coords(value: &str) -> (r: Option<((i8, i8), (i8, i8))>)
    ensures
        r == coords_value(value@),
{
    let c: Cut = cut(value)?;
    if c.tokens.len() != 4 {
        return None;
    }
    let ghost t = spans_of(c.tokens@);
    let mut r: Vec<i8> = Vec::new();
    let mut i: usize = 0;
    while i < 4
        invariant
            i <= 4,
            c.cuts(value@),
            c.tokens@.len() == 4,
            t == spans_of(c.tokens@),
            r@.len() == i,
            forall|j: int|
                0 <= j < i ==> !(#[trigger] t[j]).quoted && signed_of(span_text(value@, t[j]))
                    == Some(r@[j]),
        decreases 4 - i,
    {
        let token: Token = c.tokens[i];
        assert(t[i as int] == token@);
        if token.quoted {
            return None;
        }
        match parse_signed(&c.chars, token.start, token.end) {
            Some(v) => {
                r.push(v);
            },
            None => {
                return None;
            },
        }
        i = i + 1;
    }
    Some(((r[0], r[1]), (r[2], r[3])))
}

/// Reads a value that is a list of quoted strings.
pub fn parse_texts(value: &str) -> (r: Option<Vec<String>>)
    ensures
        r is Some <==> texts_value(value@) is Some,
        r matches Some(texts) ==> Some(crate::codec::texts_of(texts@)) == texts_value(value@),
{
    let c: Cut = cut(value)?;
    let n: usize = c.tokens.len();
    if n == 0 {
        return None;
    }
    let ghost t = spans_of(c.tokens@);
    let mut texts: Vec<String> = Vec::new();
    let mut i: usize = 0;
    while i < n
        invariant
            i <= n,
            n == c.tokens@.len(),
            c.cuts(value@),
            t == spans_of(c.tokens@),
            texts@.len() == i,
            forall|j: int|
                0 <= j < i ==> (#[trigger] t[j]).quoted && texts@[j]@ == span_text(value@, t[j]),
        decreases n - i,
    {
        let token: Token = c.tokens[i];
        assert(t[i as int] == token@);
        if !token.quoted {
            return None;
        }
        texts.push(slice_string(value, token.start, token.end));
        i = i + 1;
    }
    assert(crate::codec::texts_of(texts@) =~= texts_value(value@).unwrap());
    Some(texts)
}

/// Reads a value that is a list of bytes: one or more numbers with spaces
/// between them.
pub fn split_string_to_ints(value: &str) -> (r: Option<Vec<u8>>)
    ensures
        r is Some <==> bytes_value(value@) is Some,
        r matches Some(bytes) ==> Some(bytes@) == bytes_value(value@),
{
    let c: Cut = cut(value)?;
    let n: usize = c.tokens.len();
    if n == 0 {
        return None;
    }
    let ghost t = spans_of(c.tokens@);
    let mut bytes: Vec<u8> = Vec::new();
    let mut i: usize = 0;
    while i < n
        invariant
            i <= n,
            n == c.tokens@.len(),
            c.cuts(value@),
            t == spans_of(c.tokens@),
            bytes@.len() == i,
            forall|j: int|
                0 <= j < i ==> !(#[trigger] t[j]).quoted && number_of(
                    span_text(value@, t[j]),
                    255,
                ) == Some(bytes@[j] as nat),
        decreases n - i,
    {
        let token: Token = c.tokens[i];
        assert(t[i as int] == token@);
        if token.quoted {
            return None;
        }
        match parse_number(&c.chars, token.start, token.end, 255) {
            Some(v) => {
                bytes.push(v as u8);
            },
            None => {
                return None;
            },
        }
        i = i + 1;
    }
    assert(bytes@ =~= bytes_value(value@).unwrap());
    Some(bytes)
}

/// Reads a value that is a number and a quoted string.
pub fn parse_keyed_text(value: &str) -> (r: Option<(u8, String)>)
    ensures
        r is Some <==> keyed_text_value(value@) is Some,
        r matches Some(found) ==> Some((found.0, found.1@)) == keyed_text_value(value@),
{
    let c: Cut = cut(value)?;
    if c.tokens.len() != 2 {
        return None;
    }
    let id: Token = c.tokens[0];
    let text: Token = c.tokens[1];
    assert(spans_of(c.tokens@)[0] == id@);
    assert(spans_of(c.tokens@)[1] == text@);
    if id.quoted || !text.quoted {
        return None;
    }
    let k: u32 = parse_number(&c.chars, id.start, id.end, 255)?;
    Some((k as u8, slice_string(value, text.start, text.end)))
}

/// The texts from place `i` on that are not among `kept` yet, added to
/// `kept` in their order.
pub open spec fn distinct_from(texts: Seq<Seq<char>>, i: int, kept: Seq<Seq<char>>) -> Seq<
    Seq<char>,
>
    decreases texts.len() - i,
{
    if i < 0 || i >= texts.len() {
        kept
    } else if kept.contains(texts[i]) {
        distinct_from(texts, i + 1, kept)
    } else {
        distinct_from(texts, i + 1, kept.push(texts[i]))
    }
}

/// A list of texts without what occurs again: of equal texts the first
/// stays.
pub open spec fn distinct(texts: Seq<Seq<char>>) -> Seq<Seq<char>> {
    distinct_from(texts, 0, Seq::empty())
}

/// Whether a text is among those kept.
fn contains_text(kept: &Vec<String>, text: &String) -> (r: bool)
    ensures
        r == crate::codec::texts_of(kept@).contains(text@),
{
    let mut i: usize = 0;
    while i < kept.len()
        invariant
            i <= kept@.len(),
            forall|j: int| 0 <= j < i ==> kept@[j]@ != text@,
        decreases kept@.len() - i,
    {
        if kept[i].eq(text) {
            assert(crate::codec::texts_of(kept@)[i as int] == text@);
            return true;
        }
        i = i + 1;
    }
    false
}

/// Drops from a list of texts what occurs again.
pub fn distinct_texts(texts: Vec<String>) -> (r: Vec<String>)
    ensures
        crate::codec::texts_of(r@) == distinct(crate::codec::texts_of(texts@)),
{
    let ghost all = crate::codec::texts_of(texts@);
    let mut kept: Vec<String> = Vec::new();
    let mut i: usize = 0;
    assert(crate::codec::texts_of(kept@) =~= Seq::<Seq<char>>::empty());
    while i < texts.len()
        invariant
            i <= texts@.len(),
            all == crate::codec::texts_of(texts@),
            distinct_from(all, i as int, crate::codec::texts_of(kept@)) == distinct(all),
        decreases texts@.len() - i,
    {
        let ghost before = crate::codec::texts_of(kept@);
        if !contains_text(&kept, &texts[i]) {
            kept.push(texts[i].clone());
            assert(crate::codec::texts_of(kept@) =~= before.push(all[i as int]));
        }
        i = i + 1;
    }
    kept
}

/// The numbered text that a value holds, with a number of up to 32 bits.
pub open spec fn numbered_text_value(s: Seq<char>) -> Option<(u32, Seq<char>)> {
    match tokens_of(s) {
        Some(t) => if t.len() == 2 && !t[0].quoted && t[1].quoted && number_of(
            span_text(s, t[0]),
            0xFFFF_FFFF,
        ) is Some {
            Some((number_of(span_text(s, t[0]), 0xFFFF_FFFF).unwrap() as u32, span_text(s, t[1])))
        } else {
            None
        },
        None => None,
    }
}

/// Reads a value that is a number of up to 32 bits and a quoted string.
pub fn parse_numbered_text(value: &str) -> (r: Option<(u32, String)>)
    ensures
        r is Some <==> numbered_text_value(value@) is Some,
        r matches Some(found) ==> Some((found.0, found.1@)) == numbered_text_value(value@),
{
    let c: Cut = cut(value)?;
    if c.tokens.len() != 2 {
        return None;
    }
    let id: Token = c.tokens[0];
    let text: Token = c.tokens[1];
    assert(spans_of(c.tokens@)[0] == id@);
    assert(spans_of(c.tokens@)[1] == text@);
    if id.quoted || !text.quoted {
        return None;
    }
    let k: u32 = parse_number(&c.chars, id.start, id.end, 0xFFFF_FFFF)?;
    Some((k, slice_string(value, text.start, text.end)))
}

} // verus!
