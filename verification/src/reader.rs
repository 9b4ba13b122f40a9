//! A forward-only cursor over an owned byte buffer, and the string and
//! integer fields that the containers are made of.
//!
//! The view of a cursor is the sequence of bytes that it has not consumed
//! yet. Every read states what it returns, and what is left, over that view.
//! A read that fails leaves the cursor where it was.

use vstd::prelude::*;
use vstd::utf8::valid_utf8;
use vstd::utf8::decode_utf8;
use crate::endian::le_u16;
use crate::endian::le_u32;
use crate::endian::le_u16_of;
use crate::endian::le_u32_of;
use crate::error::DecodeError;
use crate::error::StructuralError;

verus! {

/// The error of a read that found the buffer too short.
pub open spec fn truncated() -> DecodeError {
    DecodeError::Malformed(StructuralError::Truncated)
}

/// The error of a text field that is not valid UTF-8.
pub open spec fn invalid_text() -> DecodeError {
    DecodeError::Malformed(StructuralError::InvalidText)
}

/// The position of the first zero byte of `s`, or the length of `s` where it
/// holds none.
pub open spec fn first_zero(s: Seq<u8>) -> int
    decreases s.len(),
{
    if s.len() == 0 {
        0
    } else if s[0] == 0 {
        0
    } else {
        1 + first_zero(s.skip(1))
    }
}

/// `first_zero` is the least position of a zero byte.
pub proof fn lemma_first_zero(s: Seq<u8>)
    ensures
        0 <= first_zero(s) <= s.len(),
        forall|j: int| 0 <= j < first_zero(s) ==> s[j] != 0,
        first_zero(s) < s.len() ==> s[first_zero(s)] == 0,
    decreases s.len(),
{
    if s.len() != 0 && s[0] != 0 {
        let t = s.skip(1);
        lemma_first_zero(t);
        assert forall|j: int| 0 <= j < first_zero(s) implies s[j] != 0 by {
            if j > 0 {
                assert(t[j - 1] == s[j]);
            }
        }
        if first_zero(s) < s.len() {
            assert(t[first_zero(t)] == s[first_zero(s)]);
        }
    }
}

/// A position before which no byte is zero, and at which one is or the
/// sequence ends, is `first_zero`.
pub proof fn lemma_first_zero_unique(s: Seq<u8>, k: int)
    requires
        0 <= k <= s.len(),
        forall|j: int| 0 <= j < k ==> s[j] != 0,
        k < s.len() ==> s[k] == 0,
    ensures
        first_zero(s) == k,
{
    lemma_first_zero(s);
    let f = first_zero(s);
    if f < k {
        assert(s[f] == 0);
    } else if k < f {
        assert(s[k] == 0);
    }
}

/// `String::from_utf8`: the text that a byte vector encodes in UTF-8, or
/// `None` where the bytes are not valid UTF-8. The contract takes from the
/// documentation of the standard library that the conversion succeeds
/// exactly on valid UTF-8, and that the text is then the one that the bytes
/// encode.
#[verifier::external_body]
pub(crate) fn string_from_utf8(bytes: Vec<u8>) -> (text: Option<String>)
    ensures
        text is Some <==> valid_utf8(bytes@),
        text matches Some(s) ==> s@ == decode_utf8(bytes@),
{
    match String::from_utf8(bytes) {
        Ok(text) => Some(text),
        Err(_) => None,
    }
}

/// A cursor over a byte buffer that only moves forward.
pub struct ByteCursor {
    data: Vec<u8>,
    pos: usize,
}

impl View for ByteCursor {
    type V = Seq<u8>;

    /// The bytes that are still to be read.
    closed spec fn view(&self) -> Seq<u8> {
        if self.pos <= self.data@.len() {
            self.data@.subrange(self.pos as int, self.data@.len() as int)
        } else {
            Seq::empty()
        }
    }
}

impl ByteCursor {
    #[verifier::type_invariant]
    spec fn in_range(self) -> bool {
        self.pos <= self.data@.len()
    }

    /// A cursor at the start of `data`.
    pub fn new(data: Vec<u8>) -> (cursor: ByteCursor)
        ensures
            cursor@ == data@,
    {
        let cursor = ByteCursor { data, pos: 0 };
        assert(cursor@ =~= data@);
        cursor
    }

    /// The number of bytes that are still to be read.
    pub fn remaining(&self) -> (n: usize)
        ensures
            n == self@.len(),
    {
        proof {
            use_type_invariant(self);
        }
        self.data.len() - self.pos
    }

    /// The byte `offset` places ahead, without consuming anything.
    pub fn peek(&self, offset: usize) -> (byte: Option<u8>)
        ensures
            byte == (if offset < self@.len() { Some(self@[offset as int]) } else { None::<u8> }),
    {
        proof {
            use_type_invariant(self);
        }
        if offset < self.data.len() - self.pos {
            Some(self.data[self.pos + offset])
        } else {
            None
        }
    }

    /// Skips `n` bytes, or fails where fewer are left.
    pub fn skip(&mut self, n: usize) -> (r: Result<(), DecodeError>)
        ensures
            r is Ok <==> n <= old(self)@.len(),
            r is Ok ==> final(self)@ == old(self)@.skip(n as int),
            r is Err ==> r == Err::<(), DecodeError>(truncated()) && final(self)@ == old(self)@,
    {
        proof {
            use_type_invariant(&*self);
        }
        if n <= self.data.len() - self.pos {
            self.pos = self.pos + n;
            assert(self@ =~= old(self)@.skip(n as int));
            Ok(())
        } else {
            Err(DecodeError::Malformed(StructuralError::Truncated))
        }
    }

    /// Reads one byte.
    pub fn read_u8(&mut self) -> (r: Result<u8, DecodeError>)
        ensures
            r is Ok <==> old(self)@.len() >= 1,
            r matches Ok(v) ==> v == old(self)@[0] && final(self)@ == old(self)@.skip(1),
            r is Err ==> r == Err::<u8, DecodeError>(truncated()) && final(self)@ == old(self)@,
    {
        proof {
            use_type_invariant(&*self);
        }
        if self.pos < self.data.len() {
            let v: u8 = self.data[self.pos];
            self.pos = self.pos + 1;
            assert(self@ =~= old(self)@.skip(1));
            Ok(v)
        } else {
            Err(DecodeError::Malformed(StructuralError::Truncated))
        }
    }

    /// Copies the `n` bytes that start `offset` places ahead, without
    /// consuming anything.
    pub fn peek_vec(&self, offset: usize, n: usize) -> (r: Option<Vec<u8>>)
        ensures
            r is Some <==> offset + n <= self@.len(),
            r matches Some(v) ==> v@ == self@.subrange(offset as int, offset + n),
    {
        proof {
            use_type_invariant(self);
        }
        let left: usize = self.data.len() - self.pos;
        if offset > left || n > left - offset {
            return None;
        }
        let start: usize = self.pos + offset;
        let mut out: Vec<u8> = Vec::new();
        let mut i: usize = 0;
        while i < n
            invariant
                i <= n,
                start + n <= self.data@.len(),
                start + n <= usize::MAX,
                out@ == self.data@.subrange(start as int, start + i),
            decreases n - i,
        {
            out.push(self.data[start + i]);
            i = i + 1;
            assert(out@ =~= self.data@.subrange(start as int, start + i));
        }
        assert(out@ =~= self@.subrange(offset as int, offset + n));
        Some(out)
    }

    /// Reads `n` bytes into a vector of their own.
    pub fn read_vec(&mut self, n: usize) -> (r: Result<Vec<u8>, DecodeError>)
        ensures
            r is Ok <==> n <= old(self)@.len(),
            r matches Ok(v) ==> v@ == old(self)@.take(n as int) && final(self)@ == old(self)@.skip(
                n as int,
            ),
            r is Err ==> r == Err::<Vec<u8>, DecodeError>(truncated()) && final(self)@ == old(
                self,
            )@,
    {
        match self.peek_vec(0, n) {
            Some(out) => {
                self.skip(n)?;
                assert(out@ =~= old(self)@.take(n as int));
                Ok(out)
            },
            None => Err(DecodeError::Malformed(StructuralError::Truncated)),
        }
    }

    /// Reads a 16-bit integer, least significant byte first.
    pub fn read_u16(&mut self) -> (r: Result<u16, DecodeError>)
        ensures
            r is Ok <==> old(self)@.len() >= 2,
            r matches Ok(v) ==> v as int == le_u16_of(old(self)@) && final(self)@ == old(
                self,
            )@.skip(2),
            r is Err ==> r == Err::<u16, DecodeError>(truncated()) && final(self)@ == old(self)@,
    {
        match self.read_vec(2) {
            Ok(bytes) => Ok(le_u16(bytes.as_slice())),
            Err(e) => Err(e),
        }
    }

    /// Reads a 32-bit integer, least significant byte first.
    pub fn read_u32(&mut self) -> (r: Result<u32, DecodeError>)
        ensures
            r is Ok <==> old(self)@.len() >= 4,
            r matches Ok(v) ==> v as int == le_u32_of(old(self)@) && final(self)@ == old(
                self,
            )@.skip(4),
            r is Err ==> r == Err::<u32, DecodeError>(truncated()) && final(self)@ == old(self)@,
    {
        match self.read_vec(4) {
            Ok(bytes) => Ok(le_u32(bytes.as_slice())),
            Err(e) => Err(e),
        }
    }
}

/// What a text field of `size` bytes at the head of `s` holds.
pub open spec fn fixed_string_of(s: Seq<u8>, size: int) -> Result<Seq<char>, DecodeError> {
    if size > s.len() {
        Err(truncated())
    } else if !valid_utf8(s.take(size)) {
        Err(invalid_text())
    } else {
        Ok(decode_utf8(s.take(size)))
    }
}

/// Reads a text field of exactly `size` bytes; a zero byte in it is kept.
pub fn read_fixed_string(view: &mut ByteCursor, size: usize) -> (r: Result<String, DecodeError>)
    ensures
        r is Ok <==> fixed_string_of(old(view)@, size as int) is Ok,
        r matches Ok(text) ==> Ok::<Seq<char>, DecodeError>(text@) == fixed_string_of(
            old(view)@,
            size as int,
        ) && final(view)@ == old(view)@.skip(size as int),
        r matches Err(e) ==> Err::<Seq<char>, DecodeError>(e) == fixed_string_of(
            old(view)@,
            size as int,
        ) && final(view)@ == old(view)@,
{
    match view.peek_vec(0, size) {
        None => Err(DecodeError::Malformed(StructuralError::Truncated)),
        Some(bytes) => {
            assert(bytes@ =~= view@.take(size as int));
            match string_from_utf8(bytes) {
                None => Err(DecodeError::Malformed(StructuralError::InvalidText)),
                Some(text) => {
                    view.skip(size)?;
                    Ok(text)
                },
            }
        },
    }
}

/// What a text field with a one-byte length in front holds, and its whole
/// size in bytes.
pub open spec fn short_string_of(s: Seq<u8>) -> Result<(Seq<char>, int), DecodeError> {
    if s.len() < 1 {
        Err(truncated())
    } else {
        match fixed_string_of(s.skip(1), s[0] as int) {
            Ok(text) => Ok((text, 1 + s[0] as int)),
            Err(e) => Err(e),
        }
    }
}

/// Reads a text field whose length stands in one byte in front of it.
pub fn read_short_string(view: &mut ByteCursor) -> (r: Result<String, DecodeError>)
    ensures
        r is Ok <==> short_string_of(old(view)@) is Ok,
        r matches Ok(text) ==> Ok::<(Seq<char>, int), DecodeError>(
            (text@, 1 + old(view)@[0] as int),
        ) == short_string_of(old(view)@) && final(view)@ == old(view)@.skip(
            1 + old(view)@[0] as int,
        ),
        r matches Err(e) ==> Err::<(Seq<char>, int), DecodeError>(e) == short_string_of(
            old(view)@,
        ) && final(view)@ == old(view)@,
{
    let len: usize = match view.peek(0) {
        None => {
            return Err(DecodeError::Malformed(StructuralError::Truncated));
        },
        Some(b) => b as usize,
    };
    match view.peek_vec(1, len) {
        None => Err(DecodeError::Malformed(StructuralError::Truncated)),
        Some(bytes) => {
            assert(bytes@ =~= view@.skip(1).take(len as int));
            match string_from_utf8(bytes) {
                None => Err(DecodeError::Malformed(StructuralError::InvalidText)),
                Some(text) => {
                    view.skip(1 + len)?;
                    Ok(text)
                },
            }
        },
    }
}

/// What a text field with a four-byte length in front holds, and its whole
/// size in bytes.
pub open spec fn normal_string_of(s: Seq<u8>) -> Result<(Seq<char>, int), DecodeError> {
    if s.len() < 4 {
        Err(truncated())
    } else {
        match fixed_string_of(s.skip(4), le_u32_of(s)) {
            Ok(text) => Ok((text, 4 + le_u32_of(s))),
            Err(e) => Err(e),
        }
    }
}

/// Reads a text field whose length stands in four bytes in front of it, least
/// significant byte first.
pub fn read_normal_string(view: &mut ByteCursor) -> (r: Result<String, DecodeError>)
    ensures
        r is Ok <==> normal_string_of(old(view)@) is Ok,
        r matches Ok(text) ==> Ok::<(Seq<char>, int), DecodeError>(
            (text@, 4 + le_u32_of(old(view)@)),
        ) == normal_string_of(old(view)@) && final(view)@ == old(view)@.skip(
            4 + le_u32_of(old(view)@),
        ),
        r matches Err(e) ==> Err::<(Seq<char>, int), DecodeError>(e) == normal_string_of(
            old(view)@,
        ) && final(view)@ == old(view)@,
{
    let len: usize = match view.peek_vec(0, 4) {
        None => {
            return Err(DecodeError::Malformed(StructuralError::Truncated));
        },
        Some(head) => {
            assert(head@ =~= view@.take(4));
            let n: u32 = le_u32(head.as_slice());
            n as usize
        },
    };
    let left: usize = view.remaining();
    if len > left - 4 {
        return Err(DecodeError::Malformed(StructuralError::Truncated));
    }
    match view.peek_vec(4, len) {
        None => Err(DecodeError::Malformed(StructuralError::Truncated)),
        Some(bytes) => {
            assert(bytes@ =~= view@.skip(4).take(len as int));
            match string_from_utf8(bytes) {
                None => Err(DecodeError::Malformed(StructuralError::InvalidText)),
                Some(text) => {
                    view.skip(4 + len)?;
                    Ok(text)
                },
            }
        },
    }
}

/// What a zero-terminated text field at the head of `s` holds. Its size in
/// bytes is `first_zero(s) + 1`.
pub open spec fn zero_terminated_string_of(s: Seq<u8>) -> Result<Seq<char>, DecodeError> {
    if first_zero(s) >= s.len() {
        Err(truncated())
    } else {
        fixed_string_of(s, first_zero(s))
    }
}

/// Reads a text field that ends at the first zero byte, and consumes that
/// byte too. A field without a terminator is truncated.
pub fn read_zero_terminated_string(view: &mut ByteCursor) -> (r: Result<String, DecodeError>)
    ensures
        r is Ok <==> zero_terminated_string_of(old(view)@) is Ok,
        r matches Ok(text) ==> Ok::<Seq<char>, DecodeError>(text@) == zero_terminated_string_of(
            old(view)@,
        ) && final(view)@ == old(view)@.skip(first_zero(old(view)@) + 1),
        r matches Err(e) ==> Err::<Seq<char>, DecodeError>(e) == zero_terminated_string_of(
            old(view)@,
        ) && final(view)@ == old(view)@,
{
    let left: usize = view.remaining();
    let mut k: usize = 0;
    let mut found: bool = false;
    while k < left && !found
        invariant
            k <= left,
            left == view@.len(),
            view@ == old(view)@,
            forall|j: int| 0 <= j < k ==> view@[j] != 0,
            found ==> k < left && view@[k as int] == 0,
        decreases left - k + (if found { 0int } else { 1int }),
    {
        let b: Option<u8> = view.peek(k);
        if b == Some(0u8) {
            found = true;
        } else {
            k = k + 1;
        }
    }
    proof {
        lemma_first_zero_unique(view@, k as int);
    }
    if k >= left {
        return Err(DecodeError::Malformed(StructuralError::Truncated));
    }
    match view.peek_vec(0, k) {
        None => Err(DecodeError::Malformed(StructuralError::Truncated)),
        Some(bytes) => {
            assert(bytes@ =~= view@.take(k as int));
            match string_from_utf8(bytes) {
                None => Err(DecodeError::Malformed(StructuralError::InvalidText)),
                Some(text) => {
                    view.skip(k + 1)?;
                    Ok(text)
                },
            }
        },
    }
}

/// Reads `size` bytes.
pub fn read_bytes(cursor: &mut ByteCursor, size: usize) -> (r: Result<Vec<u8>, DecodeError>)
    ensures
        r is Ok <==> size <= old(cursor)@.len(),
        r matches Ok(v) ==> v@ == old(cursor)@.take(size as int) && final(cursor)@ == old(
            cursor,
        )@.skip(size as int),
        r is Err ==> r == Err::<Vec<u8>, DecodeError>(truncated()) && final(cursor)@ == old(
            cursor,
        )@,
{
    cursor.read_vec(size)
}

/// Whether every byte has been read.
pub fn is_eof(cursor: &ByteCursor) -> (eof: bool)
    ensures
        eof == (cursor@.len() == 0),
{
    cursor.remaining() == 0
}

} // verus!
