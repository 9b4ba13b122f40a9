//! The channel codecs of the map container.
//!
//! A channel starts with a preamble of 21 bytes: a flag, a declared length,
//! a tag of eight bytes, an element count and the declared length once more.
//! The payload that follows is run-length coded bytes, run-length coded
//! 16-bit words, or plain bytes. A dictionary is a counted list of short
//! strings and has no preamble.
//!
//! Every codec takes the whole of what is left in the cursor as its input,
//! and fails unless it yields exactly as many elements as are declared.

use vstd::prelude::*;
use vstd::utf8::valid_utf8;
use vstd::utf8::decode_utf8;
use crate::endian::le_u16;
use crate::endian::half_at;
use crate::endian::le_u32_of;
use crate::error::DecodeError;
use crate::error::StructuralError;
use crate::reader::ByteCursor;
use crate::reader::invalid_text;
use crate::reader::read_fixed_string;
use crate::reader::read_short_string;
use crate::reader::short_string_of;
use crate::reader::truncated;
use vstd::slice::slice_subrange;

verus! {

/// The error of a payload that yields another number of elements than is
/// declared.
pub open spec fn length_mismatch() -> DecodeError {
    DecodeError::Malformed(StructuralError::LengthMismatch)
}

/// The error of a preamble whose two declared lengths differ.
pub open spec fn header_mismatch() -> DecodeError {
    DecodeError::Malformed(StructuralError::HeaderMismatch)
}

/// The size of a channel's preamble in bytes.
pub open spec fn preamble_size() -> int {
    21
}

/// The preamble of a channel.
#[derive(Debug, Clone, PartialEq, Eq)]
pub struct Preamble {
    pub unk1: u8,
    pub unk_len: u32,
    pub unk_magic: String,
    pub length: u32,
    pub unk_len_dup: u32,
}

/// The mathematical value of a `Preamble`.
pub struct PreambleView {
    pub unk1: u8,
    pub unk_len: u32,
    pub unk_magic: Seq<char>,
    pub length: u32,
    pub unk_len_dup: u32,
}

impl View for Preamble {
    type V = PreambleView;

    open spec fn view(&self) -> PreambleView {
        PreambleView {
            unk1: self.unk1,
            unk_len: self.unk_len,
            unk_magic: self.unk_magic@,
            length: self.length,
            unk_len_dup: self.unk_len_dup,
        }
    }
}

/// A channel of bytes that were run-length coded.
#[derive(Debug, Clone, PartialEq, Eq)]
pub struct CommonDecoded {
    pub unk1: u8,
    pub unk_len: u32,
    pub unk_magic: String,
    /// The number of elements.
    pub length: u32,
    pub unk_len_dup: u32,
    pub data: Vec<u8>,
}

/// A channel of 16-bit words that were run-length coded.
#[derive(Debug, Clone, PartialEq, Eq)]
pub struct CommonDecoded2 {
    pub unk1: u8,
    pub unk_len: u32,
    pub unk_magic: String,
    /// The number of elements: half the count that the preamble holds.
    pub length: u32,
    pub unk_len_dup: u32,
    pub data: Vec<u16>,
}

/// A channel of bytes that were stored as they are.
#[derive(Debug, Clone, PartialEq, Eq)]
pub struct RawDecoded {
    pub unk1: u8,
    pub data_len: u32,
    pub unk_magic: String,
    /// The number of elements.
    pub length: u32,
    pub unk_len_dup: u32,
    pub data: Vec<u8>,
}

/// The size of a map, from the section that every map container holds.
#[derive(Debug, Clone, Copy, PartialEq, Eq, Structural)]
pub struct HoixzislData {
    pub width: u32,
    pub height: u32,
}

/// The mathematical value of a decoded channel: its preamble and elements.
pub struct ChannelView<T> {
    pub preamble: PreambleView,
    pub data: Seq<T>,
}

impl View for CommonDecoded {
    type V = ChannelView<u8>;

    open spec fn view(&self) -> ChannelView<u8> {
        ChannelView {
            preamble: PreambleView {
                unk1: self.unk1,
                unk_len: self.unk_len,
                unk_magic: self.unk_magic@,
                length: self.length,
                unk_len_dup: self.unk_len_dup,
            },
            data: self.data@,
        }
    }
}

impl View for CommonDecoded2 {
    type V = ChannelView<u16>;

    open spec fn view(&self) -> ChannelView<u16> {
        ChannelView {
            preamble: PreambleView {
                unk1: self.unk1,
                unk_len: self.unk_len,
                unk_magic: self.unk_magic@,
                length: self.length,
                unk_len_dup: self.unk_len_dup,
            },
            data: self.data@,
        }
    }
}

impl View for RawDecoded {
    type V = ChannelView<u8>;

    open spec fn view(&self) -> ChannelView<u8> {
        ChannelView {
            preamble: PreambleView {
                unk1: self.unk1,
                unk_len: self.data_len,
                unk_magic: self.unk_magic@,
                length: self.length,
                unk_len_dup: self.unk_len_dup,
            },
            data: self.data@,
        }
    }
}

/// The preamble at the head of `s`. It is truncated where `s` holds fewer
/// than 21 bytes; its tag must be valid UTF-8 and its two declared lengths
/// must agree.
pub open spec fn preamble_of(s: Seq<u8>) -> Result<PreambleView, DecodeError> {
    if s.len() < 21 {
        Err(truncated())
    } else if !valid_utf8(s.subrange(5, 13)) {
        Err(invalid_text())
    } else if le_u32_of(s.skip(1)) != le_u32_of(s.skip(17)) {
        Err(header_mismatch())
    } else {
        Ok(
            PreambleView {
                unk1: s[0],
                unk_len: le_u32_of(s.skip(1)) as u32,
                unk_magic: decode_utf8(s.subrange(5, 13)),
                length: le_u32_of(s.skip(13)) as u32,
                unk_len_dup: le_u32_of(s.skip(17)) as u32,
            },
        )
    }
}

/// `count` copies of `value`.
pub open spec fn run_of<T>(value: T, count: int) -> Seq<T> {
    Seq::new(count as nat, |i: int| value)
}

/// The bytes that a run-length coded payload stands for. A control byte
/// above `0x80` is followed by one byte, which is repeated `c - 0x80` times;
/// any other control byte is followed by `c` bytes, which are taken as they
/// are. The payload ends with a complete run.
pub open spec fn rle_bytes(s: Seq<u8>) -> Result<Seq<u8>, DecodeError>
    decreases s.len(),
{
    if s.len() == 0 {
        Ok(Seq::empty())
    } else if s[0] > 0x80 {
        if s.len() < 2 {
            Err(truncated())
        } else {
            match rle_bytes(s.skip(2)) {
                Err(e) => Err(e),
                Ok(rest) => Ok(run_of(s[1], s[0] - 0x80) + rest),
            }
        }
    } else {
        if s.len() < 1 + s[0] {
            Err(truncated())
        } else {
            match rle_bytes(s.skip(1 + s[0])) {
                Err(e) => Err(e),
                Ok(rest) => Ok(s.subrange(1, 1 + s[0]) + rest),
            }
        }
    }
}

/// The first `count` words of `s`.
pub open spec fn words_of(s: Seq<u8>, count: int) -> Seq<u16> {
    Seq::new(count as nat, |i: int| half_at(s, 2 * i))
}

/// The words that a run-length coded payload stands for: as `rle_bytes`,
/// with words of two bytes in place of the bytes that follow a control byte.
pub open spec fn rle_words(s: Seq<u8>) -> Result<Seq<u16>, DecodeError>
    decreases s.len(),
{
    if s.len() == 0 {
        Ok(Seq::empty())
    } else if s[0] > 0x80 {
        if s.len() < 3 {
            Err(truncated())
        } else {
            match rle_words(s.skip(3)) {
                Err(e) => Err(e),
                Ok(rest) => Ok(run_of(half_at(s, 1), s[0] - 0x80) + rest),
            }
        }
    } else {
        if s.len() < 1 + 2 * s[0] {
            Err(truncated())
        } else {
            match rle_words(s.skip(1 + 2 * s[0])) {
                Err(e) => Err(e),
                Ok(rest) => Ok(words_of(s.skip(1), s[0] as int) + rest),
            }
        }
    }
}

/// The channel of run-length coded bytes that `s` holds.
pub open spec fn common_decoded_of(s: Seq<u8>) -> Result<ChannelView<u8>, DecodeError> {
    match preamble_of(s) {
        Err(e) => Err(e),
        Ok(preamble) => match rle_bytes(s.skip(21)) {
            Err(e) => Err(e),
            Ok(data) => if data.len() != preamble.length {
                Err(length_mismatch())
            } else {
                Ok(ChannelView { preamble, data })
            },
        },
    }
}

/// The channel of run-length coded words that `s` holds. The preamble counts
/// bytes, two for every element.
pub open spec fn common_decoded2_of(s: Seq<u8>) -> Result<ChannelView<u16>, DecodeError> {
    match preamble_of(s) {
        Err(e) => Err(e),
        Ok(preamble) => match rle_words(s.skip(21)) {
            Err(e) => Err(e),
            Ok(data) => if data.len() != preamble.length / 2 {
                Err(length_mismatch())
            } else {
                Ok(
                    ChannelView {
                        preamble: PreambleView { length: (preamble.length / 2) as u32, ..preamble },
                        data,
                    },
                )
            },
        },
    }
}

/// The channel of plain bytes that `s` holds: the payload is the data, and
/// holds as many bytes as the preamble counts.
pub open spec fn raw_decoded_of(s: Seq<u8>) -> Result<ChannelView<u8>, DecodeError> {
    match preamble_of(s) {
        Err(e) => Err(e),
        Ok(preamble) => if s.len() - 21 != preamble.length {
            Err(length_mismatch())
        } else {
            Ok(ChannelView { preamble, data: s.skip(21) })
        },
    }
}

/// The first `count` entries of a dictionary, and the bytes after them.
/// An entry is a short string and one byte of padding.
pub open spec fn dictionary_entries(s: Seq<u8>, count: nat) -> Result<
    (Seq<Seq<char>>, Seq<u8>),
    DecodeError,
>
    decreases count,
{
    if count == 0 {
        Ok((Seq::empty(), s))
    } else {
        match short_string_of(s) {
            Err(e) => Err(e),
            Ok((text, size)) => if s.len() < size + 1 {
                Err(truncated())
            } else {
                match dictionary_entries(s.skip(size + 1), (count - 1) as nat) {
                    Err(e) => Err(e),
                    Ok((texts, rest)) => Ok((seq![text] + texts, rest)),
                }
            },
        }
    }
}

/// The dictionary that `s` holds: a count of four bytes, then that many
/// entries and nothing after them.
pub open spec fn dictionary_of(s: Seq<u8>) -> Result<Seq<Seq<char>>, DecodeError> {
    if s.len() < 4 {
        Err(truncated())
    } else {
        match dictionary_entries(s.skip(4), le_u32_of(s) as nat) {
            Err(e) => Err(e),
            Ok((texts, rest)) => if rest.len() != 0 {
                Err(length_mismatch())
            } else {
                Ok(texts)
            },
        }
    }
}

/// The size section that `s` holds: the width and the height, four bytes
/// each.
pub open spec fn hoixzisl_of(s: Seq<u8>) -> Result<HoixzislData, DecodeError> {
    if s.len() < 8 {
        Err(truncated())
    } else {
        Ok(HoixzislData { width: le_u32_of(s) as u32, height: le_u32_of(s.skip(4)) as u32 })
    }
}

/// The texts of a vector of strings.
pub open spec fn texts_of(strings: Seq<String>) -> Seq<Seq<char>> {
    Seq::new(strings.len(), |i: int| strings[i]@)
}

/// Reads the preamble of a channel.
pub fn read_preamble(view: &mut ByteCursor) -> (r: Result<Preamble, DecodeError>)
    ensures
        match preamble_of(old(view)@) {
            Ok(p) => r is Ok && r.unwrap()@ == p && final(view)@ == old(view)@.skip(21),
            Err(e) => r == Err::<Preamble, DecodeError>(e),
        },
{
    if view.remaining() < 21 {
        return Err(DecodeError::Malformed(StructuralError::Truncated));
    }
    let ghost s = view@;
    let unk1: u8 = view.read_u8()?;
    let unk_len: u32 = view.read_u32()?;
    assert(view@ =~= s.skip(5));
    assert(view@.take(8) =~= s.subrange(5, 13));
    let unk_magic: String = read_fixed_string(view, 8)?;
    assert(view@ =~= s.skip(13));
    let length: u32 = view.read_u32()?;
    assert(view@ =~= s.skip(17));
    let unk_len_dup: u32 = view.read_u32()?;
    assert(view@ =~= s.skip(21));
    if unk_len != unk_len_dup {
        return Err(DecodeError::Malformed(StructuralError::HeaderMismatch));
    }
    Ok(Preamble { unk1, unk_len, unk_magic, length, unk_len_dup })
}

/// Expands a payload of run-length coded bytes.
pub fn expand_bytes(payload: &[u8]) -> (r: Result<Vec<u8>, DecodeError>)
    ensures
        match rle_bytes(payload@) {
            Ok(data) => r is Ok && r.unwrap()@ == data,
            Err(e) => r == Err::<Vec<u8>, DecodeError>(e),
        },
{
    let n: usize = payload.len();
    let mut data: Vec<u8> = Vec::new();
    let mut pos: usize = 0;
    assert(payload@.skip(0) =~= payload@);
    while pos < n
        invariant
            pos <= n,
            n == payload@.len(),
            match rle_bytes(payload@.skip(pos as int)) {
                Ok(rest) => rle_bytes(payload@) == Ok::<Seq<u8>, DecodeError>(data@ + rest),
                Err(e) => rle_bytes(payload@) == Err::<Seq<u8>, DecodeError>(e),
            },
        decreases n - pos,
    {
        let ghost s = payload@.skip(pos as int);
        let ghost before = data@;
        let head: u8 = payload[pos];
        if head > 0x80 {
            if n - pos < 2 {
                return Err(DecodeError::Malformed(StructuralError::Truncated));
            }
            let value: u8 = payload[pos + 1];
            let count: u8 = head - 0x80;
            let mut i: u8 = 0;
            while i < count
                invariant
                    i <= count,
                    data@ == before + run_of(value, i as int),
                decreases count - i,
            {
                data.push(value);
                i = i + 1;
                assert(data@ =~= before + run_of(value, i as int));
            }
            proof {
                assert(s.skip(2) =~= payload@.skip(pos + 2));
                match rle_bytes(s.skip(2)) {
                    Ok(rest) => {
                        assert((before + run_of(value, count as int)) + rest =~= before + (run_of(
                            value,
                            count as int,
                        ) + rest));
                    },
                    Err(e) => {},
                }
            }
            pos = pos + 2;
        } else {
            let count: usize = head as usize;
            if n - pos < 1 + count {
                return Err(DecodeError::Malformed(StructuralError::Truncated));
            }
            let mut i: usize = 0;
            while i < count
                invariant
                    i <= count,
                    pos + 1 + count <= n,
                    n == payload@.len(),
                    data@ == before + payload@.subrange(pos + 1, pos + 1 + i),
                decreases count - i,
            {
                data.push(payload[pos + 1 + i]);
                i = i + 1;
                assert(data@ =~= before + payload@.subrange(pos + 1, pos + 1 + i));
            }
            proof {
                assert(s.skip(1 + count) =~= payload@.skip(pos + 1 + count));
                assert(s.subrange(1, 1 + count) =~= payload@.subrange(pos + 1, pos + 1 + count));
                match rle_bytes(s.skip(1 + count)) {
                    Ok(rest) => {
                        assert((before + s.subrange(1, 1 + count)) + rest =~= before + (s.subrange(
                            1,
                            1 + count,
                        ) + rest));
                    },
                    Err(e) => {},
                }
            }
            pos = pos + 1 + count;
        }
    }
    assert(data@ + Seq::<u8>::empty() =~= data@);
    Ok(data)
}

/// Expands a payload of run-length coded 16-bit words.
pub fn expand_words(payload: &[u8]) -> (r: Result<Vec<u16>, DecodeError>)
    ensures
        match rle_words(payload@) {
            Ok(data) => r is Ok && r.unwrap()@ == data,
            Err(e) => r == Err::<Vec<u16>, DecodeError>(e),
        },
{
    let n: usize = payload.len();
    let mut data: Vec<u16> = Vec::new();
    let mut pos: usize = 0;
    assert(payload@.skip(0) =~= payload@);
    while pos < n
        invariant
            pos <= n,
            n == payload@.len(),
            match rle_words(payload@.skip(pos as int)) {
                Ok(rest) => rle_words(payload@) == Ok::<Seq<u16>, DecodeError>(data@ + rest),
                Err(e) => rle_words(payload@) == Err::<Seq<u16>, DecodeError>(e),
            },
        decreases n - pos,
    {
        let ghost s = payload@.skip(pos as int);
        let ghost before = data@;
        let head: u8 = payload[pos];
        if head > 0x80 {
            if n - pos < 3 {
                return Err(DecodeError::Malformed(StructuralError::Truncated));
            }
            let value: u16 = le_u16(slice_subrange(payload, pos + 1, pos + 3));
            assert(value == half_at(s, 1));
            let count: u8 = head - 0x80;
            let mut i: u8 = 0;
            while i < count
                invariant
                    i <= count,
                    data@ == before + run_of(value, i as int),
                decreases count - i,
            {
                data.push(value);
                i = i + 1;
                assert(data@ =~= before + run_of(value, i as int));
            }
            proof {
                assert(s.skip(3) =~= payload@.skip(pos + 3));
                match rle_words(s.skip(3)) {
                    Ok(rest) => {
                        assert((before + run_of(value, count as int)) + rest =~= before + (run_of(
                            value,
                            count as int,
                        ) + rest));
                    },
                    Err(e) => {},
                }
            }
            pos = pos + 3;
        } else {
            let count: usize = head as usize;
            if n - pos < 1 + 2 * count {
                return Err(DecodeError::Malformed(StructuralError::Truncated));
            }
            let mut i: usize = 0;
            while i < count
                invariant
                    i <= count,
                    count <= 0x80,
                    pos + 1 + 2 * count <= n,
                    n == payload@.len(),
                    s == payload@.skip(pos as int),
                    data@ == before + words_of(s.skip(1), i as int),
                decreases count - i,
            {
                let at: usize = pos + 1 + 2 * i;
                let value: u16 = le_u16(slice_subrange(payload, at, at + 2));
                assert(value == half_at(s.skip(1), 2 * i));
                data.push(value);
                i = i + 1;
                assert(data@ =~= before + words_of(s.skip(1), i as int));
            }
            proof {
                assert(s.skip(1 + 2 * count) =~= payload@.skip(pos + 1 + 2 * count));
                match rle_words(s.skip(1 + 2 * count)) {
                    Ok(rest) => {
                        assert((before + words_of(s.skip(1), count as int)) + rest =~= before + (
                        words_of(s.skip(1), count as int) + rest));
                    },
                    Err(e) => {},
                }
            }
            pos = pos + 1 + 2 * count;
        }
    }
    assert(data@ + Seq::<u16>::empty() =~= data@);
    Ok(data)
}

/// Reads what is left in the cursor.
fn read_rest(view: &mut ByteCursor) -> (rest: Vec<u8>)
    ensures
        rest@ == old(view)@,
        final(view)@.len() == 0,
{
    let n: usize = view.remaining();
    match view.read_vec(n) {
        Ok(rest) => {
            assert(rest@ =~= old(view)@);
            rest
        },
        Err(_) => Vec::new(),
    }
}

/// Decodes a channel of run-length coded bytes: the preamble, then runs up
/// to the end of the input. The channel must yield exactly as many bytes as
/// its preamble counts.
pub fn common_decoding(view: &mut ByteCursor) -> (r: Result<CommonDecoded, DecodeError>)
    ensures
        match common_decoded_of(old(view)@) {
            Ok(channel) => r is Ok && r.unwrap()@ == channel && r.unwrap().data@.len()
                == r.unwrap().length,
            Err(e) => r == Err::<CommonDecoded, DecodeError>(e),
        },
{
    let preamble: Preamble = read_preamble(view)?;
    let payload: Vec<u8> = read_rest(view);
    let data: Vec<u8> = expand_bytes(payload.as_slice())?;
    if data.len() != preamble.length as usize {
        return Err(DecodeError::Malformed(StructuralError::LengthMismatch));
    }
    Ok(
        CommonDecoded {
            unk1: preamble.unk1,
            unk_len: preamble.unk_len,
            unk_magic: preamble.unk_magic,
            length: preamble.length,
            unk_len_dup: preamble.unk_len_dup,
            data,
        },
    )
}

/// Decodes a channel of run-length coded 16-bit words: the preamble, then
/// runs up to the end of the input. The channel must yield exactly half as
/// many words as its preamble counts bytes.
pub fn common_decoding2(view: &mut ByteCursor) -> (r: Result<CommonDecoded2, DecodeError>)
    ensures
        match common_decoded2_of(old(view)@) {
            Ok(channel) => r is Ok && r.unwrap()@ == channel && r.unwrap().data@.len()
                == r.unwrap().length,
            Err(e) => r == Err::<CommonDecoded2, DecodeError>(e),
        },
{
    let preamble: Preamble = read_preamble(view)?;
    let payload: Vec<u8> = read_rest(view);
    let data: Vec<u16> = expand_words(payload.as_slice())?;
    let length: u32 = preamble.length / 2;
    if data.len() != length as usize {
        return Err(DecodeError::Malformed(StructuralError::LengthMismatch));
    }
    Ok(
        CommonDecoded2 {
            unk1: preamble.unk1,
            unk_len: preamble.unk_len,
            unk_magic: preamble.unk_magic,
            length,
            unk_len_dup: preamble.unk_len_dup,
            data,
        },
    )
}

/// Decodes a channel of plain bytes: the preamble, then the data. The input
/// must hold exactly as many bytes after the preamble as the preamble counts.
pub fn raw(view: &mut ByteCursor) -> (r: Result<RawDecoded, DecodeError>)
    ensures
        match raw_decoded_of(old(view)@) {
            Ok(channel) => r is Ok && r.unwrap()@ == channel && r.unwrap().data@.len()
                == r.unwrap().length,
            Err(e) => r == Err::<RawDecoded, DecodeError>(e),
        },
{
    let preamble: Preamble = read_preamble(view)?;
    if view.remaining() != preamble.length as usize {
        return Err(DecodeError::Malformed(StructuralError::LengthMismatch));
    }
    let data: Vec<u8> = read_rest(view);
    Ok(
        RawDecoded {
            unk1: preamble.unk1,
            data_len: preamble.unk_len,
            unk_magic: preamble.unk_magic,
            length: preamble.length,
            unk_len_dup: preamble.unk_len_dup,
            data,
        },
    )
}

/// Decodes a dictionary: a count, then that many short strings, each
/// followed by one byte of padding. The input must end with the last entry.
pub fn dictionary(view: &mut ByteCursor) -> (r: Result<Vec<String>, DecodeError>)
    ensures
        match dictionary_of(old(view)@) {
            Ok(texts) => r is Ok && texts_of(r.unwrap()@) == texts,
            Err(e) => r == Err::<Vec<String>, DecodeError>(e),
        },
{
    let ghost s = view@;
    let len: u32 = view.read_u32()?;
    let ghost target = dictionary_entries(s.skip(4), len as nat);
    let mut dictionary: Vec<String> = Vec::new();
    let mut i: u32 = 0;
    while i < len
        invariant
            i <= len,
            s == old(view)@,
            s.len() >= 4,
            len == le_u32_of(s),
            target == dictionary_entries(s.skip(4), len as nat),
            match dictionary_entries(view@, (len - i) as nat) {
                Ok((texts, rest)) => target == Ok::<(Seq<Seq<char>>, Seq<u8>), DecodeError>(
                    (texts_of(dictionary@) + texts, rest),
                ),
                Err(e) => target == Err::<(Seq<Seq<char>>, Seq<u8>), DecodeError>(e),
            },
        decreases len - i,
    {
        let ghost here = view@;
        let ghost before = texts_of(dictionary@);
        let text: String = read_short_string(view)?;
        let ghost size = 1 + here[0] as int;
        view.skip(1)?;
        proof {
            assert(view@ =~= here.skip(size + 1));
            match dictionary_entries(here.skip(size + 1), (len - i - 1) as nat) {
                Ok((texts, rest)) => {
                    assert((before + seq![text@]) + texts =~= before + (seq![text@] + texts));
                },
                Err(e) => {},
            }
        }
        dictionary.push(text);
        assert(texts_of(dictionary@) =~= before + seq![text@]);
        i = i + 1;
    }
    assert(texts_of(dictionary@) + Seq::<Seq<char>>::empty() =~= texts_of(dictionary@));
    if view.remaining() != 0 {
        return Err(DecodeError::Malformed(StructuralError::LengthMismatch));
    }
    Ok(dictionary)
}

/// Decodes the size section: the width and the height of the map.
pub fn hoixzisl_parse(view: &mut ByteCursor) -> (r: Result<HoixzislData, DecodeError>)
    ensures
        r == hoixzisl_of(old(view)@),
{
    if view.remaining() < 8 {
        return Err(DecodeError::Malformed(StructuralError::Truncated));
    }
    let width: u32 = view.read_u32()?;
    let height: u32 = view.read_u32()?;
    Ok(HoixzislData { width, height })
}

/// The entries of a dictionary are as many as were asked for.
pub proof fn lemma_dictionary_entries_count(s: Seq<u8>, count: nat)
    requires
        dictionary_entries(s, count) is Ok,
    ensures
        dictionary_entries(s, count).unwrap().0.len() == count,
    decreases count,
{
    if count > 0 {
        let size = short_string_of(s).unwrap().1;
        lemma_dictionary_entries_count(s.skip(size + 1), (count - 1) as nat);
    }
}

/// No codec truncates or pads: a channel that decodes holds exactly as many
/// elements as it declares, and a dictionary exactly as many entries as its
/// count says, with no byte left over.
pub proof fn lemma_decoded_count_is_declared(s: Seq<u8>)
    ensures
        common_decoded_of(s) matches Ok(channel) ==> channel.data.len()
            == channel.preamble.length && rle_bytes(s.skip(21)) == Ok::<Seq<u8>, DecodeError>(
            channel.data,
        ),
        common_decoded2_of(s) matches Ok(channel) ==> channel.data.len()
            == channel.preamble.length && rle_words(s.skip(21)) == Ok::<Seq<u16>, DecodeError>(
            channel.data,
        ),
        raw_decoded_of(s) matches Ok(channel) ==> channel.data.len() == channel.preamble.length
            && channel.data == s.skip(21),
        dictionary_of(s) matches Ok(texts) ==> texts.len() == le_u32_of(s) && dictionary_entries(
            s.skip(4),
            le_u32_of(s) as nat,
        ) == Ok::<(Seq<Seq<char>>, Seq<u8>), DecodeError>((texts, Seq::<u8>::empty())),
{
    if dictionary_of(s) is Ok {
        lemma_dictionary_entries_count(s.skip(4), le_u32_of(s) as nat);
        let found = dictionary_entries(s.skip(4), le_u32_of(s) as nat).unwrap();
        assert(found.1 =~= Seq::<u8>::empty());
    }
}

/// A payload whose element count differs from the declared one is rejected
/// by every codec, with a length mismatch.
pub proof fn lemma_wrong_count_is_rejected(s: Seq<u8>)
    ensures
        preamble_of(s) matches Ok(p) && rle_bytes(s.skip(21)) matches Ok(data) && data.len()
            != p.length ==> common_decoded_of(s) == Err::<ChannelView<u8>, DecodeError>(
            length_mismatch(),
        ),
        preamble_of(s) matches Ok(p) && rle_words(s.skip(21)) matches Ok(data) && data.len()
            != p.length / 2 ==> common_decoded2_of(s) == Err::<ChannelView<u16>, DecodeError>(
            length_mismatch(),
        ),
        preamble_of(s) matches Ok(p) && s.skip(21).len() != p.length ==> raw_decoded_of(s)
            == Err::<ChannelView<u8>, DecodeError>(length_mismatch()),
        dictionary_entries(s.skip(4), le_u32_of(s) as nat) matches Ok(found) && found.1.len() != 0
            && s.len() >= 4 ==> dictionary_of(s) == Err::<Seq<Seq<char>>, DecodeError>(
            length_mismatch(),
        ),
{
}

} // verus!
