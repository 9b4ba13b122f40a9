//! The keystream transform that hides the two tables of a definition
//! container.
//!
//! The keystream has no key: every table starts from the same state. Byte `i`
//! of a table is combined with `key_c(i)`, which depends on `i` alone.

use vstd::prelude::*;

verus! {

/// The step byte of the keystream at position `i`: it starts at 126 and grows
/// by 33 with every byte, modulo 256.
pub open spec fn key_d(i: nat) -> u8
    decreases i,
{
    if i == 0 {
        126u8
    } else {
        ((key_d((i - 1) as nat) as int + 33) % 256) as u8
    }
}

/// The mask byte of the keystream at position `i`: it starts at 71 and grows
/// by the step byte with every byte, modulo 256.
pub open spec fn key_c(i: nat) -> u8
    decreases i,
{
    if i == 0 {
        71u8
    } else {
        ((key_c((i - 1) as nat) as int + key_d((i - 1) as nat) as int) % 256) as u8
    }
}

/// One enciphered byte made plain: one is taken off, modulo 256, and the
/// result is combined with the mask.
pub open spec fn decipher_byte(x: u8, mask: u8) -> u8 {
    (if x == 0 { 255u8 } else { (x - 1) as u8 }) ^ mask
}

/// One plain byte enciphered: the inverse of `decipher_byte` under one mask.
pub open spec fn encipher_byte(y: u8, mask: u8) -> u8 {
    let t = y ^ mask;
    if t == 255 { 0u8 } else { (t + 1) as u8 }
}

/// A whole table made plain.
pub open spec fn deciphered(s: Seq<u8>) -> Seq<u8> {
    Seq::new(s.len(), |i: int| decipher_byte(s[i], key_c(i as nat)))
}

/// A whole table enciphered.
pub open spec fn enciphered(s: Seq<u8>) -> Seq<u8> {
    Seq::new(s.len(), |i: int| encipher_byte(s[i], key_c(i as nat)))
}

/// Deciphering undoes enciphering, byte by byte.
pub proof fn lemma_byte_round_trip(y: u8, mask: u8)
    ensures
        decipher_byte(encipher_byte(y, mask), mask) == y,
        encipher_byte(decipher_byte(y, mask), mask) == y,
{
    assert((y ^ mask) ^ mask == y) by (bit_vector);
    let t = y ^ mask;
    let u = if y == 0 { 255u8 } else { (y - 1) as u8 };
    assert((u ^ mask) ^ mask == u) by (bit_vector);
}

/// Deciphering an enciphered table gives the table back, whatever it holds.
pub proof fn lemma_decipher_inverts_encipher(b: Seq<u8>)
    ensures
        deciphered(enciphered(b)) == b,
{
    assert forall|i: int| 0 <= i < b.len() implies deciphered(enciphered(b))[i] == b[i] by {
        lemma_byte_round_trip(b[i], key_c(i as nat));
    }
    assert(deciphered(enciphered(b)) =~= b);
}

/// Enciphering a deciphered table gives the table back, whatever it holds.
pub proof fn lemma_encipher_inverts_decipher(b: Seq<u8>)
    ensures
        enciphered(deciphered(b)) == b,
{
    assert forall|i: int| 0 <= i < b.len() implies enciphered(deciphered(b))[i] == b[i] by {
        lemma_byte_round_trip(b[i], key_c(i as nat));
    }
    assert(enciphered(deciphered(b)) =~= b);
}

/// The mask byte that follows `mask` under the step byte `step`.
fn next_mask(mask: u8, step: u8) -> (r: u8)
    ensures
        r as int == (mask as int + step as int) % 256,
{
    let wide: u16 = mask as u16 + step as u16;
    if wide >= 256 {
        (wide - 256) as u8
    } else {
        wide as u8
    }
}

/// Makes an enciphered table plain, in place.
#[allow(non_snake_case)]
pub fn decode_cif(data: &mut Vec<u8>)
    ensures
        final(data)@ == deciphered(old(data)@),
{
    let ghost orig = data@;
    let n: usize = data.len();
    let mut C: u8 = 71;
    let mut D: u8 = 126;
    let mut i: usize = 0;
    while i < n
        invariant
            i <= n,
            n == orig.len(),
            data@.len() == n,
            C == key_c(i as nat),
            D == key_d(i as nat),
            forall|j: int| 0 <= j < i ==> data@[j] == decipher_byte(orig[j], key_c(j as nat)),
            forall|j: int| i <= j < n ==> data@[j] == orig[j],
        decreases n - i,
    {
        let x: u8 = data[i];
        let lowered: u8 = if x == 0 { 255 } else { x - 1 };
        let B: u8 = lowered ^ C;
        data.set(i, B);
        C = next_mask(C, D);
        D = next_mask(D, 33);
        i = i + 1;
    }
    assert(data@ =~= deciphered(orig));
}

/// Enciphers a plain table, in place: the inverse of `decode_cif`.
pub fn encode_cif(data: &mut Vec<u8>)
    ensures
        final(data)@ == enciphered(old(data)@),
{
    let ghost orig = data@;
    let n: usize = data.len();
    let mut mask: u8 = 71;
    let mut step: u8 = 126;
    let mut i: usize = 0;
    while i < n
        invariant
            i <= n,
            n == orig.len(),
            data@.len() == n,
            mask == key_c(i as nat),
            step == key_d(i as nat),
            forall|j: int| 0 <= j < i ==> data@[j] == encipher_byte(orig[j], key_c(j as nat)),
            forall|j: int| i <= j < n ==> data@[j] == orig[j],
        decreases n - i,
    {
        let t: u8 = data[i] ^ mask;
        let raised: u8 = if t == 255 { 0 } else { t + 1 };
        data.set(i, raised);
        mask = next_mask(mask, step);
        step = next_mask(step, 33);
        i = i + 1;
    }
    assert(data@ =~= enciphered(orig));
}

} // verus!
