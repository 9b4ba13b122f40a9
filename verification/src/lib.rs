//! Decoders for the binary asset formats of a 2D strategy game engine:
//! the enciphered definition container (CIF), the tagged map container,
//! the sprite animation container (BMD) and the indexed-colour image (PCX).
//!
//! Every decoder is a pure function over an in-memory byte buffer. Its
//! contract states the decoded value, or the error, as a function of the
//! input bytes.

pub mod error;
pub mod endian;
pub mod cipher;
pub mod reader;
pub mod bmd;
pub mod codec;
pub mod map;
pub mod cif;
pub mod pcx;
pub mod archive;
