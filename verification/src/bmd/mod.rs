//! The sprite animation container: a frame directory, a pixel pool and a
//! row directory, and the decoding of one frame into RGBA pixels.

pub mod layout;
pub mod frame;
pub mod laws;
