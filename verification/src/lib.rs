//! Decoder for the XAC chunk-based binary container: a skeletal actor
//! (node hierarchy, meshes, materials, shader materials, metadata) is
//! reconstructed from a byte stream.
//!
//! Every decode routine is verified against a specification-level parser
//! over the byte sequence (`spec_format`), so the executable decoder and
//! the mathematical description of the format cannot drift apart.
//!
//! Scalars that the format stores as 32-bit IEEE floats are carried as
//! their raw little-endian bit patterns (`u32`); the decoder never
//! interprets them arithmetically. Strings are carried as their exact
//! on-disk bytes, one byte per code unit.

pub mod codec;
pub mod hierarchy;
pub mod laws;
pub mod materials;
pub mod mesh;
pub mod model;
pub mod parser;
pub mod spec_format;
