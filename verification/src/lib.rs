//! A verified reader for 32-bit ELF images.
//!
//! The library decodes the three structural components of an ELF32 file —
//! the file header, the program header table and the section header table —
//! from an in-memory byte buffer, and extracts the raw on-disk bytes of a
//! program segment. All decoding is little-endian, field by field; every
//! function carries a contract that pins the decoded values to the bytes of
//! the buffer.

pub mod codec;
pub mod errors;
pub mod headers;
pub mod image;
pub mod laws;
