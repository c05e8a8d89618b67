//! Codec for the fixed twelve-octet header of a DNS message.
//!
//! `format::header` holds the header aggregate with its decoder and encoder,
//! `header::one_bit_flag` the single-bit flags it is built from, `wire` the
//! big-endian word transfer and `text` the rendering of numbers as text.

pub mod format;
pub mod header;
pub mod text;
pub mod wire;
