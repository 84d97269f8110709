//! Verified building blocks of a camera RAW decoding library: bit arrays,
//! byte-order readers, color filter array patterns and format detection.

pub mod analyze;
pub mod bits;
pub mod bitarray;
pub mod buffer;
pub mod cfa;
pub mod decoders;
pub mod rational;
pub mod text;
pub mod float_widening;
