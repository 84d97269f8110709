//! The "unwrapped" test format: a six-byte little-endian header (decoder
//! number, width, height) followed by the payload of one decoder.

use vstd::prelude::*;
use crate::bits::{le_u16, LEu16};

verus! {

/// The header of an unwrapped file.
#[derive(Debug, Copy, Clone, PartialEq, Eq, Structural)]
pub struct UnwrappedHeader {
    pub decoder: u16,
    pub width: usize,
    pub height: usize,
}

/// Why an unwrapped file is refused.
#[derive(Debug, Copy, Clone, PartialEq, Eq, Structural)]
pub enum UnwrappedError {
    /// Fewer than six bytes.
    TooSmall,
    /// A side above 64 pixels.
    TooLarge(usize, usize),
    /// A side of zero pixels.
    ZeroDimension(usize, usize),
    /// No decoder has this number.
    NoSuchDecoder(u16),
}

/// Whether a decoder has the number `d`: 0 to 52, but 47.
pub open spec fn known_unwrapped_decoder(d: int) -> bool {
    0 <= d <= 52 && d != 47
}

/// The header of the unwrapped file `b`, checked: at most 64 x 64 pixels,
/// no side of zero, and a known decoder.
pub open spec fn spec_unwrapped_header(b: Seq<u8>) -> Result<UnwrappedHeader, UnwrappedError> {
    if b.len() < 6 {
        Err(UnwrappedError::TooSmall)
    } else {
        let d = le_u16(b, 0);
        let w = le_u16(b, 2) as usize;
        let h = le_u16(b, 4) as usize;
        if w > 64 || h > 64 {
            Err(UnwrappedError::TooLarge(w, h))
        } else if w == 0 || h == 0 {
            Err(UnwrappedError::ZeroDimension(w, h))
        } else if !known_unwrapped_decoder(d) {
            Err(UnwrappedError::NoSuchDecoder(d as u16))
        } else {
            Ok(UnwrappedHeader { decoder: d as u16, width: w, height: h })
        }
    }
}

/// Read and check the header of an unwrapped file (see
/// `spec_unwrapped_header`); the payload starts at byte 6.
pub fn unwrapped_header(buf: &[u8]) -> (r: Result<UnwrappedHeader, UnwrappedError>)
    ensures
        r == spec_unwrapped_header(buf@),
{
    if buf.len() < 6 {
        return Err(UnwrappedError::TooSmall);
    }
    let decoder = LEu16(buf, 0);
    let width = LEu16(buf, 2) as usize;
    let height = LEu16(buf, 4) as usize;
    if width > 64 || height > 64 {
        return Err(UnwrappedError::TooLarge(width, height));
    }
    if width == 0 || height == 0 {
        return Err(UnwrappedError::ZeroDimension(width, height));
    }
    if decoder > 52 || decoder == 47 {
        return Err(UnwrappedError::NoSuchDecoder(decoder));
    }
    Ok(UnwrappedHeader { decoder, width, height })
}

/// A header is accepted exactly when the file has six bytes, both sides
/// lie in `1..=64` and the decoder number is one of 0 to 52 but 47; the
/// accepted header holds the three little-endian words as stored.
pub proof fn lemma_unwrapped_acceptance(b: Seq<u8>)
    ensures
        spec_unwrapped_header(b) is Ok <==> (b.len() >= 6 && 1 <= le_u16(b, 2) <= 64 && 1 <= le_u16(b, 4) <= 64
            && le_u16(b, 0) <= 52 && le_u16(b, 0) != 47),
        spec_unwrapped_header(b) matches Ok(h) ==> h.decoder as int == b[0] + b[1] * 256 && h.width as int
            == b[2] + b[3] * 256 && h.height as int == b[4] + b[5] * 256,
{
}

} // verus!
