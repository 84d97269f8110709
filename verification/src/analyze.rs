//! What the analyzer reports of a file, and the image dumps it writes.

use vstd::prelude::*;
use crate::rational::{Rational, SRational};
use crate::text::{decimal_bytes, push_decimal_bytes};

verus! {

/// Exposure and lens data of a capture.
#[derive(Clone, Debug, PartialEq, Eq)]
pub struct CaptureInfo {
    pub make: String,
    pub model: String,
    pub exposure_time: Option<Rational>,
    pub shutter_speed: Option<SRational>,
    pub exposure_bias: Option<SRational>,
    pub lens_make: Option<String>,
    pub lens_model: Option<String>,
    pub lens_spec: Option<[Rational; 4]>,
}

/// The header of an 8-bit binary PPM image: `P6 <width> <height> 255` and a
/// newline.
pub open spec fn ppm8_header(width: nat, height: nat) -> Seq<u8> {
    seq![0x50u8, 0x36u8, 0x20u8] + decimal_bytes(width) + seq![0x20u8] + decimal_bytes(height) + seq![
        0x20u8,
        0x32u8,
        0x35u8,
        0x35u8,
        0x0au8,
    ]
}

/// RGB pixel data with 8 bits per sample as a binary PPM image: the
/// header, then the pixel bytes as they are.
pub fn rgb8_as_ppm8(width: usize, height: usize, buf: &[u8]) -> (r: Vec<u8>)
    ensures
        r@ == ppm8_header(width as nat, height as nat) + buf@,
{
    let mut out: Vec<u8> = Vec::new();
    out.push(0x50);
    out.push(0x36);
    out.push(0x20);
    push_decimal_bytes(&mut out, width);
    out.push(0x20);
    push_decimal_bytes(&mut out, height);
    out.push(0x20);
    out.push(0x32);
    out.push(0x35);
    out.push(0x35);
    out.push(0x0a);
    assert(out@ =~= ppm8_header(width as nat, height as nat));
    let ghost header = out@;
    for i in 0..buf.len()
        invariant
            header == ppm8_header(width as nat, height as nat),
            out@ == header + buf@.subrange(0, i as int),
    {
        out.push(buf[i]);
        assert(out@ =~= header + buf@.subrange(0, i + 1));
    }
    assert(buf@.subrange(0, buf@.len() as int) =~= buf@);
    out
}

} // verus!
