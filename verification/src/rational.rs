//! Rational numbers as TIFF and EXIF store them: a numerator and a
//! denominator, kept as they were read.

use vstd::prelude::*;

verus! {

/// An unsigned rational number.
#[derive(Clone, Copy, Debug, PartialEq, Eq, Structural)]
pub struct Rational {
    pub n: u32,
    pub d: u32,
}

impl Rational {
    pub fn new(n: u32, d: u32) -> (r: Rational)
        ensures
            r.n == n,
            r.d == d,
    {
        Rational { n, d }
    }
}

/// A signed rational number.
#[derive(Clone, Copy, Debug, PartialEq, Eq, Structural)]
pub struct SRational {
    pub n: i32,
    pub d: i32,
}

impl SRational {
    pub fn new(n: i32, d: i32) -> (r: SRational)
        ensures
            r.n == n,
            r.d == d,
    {
        SRational { n, d }
    }
}

} // verus!
