//! An image held in memory with room to spare at its end.

use vstd::prelude::*;

verus! {

/// Where the bytes of a padded buffer live.
pub enum PaddedBufImpl<'a> {
    Owned(Vec<u8>),
    Ref(&'a [u8]),
}

/// Bytes of an image, of which the first `size` are the image data and
/// the rest padding.
pub struct PaddedBuf<'a> {
    buf: PaddedBufImpl<'a>,
    size: usize,
}

impl<'a> PaddedBuf<'a> {
    /// All the bytes held, padding included.
    pub closed spec fn bytes(&self) -> Seq<u8> {
        match self.buf {
            PaddedBufImpl::Owned(v) => v@,
            PaddedBufImpl::Ref(r) => r@,
        }
    }

    /// The size of the image data.
    pub closed spec fn spec_size(&self) -> usize {
        self.size
    }

    pub fn new_owned(buf: Vec<u8>, size: usize) -> (r: PaddedBuf<'a>)
        ensures
            r.bytes() == buf@,
            r.spec_size() == size,
    {
        PaddedBuf { buf: PaddedBufImpl::Owned(buf), size }
    }

    pub fn new_ref(buf: &'a [u8], size: usize) -> (r: PaddedBuf<'a>)
        ensures
            r.bytes() == buf@,
            r.spec_size() == size,
    {
        PaddedBuf { buf: PaddedBufImpl::Ref(buf), size }
    }

    /// The size of the image data.
    pub fn size(&self) -> (r: usize)
        ensures
            r == self.spec_size(),
    {
        self.size
    }

    /// All the bytes held, padding included.
    pub fn buf(&self) -> (r: &[u8])
        ensures
            r@ == self.bytes(),
    {
        match &self.buf {
            PaddedBufImpl::Owned(x) => x.as_slice(),
            PaddedBufImpl::Ref(x) => x,
        }
    }

    /// How many bytes are held, padding included.
    pub fn real_size(&self) -> (r: usize)
        ensures
            r == self.bytes().len(),
    {
        self.buf().len()
    }
}

impl<'a> std::ops::Deref for PaddedBuf<'a> {
    type Target = [u8];

    /// All the bytes held, padding included (as `buf` gives them).
    fn deref(&self) -> (r: &[u8])
        ensures
            r@ == self.bytes(),
    {
        self.buf()
    }
}

} // verus!
