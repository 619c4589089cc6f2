//! Owned byte buffers crossing the call boundary.

use vstd::prelude::*;

verus! {

/// An owned byte sequence crossing the call boundary. A valid buffer
/// carries data (possibly empty) and has exactly one owner; an invalid
/// buffer is the null sentinel that read operations return when the
/// database handle itself was invalid.
pub struct KvBuffer {
    data: Vec<u8>,
    valid: bool,
}

impl KvBuffer {
    /// The bytes this buffer carries.
    pub closed spec fn view(&self) -> Seq<u8> {
        self.data@
    }

    /// Whether this buffer is a real byte sequence rather than the
    /// null sentinel.
    pub closed spec fn is_valid(&self) -> bool {
        self.valid
    }

    /// A valid, zero-length buffer: what a successful lookup of an
    /// absent key returns.
    pub fn empty() -> (r: KvBuffer)
        ensures
            r.is_valid(),
            r@ == Seq::<u8>::empty(),
    {
        KvBuffer { data: Vec::new(), valid: true }
    }

    /// A valid buffer taking ownership of the given bytes.
    pub fn from_vec(vec: Vec<u8>) -> (r: KvBuffer)
        ensures
            r.is_valid(),
            r@ == vec@,
    {
        KvBuffer { data: vec, valid: true }
    }

    /// The null sentinel: an invalid buffer signalling failure.
    pub fn null() -> (r: KvBuffer)
        ensures
            !r.is_valid(),
            r@ == Seq::<u8>::empty(),
    {
        KvBuffer { data: Vec::new(), valid: false }
    }

    /// Whether this buffer is valid, for callers checking before use.
    pub fn valid(&self) -> (b: bool)
        ensures
            b == self.is_valid(),
    {
        self.valid
    }

    /// Borrows the bytes without giving up ownership.
    pub fn as_bytes(&self) -> (r: &[u8])
        ensures
            r@ == self@,
    {
        self.data.as_slice()
    }

    /// Consumes the buffer, handing its bytes to the caller: ownership
    /// transfer is the only way a buffer is released.
    pub fn into_vec(self) -> (v: Vec<u8>)
        ensures
            v@ == self@,
    {
        self.data
    }
}

} // verus!
