//! The binary payload handed back to the interface layer.

use vstd::prelude::*;

verus! {

/// An opaque binary response: the raw bytes of the ingested file, owned
/// exclusively by the holder. The bytes are not interpreted here —
/// rendering or decoding them is the interface layer's concern — and the
/// buffer is released whole to whoever consumes the response.
pub struct BinaryResponse {
    bytes: Vec<u8>,
}

impl View for BinaryResponse {
    type V = Seq<u8>;

    closed spec fn view(&self) -> Seq<u8> {
        self.bytes@
    }
}

impl BinaryResponse {
    /// Wraps an owned byte buffer as a response, byte for byte.
    pub fn new(bytes: Vec<u8>) -> (r: BinaryResponse)
        ensures
            r@ == bytes@,
    {
        BinaryResponse { bytes }
    }

    /// Releases the payload: ownership of the buffer transfers to the
    /// caller and the response retains nothing.
    pub fn into_bytes(self) -> (r: Vec<u8>)
        ensures
            r@ == self@,
    {
        self.bytes
    }

    /// The payload's length in bytes.
    pub fn len(&self) -> (n: usize)
        ensures
            n == self@.len(),
    {
        self.bytes.len()
    }
}

} // verus!
