//! Containers whose bytes a reader can borrow for the length of one operation.
use vstd::prelude::*;
use vstd::string::StringSliceAdditionalSpecFns;

verus! {

/// A value that can lend out its contents as a byte slice.
pub trait ByteSource {
    /// The bytes this value holds.
    spec fn byte_seq(&self) -> Seq<u8>;

    /// Borrows the bytes this value holds.
    fn as_byte_slice(&self) -> (r: &[u8])
        ensures
            r@ == self.byte_seq(),
    ;
}

impl ByteSource for [u8] {
    open spec fn byte_seq(&self) -> Seq<u8> {
        self@
    }

    fn as_byte_slice(&self) -> (r: &[u8]) {
        self
    }
}

impl ByteSource for Vec<u8> {
    open spec fn byte_seq(&self) -> Seq<u8> {
        self@
    }

    fn as_byte_slice(&self) -> (r: &[u8]) {
        self.as_slice()
    }
}

impl ByteSource for str {
    open spec fn byte_seq(&self) -> Seq<u8> {
        self.spec_bytes()
    }

    fn as_byte_slice(&self) -> (r: &[u8]) {
        self.as_bytes()
    }
}

} // verus!
