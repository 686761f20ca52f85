//! A reader over a buffer shared through `Arc`, which may cross threads.
use std::sync::Arc;
use vstd::prelude::*;

use crate::cursor::{
    advance, consume_outcome, exact_outcome, read_at, read_outcome, read_rest_at, remaining,
    rest_outcome, seek_outcome, seek_position, tail, ReaderError, SeekFrom,
};
use crate::source::ByteSource;

verus! {

/// A reader with a private position over a buffer shared through `Arc`, which may cross threads.
pub struct ArcU8Reader<T: ByteSource + ?Sized> {
    data: Arc<T>,
    pos: usize,
}

impl<T: ByteSource + ?Sized> ArcU8Reader<T> {
    /// The bytes of the underlying buffer.
    pub closed spec fn buffer(&self) -> Seq<u8> {
        (*self.data).byte_seq()
    }

    /// The current position.
    pub closed spec fn pos(&self) -> usize {
        self.pos
    }

    /// Creates a reader at position 0.
    pub fn new(data: Arc<T>) -> (r: ArcU8Reader<T>)
        ensures
            r.buffer() == (*data).byte_seq(),
            r.pos() == 0,
    {
        ArcU8Reader { data, pos: 0 }
    }

    /// The current position.
    pub fn position(&self) -> (r: usize)
        ensures
            r == self.pos(),
    {
        self.pos
    }

    /// The shared buffer this reader reads from.
    pub fn get_ref(&self) -> (r: &Arc<T>)
        ensures
            (**r).byte_seq() == self.buffer(),
    {
        &self.data
    }

    /// The bytes from the current position to the end, without moving.
    pub fn fill_buf(&self) -> (r: &[u8])
        ensures
            r@ == remaining(self.buffer(), self.pos() as int),
    {
        tail((*self.data).as_byte_slice(), self.pos)
    }
    /// Advances the position by `amt` bytes, as after using that much of
    /// `fill_buf`; fails with `InvalidSeek` when the position would overflow.
    pub fn consume(&mut self, amt: usize) -> (r: Result<(), ReaderError>)
        ensures
            final(self).buffer() == old(self).buffer(),
            consume_outcome(old(self).pos(), amt, r, final(self).pos()),
    {
        match advance(self.pos, amt) {
            Ok(t) => {
                self.pos = t;
                Ok(())
            },
            Err(e) => Err(e),
        }
    }

    /// Copies as many of the remaining bytes as fit into `dst`, moves past them,
    /// and returns how many were copied; 0 once the end is reached.
    pub fn read(&mut self, dst: &mut [u8]) -> (n: usize)
        ensures
            final(self).buffer() == old(self).buffer(),
            read_outcome(old(self).buffer(), old(self).pos(), old(dst)@, n, final(dst)@, final(self).pos()),
    {
        let n = read_at((*self.data).as_byte_slice(), self.pos, dst);
        self.pos = self.pos + n;
        n
    }

    /// Fills `dst` completely from the remaining bytes, or fails with
    /// `UnexpectedEof` after taking the bytes that were left.
    pub fn read_exact(&mut self, dst: &mut [u8]) -> (r: Result<(), ReaderError>)
        ensures
            final(self).buffer() == old(self).buffer(),
            exact_outcome(old(self).buffer(), old(self).pos(), old(dst)@, r, final(dst)@, final(self).pos()),
    {
        let want = dst.len();
        let n = self.read(dst);
        if n == want {
            Ok(())
        } else {
            Err(ReaderError::UnexpectedEof)
        }
    }

    /// Appends every remaining byte to `buf`, moves to the end, and returns how
    /// many bytes were appended.
    pub fn read_to_end(&mut self, buf: &mut Vec<u8>) -> (n: usize)
        ensures
            final(self).buffer() == old(self).buffer(),
            rest_outcome(old(self).buffer(), old(self).pos(), old(buf)@, n, final(buf)@, final(self).pos()),
    {
        let n = read_rest_at((*self.data).as_byte_slice(), self.pos, buf);
        self.pos = self.pos + n;
        n
    }

    /// Moves to the position `style` names and returns it; fails with
    /// `InvalidSeek`, leaving the position alone, when that position would be
    /// negative or overflow.
    pub fn seek(&mut self, style: SeekFrom) -> (r: Result<u64, ReaderError>)
        ensures
            final(self).buffer() == old(self).buffer(),
            seek_outcome(style, old(self).pos(), old(self).buffer().len(), r, final(self).pos()),
    {
        let len = (*self.data).as_byte_slice().len();
        match seek_position(style, self.pos, len) {
            Ok(t) => {
                self.pos = t;
                Ok(t as u64)
            },
            Err(e) => Err(e),
        }
    }
}

} // verus!
