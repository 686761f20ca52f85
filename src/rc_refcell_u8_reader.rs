//! A reader over a buffer shared through `Rc<RefCell<_>>`, whose owner may
//! change it between operations.
use std::cell::RefCell;
use std::rc::Rc;
use vstd::prelude::*;

use crate::cursor::{
    exact_outcome, read_at, read_outcome, read_rest_at, rest_outcome, seek_outcome,
    seek_position, ReaderError, SeekFrom,
};
use crate::guarded::borrowed;
use crate::source::ByteSource;

verus! {

/// A reader with a private position over a buffer behind a `RefCell` shared
/// through `Rc`. Each operation takes a shared borrow of the cell for its own
/// duration, and sees the cell's contents as they are at that moment.
#[verifier::reject_recursive_types(T)]
pub struct RcRefCellU8Reader<T: ByteSource + ?Sized> {
    data: Rc<RefCell<T>>,
    pos: usize,
}

impl<T: ByteSource + ?Sized> RcRefCellU8Reader<T> {
    /// The shared cell this reader reads from.
    pub closed spec fn handle(&self) -> Rc<RefCell<T>> {
        self.data
    }

    /// The current position.
    pub closed spec fn pos(&self) -> usize {
        self.pos
    }

    /// Creates a reader at position 0.
    pub fn new(data: Rc<RefCell<T>>) -> (r: RcRefCellU8Reader<T>)
        ensures
            r.handle() == data,
            r.pos() == 0,
    {
        RcRefCellU8Reader { data, pos: 0 }
    }

    /// The current position.
    pub fn position(&self) -> (r: usize)
        ensures
            r == self.pos(),
    {
        self.pos
    }

    /// The shared handle this reader reads from.
    pub fn get_ref(&self) -> (r: &Rc<RefCell<T>>)
        ensures
            *r == self.handle(),
    {
        &self.data
    }

    /// Copies as many of the remaining bytes as fit into `dst`, moves past them,
    /// and returns how many were copied, reading the cell's current contents;
    /// fails with `BorrowConflict`, changing nothing, while the cell is
    /// mutably borrowed.
    pub fn read(&mut self, dst: &mut [u8]) -> (r: Result<usize, ReaderError>)
        ensures
            final(self).handle() == old(self).handle(),
            match r {
                Ok(n) => exists|b: Seq<u8>|
                    #[trigger] read_outcome(b, old(self).pos(), old(dst)@, n, final(dst)@, final(self).pos()),
                Err(e) => e == ReaderError::BorrowConflict && final(self).pos() == old(self).pos()
                    && final(dst)@ == old(dst)@,
            },
    {
        let guard = match (*self.data).try_borrow() {
            Ok(g) => g,
            Err(_) => return Err(ReaderError::BorrowConflict),
        };
        let bytes = borrowed(&guard).as_byte_slice();
        let n = read_at(bytes, self.pos, dst);
        self.pos = self.pos + n;
        let r = Ok(n);
        assert(read_outcome(bytes@, old(self).pos(), old(dst)@, r->Ok_0, dst@, self.pos()));
        r
    }

    /// Fills `dst` completely from the cell's remaining bytes, or fails with
    /// `UnexpectedEof` after taking the bytes that were left; fails with
    /// `BorrowConflict`, changing nothing, while the cell is mutably borrowed.
    pub fn read_exact(&mut self, dst: &mut [u8]) -> (r: Result<(), ReaderError>)
        ensures
            final(self).handle() == old(self).handle(),
            r == Err::<(), ReaderError>(ReaderError::BorrowConflict) ==> final(self).pos() == old(
                self,
            ).pos() && final(dst)@ == old(dst)@,
            r != Err::<(), ReaderError>(ReaderError::BorrowConflict) ==> exists|b: Seq<u8>|
                #[trigger] exact_outcome(b, old(self).pos(), old(dst)@, r, final(dst)@, final(self).pos()),
    {
        let guard = match (*self.data).try_borrow() {
            Ok(g) => g,
            Err(_) => return Err(ReaderError::BorrowConflict),
        };
        let bytes = borrowed(&guard).as_byte_slice();
        let want = dst.len();
        let n = read_at(bytes, self.pos, dst);
        self.pos = self.pos + n;
        let r = if n == want {
            Ok(())
        } else {
            Err(ReaderError::UnexpectedEof)
        };
        assert(exact_outcome(bytes@, old(self).pos(), old(dst)@, r, dst@, self.pos()));
        r
    }

    /// Appends every remaining byte of the cell to `buf`, moves to the end, and
    /// returns how many bytes were appended; fails with `BorrowConflict`,
    /// changing nothing, while the cell is mutably borrowed.
    pub fn read_to_end(&mut self, buf: &mut Vec<u8>) -> (r: Result<usize, ReaderError>)
        ensures
            final(self).handle() == old(self).handle(),
            match r {
                Ok(n) => exists|b: Seq<u8>|
                    #[trigger] rest_outcome(b, old(self).pos(), old(buf)@, n, final(buf)@, final(self).pos()),
                Err(e) => e == ReaderError::BorrowConflict && final(self).pos() == old(self).pos()
                    && final(buf)@ == old(buf)@,
            },
    {
        let guard = match (*self.data).try_borrow() {
            Ok(g) => g,
            Err(_) => return Err(ReaderError::BorrowConflict),
        };
        let bytes = borrowed(&guard).as_byte_slice();
        let n = read_rest_at(bytes, self.pos, buf);
        self.pos = self.pos + n;
        let r = Ok(n);
        assert(rest_outcome(bytes@, old(self).pos(), old(buf)@, r->Ok_0, buf@, self.pos()));
        r
    }

    /// Moves to the position `style` names and returns it; fails with
    /// `InvalidSeek`, leaving the position alone, when that position would be
    /// negative or overflow. Only a seek from the end borrows the cell, to learn
    /// its current length, and fails with `BorrowConflict` while the cell is
    /// mutably borrowed.
    pub fn seek(&mut self, style: SeekFrom) -> (r: Result<u64, ReaderError>)
        ensures
            final(self).handle() == old(self).handle(),
            !(style is End) ==> seek_outcome(style, old(self).pos(), 0, r, final(self).pos()),
            style is End ==> (r == Err::<u64, ReaderError>(ReaderError::BorrowConflict)
                && final(self).pos() == old(self).pos()) || exists|len: nat|
                #[trigger] seek_outcome(style, old(self).pos(), len, r, final(self).pos()),
    {
        let len = match style {
            SeekFrom::End(_) => {
                let guard = match (*self.data).try_borrow() {
                    Ok(g) => g,
                    Err(_) => return Err(ReaderError::BorrowConflict),
                };
                borrowed(&guard).as_byte_slice().len()
            },
            _ => 0,
        };
        let r = match seek_position(style, self.pos, len) {
            Ok(t) => {
                self.pos = t;
                Ok(t as u64)
            },
            Err(e) => Err(e),
        };
        assert(seek_outcome(style, old(self).pos(), len as nat, r, self.pos()));
        r
    }
}

} // verus!
