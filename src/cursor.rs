//! The position arithmetic and the copying read path shared by every reader.
//!
//! Each reader obtains a transient view of its buffer (a slice) and hands it,
//! with its current position, to the functions here.
use vstd::prelude::*;

verus! {

/// Where a seek is measured from.
#[derive(Debug, Clone, Copy, PartialEq, Eq, Structural)]
pub enum SeekFrom {
    /// An absolute offset from the start of the buffer.
    Start(u64),
    /// A signed offset from the end of the buffer.
    End(i64),
    /// A signed offset from the current position.
    Current(i64),
}

/// The failures a reader reports.
#[derive(Debug, Clone, Copy, PartialEq, Eq, Structural)]
pub enum ReaderError {
    /// The requested position is negative or does not fit in a `usize`.
    InvalidSeek,
    /// The buffer ran out before the destination was filled.
    UnexpectedEof,
    /// The buffer's cell is already borrowed mutably elsewhere.
    BorrowConflict,
    /// The buffer's mutex was poisoned by a panicking holder.
    LockPoisoned,
}

impl ReaderError {
    /// A human-readable description of the error.
    pub fn message(&self) -> (r: &'static str)
        ensures
            *self == ReaderError::InvalidSeek ==> r@ == "invalid seek to a negative or overflowing position"@,
            *self == ReaderError::UnexpectedEof ==> r@ == "failed to fill whole buffer"@,
    {
        match self {
            ReaderError::InvalidSeek => "invalid seek to a negative or overflowing position",
            ReaderError::UnexpectedEof => "failed to fill whole buffer",
            ReaderError::BorrowConflict => "the buffer is already mutably borrowed",
            ReaderError::LockPoisoned => "the buffer's lock is poisoned",
        }
    }
}

/// The offset into a buffer of length `len` at which a read from `pos` starts.
pub open spec fn read_start(pos: int, len: int) -> int {
    if pos < len {
        pos
    } else {
        len
    }
}

/// The bytes a reader at `pos` still has ahead of it.
pub open spec fn remaining(data: Seq<u8>, pos: int) -> Seq<u8> {
    data.subrange(read_start(pos, data.len() as int), data.len() as int)
}

/// How many bytes a read from `pos` into a destination of `dst_len` bytes copies.
pub open spec fn read_count(data: Seq<u8>, pos: int, dst_len: int) -> int {
    let avail = remaining(data, pos).len() as int;
    if dst_len < avail {
        dst_len
    } else {
        avail
    }
}

/// The destination after a read of `n` bytes from `pos`: the first `n` bytes are
/// the buffer's, the rest are untouched.
pub open spec fn after_read(data: Seq<u8>, pos: int, dst: Seq<u8>, n: int) -> Seq<u8> {
    let a = read_start(pos, data.len() as int);
    data.subrange(a, a + n) + dst.subrange(n, dst.len() as int)
}

/// A signed offset saturated into the range of `isize`.
pub open spec fn clamp_offset(off: i64) -> int {
    if off > isize::MAX {
        isize::MAX as int
    } else if off < isize::MIN {
        isize::MIN as int
    } else {
        off as int
    }
}

/// `base` moved by `off`, when the result is a valid position.
pub open spec fn offset_target(base: int, off: i64) -> Option<usize> {
    let t = base + clamp_offset(off);
    if 0 <= t <= usize::MAX {
        Some(t as usize)
    } else {
        None
    }
}

/// The position a seek lands on, for a reader at `pos` over `len` bytes; `None`
/// when the target is negative or overflows.
pub open spec fn seek_target(style: SeekFrom, pos: usize, len: nat) -> Option<usize> {
    match style {
        SeekFrom::Start(n) => Some(
            if n > usize::MAX {
                usize::MAX
            } else {
                n as usize
            },
        ),
        SeekFrom::End(off) => offset_target(len as int, off),
        SeekFrom::Current(off) => offset_target(pos as int, off),
    }
}

/// The position after consuming `k` bytes at `pos`, when it fits in a `usize`.
pub open spec fn advance_target(pos: usize, k: usize) -> Option<usize> {
    if pos + k <= usize::MAX {
        Some((pos + k) as usize)
    } else {
        None
    }
}

/// A read of `dst` from `pos` over `data` returned `n`, left the destination
/// as `new_dst` and the position at `new_pos`.
pub open spec fn read_outcome(
    data: Seq<u8>,
    pos: usize,
    dst: Seq<u8>,
    n: usize,
    new_dst: Seq<u8>,
    new_pos: usize,
) -> bool {
    &&& n == read_count(data, pos as int, dst.len() as int)
    &&& new_dst == after_read(data, pos as int, dst, n as int)
    &&& new_pos == pos + n
}

/// An exact read of `dst` from `pos` over `data` returned `r`, left the
/// destination as `new_dst` and the position at `new_pos`: whatever was left
/// is taken, and the read succeeds only when that filled the destination.
pub open spec fn exact_outcome(
    data: Seq<u8>,
    pos: usize,
    dst: Seq<u8>,
    r: Result<(), ReaderError>,
    new_dst: Seq<u8>,
    new_pos: usize,
) -> bool {
    let n = read_count(data, pos as int, dst.len() as int);
    &&& new_dst == after_read(data, pos as int, dst, n)
    &&& new_pos == pos + n
    &&& r == if n == dst.len() {
        Ok::<(), ReaderError>(())
    } else {
        Err(ReaderError::UnexpectedEof)
    }
}

/// Reading everything from `pos` over `data` appended `n` bytes, turning `buf`
/// into `new_buf`, and left the position at `new_pos`.
pub open spec fn rest_outcome(
    data: Seq<u8>,
    pos: usize,
    buf: Seq<u8>,
    n: usize,
    new_buf: Seq<u8>,
    new_pos: usize,
) -> bool {
    &&& new_buf == buf + remaining(data, pos as int)
    &&& n == remaining(data, pos as int).len()
    &&& new_pos == pos + n
}

/// A seek by `style` from `pos` over `len` bytes returned `r` and left the
/// position at `new_pos`: it moves to the target, or fails and stays put.
pub open spec fn seek_outcome(
    style: SeekFrom,
    pos: usize,
    len: nat,
    r: Result<u64, ReaderError>,
    new_pos: usize,
) -> bool {
    match seek_target(style, pos, len) {
        Some(t) => r == Ok::<u64, ReaderError>(t as u64) && new_pos == t,
        None => r == Err::<u64, ReaderError>(ReaderError::InvalidSeek) && new_pos == pos,
    }
}

/// Consuming `k` bytes at `pos` returned `r` and left the position at
/// `new_pos`: it moves forward, or fails on overflow and stays put.
pub open spec fn consume_outcome(
    pos: usize,
    k: usize,
    r: Result<(), ReaderError>,
    new_pos: usize,
) -> bool {
    match advance_target(pos, k) {
        Some(t) => r == Ok::<(), ReaderError>(()) && new_pos == t,
        None => r == Err::<(), ReaderError>(ReaderError::InvalidSeek) && new_pos == pos,
    }
}

/// The bytes of `data` from `pos` on, or none when `pos` is past the end.
pub fn tail(data: &[u8], pos: usize) -> (r: &[u8])
    ensures
        r@ == remaining(data@, pos as int),
        data@.len() <= usize::MAX,
{
    let len = data.len();
    let start = if pos < len {
        pos
    } else {
        len
    };
    let (_, rest) = data.split_at(start);
    rest
}

/// Copies as many bytes as fit from `data[min(pos, len)..]` into the front of
/// `dst`, and returns how many were copied.
pub fn read_at(data: &[u8], pos: usize, dst: &mut [u8]) -> (n: usize)
    ensures
        n == read_count(data@, pos as int, old(dst)@.len() as int),
        final(dst)@ == after_read(data@, pos as int, old(dst)@, n as int),
        pos + n <= usize::MAX,
{
    let src = tail(data, pos);
    let dst_len = dst.len();
    let n = if dst_len < src.len() {
        dst_len
    } else {
        src.len()
    };
    let ghost a = read_start(pos as int, data@.len() as int);
    let mut i: usize = 0;
    while i < n
        invariant
            n <= dst_len,
            n <= src@.len(),
            dst_len == old(dst)@.len(),
            src@ == remaining(data@, pos as int),
            a == read_start(pos as int, data@.len() as int),
            i <= n,
            dst@.len() == dst_len,
            forall|j: int| 0 <= j < i ==> dst@[j] == src@[j],
            forall|j: int| i <= j < dst_len ==> dst@[j] == old(dst)@[j],
        decreases n - i,
    {
        dst[i] = src[i];
        i = i + 1;
    }
    assert(dst@ =~= after_read(data@, pos as int, old(dst)@, n as int));
    n
}

/// Appends everything from `data[min(pos, len)..]` to `buf`, and returns how many
/// bytes were appended.
pub fn read_rest_at(data: &[u8], pos: usize, buf: &mut Vec<u8>) -> (n: usize)
    ensures
        n == remaining(data@, pos as int).len(),
        final(buf)@ == old(buf)@ + remaining(data@, pos as int),
        pos + n <= usize::MAX,
{
    let src = tail(data, pos);
    let mut i: usize = 0;
    while i < src.len()
        invariant
            src@ == remaining(data@, pos as int),
            i <= src@.len(),
            buf@ == old(buf)@ + src@.subrange(0, i as int),
        decreases src@.len() - i,
    {
        buf.push(src[i]);
        i = i + 1;
        assert(buf@ =~= old(buf)@ + src@.subrange(0, i as int));
    }
    assert(src@.subrange(0, i as int) =~= src@);
    i
}

/// Computes the position a seek lands on, or `InvalidSeek` when it would be
/// negative or overflow a `usize`.
pub fn seek_position(style: SeekFrom, pos: usize, len: usize) -> (r: Result<usize, ReaderError>)
    ensures
        match seek_target(style, pos, len as nat) {
            Some(t) => r == Ok::<usize, ReaderError>(t),
            None => r == Err::<usize, ReaderError>(ReaderError::InvalidSeek),
        },
{
    let (base, offset) = match style {
        SeekFrom::Start(n) => {
            let p = if n > usize::MAX as u64 {
                usize::MAX
            } else {
                n as usize
            };
            return Ok(p);
        },
        SeekFrom::End(n) => (len, n),
        SeekFrom::Current(n) => (pos, n),
    };
    let offset: isize = if offset > isize::MAX as i64 {
        isize::MAX
    } else if offset < isize::MIN as i64 {
        isize::MIN
    } else {
        offset as isize
    };
    let target = if offset >= 0 {
        base.checked_add(offset as usize)
    } else {
        let magnitude: usize = ((-(offset + 1)) as usize) + 1;
        base.checked_sub(magnitude)
    };
    match target {
        Some(t) => Ok(t),
        None => Err(ReaderError::InvalidSeek),
    }
}

/// Moves `pos` forward by `k`, or reports `InvalidSeek` when that overflows.
pub fn advance(pos: usize, k: usize) -> (r: Result<usize, ReaderError>)
    ensures
        match advance_target(pos, k) {
            Some(t) => r == Ok::<usize, ReaderError>(t),
            None => r == Err::<usize, ReaderError>(ReaderError::InvalidSeek),
        },
{
    match pos.checked_add(k) {
        Some(t) => Ok(t),
        None => Err(ReaderError::InvalidSeek),
    }
}

} // verus!
