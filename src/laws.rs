//! Properties that hold of every reader, stated over the outcome predicates
//! that the readers' own contracts use.
use vstd::prelude::*;

use crate::cursor::{
    consume_outcome, read_outcome, read_start, remaining, seek_outcome, seek_target, ReaderError,
    SeekFrom,
};

verus! {

/// A read copies no more than fits in the destination or is left in the
/// buffer, the bytes it copies are the buffer's from `min(pos, len)` on, and
/// the position moves by exactly the count.
pub proof fn lemma_read_bounds(
    data: Seq<u8>,
    pos: usize,
    dst: Seq<u8>,
    n: usize,
    new_dst: Seq<u8>,
    new_pos: usize,
)
    requires
        read_outcome(data, pos, dst, n, new_dst, new_pos),
    ensures
        n <= dst.len(),
        n <= data.len() - read_start(pos as int, data.len() as int),
        new_dst.len() == dst.len(),
        new_dst.subrange(0, n as int) == data.subrange(
            read_start(pos as int, data.len() as int),
            read_start(pos as int, data.len() as int) + n,
        ),
        new_dst.subrange(n as int, dst.len() as int) == dst.subrange(n as int, dst.len() as int),
        new_pos == pos + n,
{
    let a = read_start(pos as int, data.len() as int);
    assert(new_dst.subrange(0, n as int) =~= data.subrange(a, a + n));
    assert(new_dst.subrange(n as int, dst.len() as int) =~= dst.subrange(n as int, dst.len() as int));
}

/// From a position inside the buffer, a read leaves the position at
/// `min(pos, len) + n`.
pub proof fn lemma_read_position(
    data: Seq<u8>,
    pos: usize,
    dst: Seq<u8>,
    n: usize,
    new_dst: Seq<u8>,
    new_pos: usize,
)
    requires
        read_outcome(data, pos, dst, n, new_dst, new_pos),
        pos <= data.len(),
    ensures
        new_pos == read_start(pos as int, data.len() as int) + n,
{
}

/// Reading into a non-empty destination drains the buffer: a read returns 0
/// only at or past the end, every other read brings the end closer, and once
/// at or past the end every read returns 0 and leaves the position alone.
pub proof fn lemma_drain_to_end(
    data: Seq<u8>,
    pos: usize,
    dst: Seq<u8>,
    n: usize,
    new_dst: Seq<u8>,
    new_pos: usize,
)
    requires
        read_outcome(data, pos, dst, n, new_dst, new_pos),
        dst.len() > 0,
    ensures
        n == 0 <==> pos >= data.len(),
        n > 0 ==> remaining(data, new_pos as int).len() < remaining(data, pos as int).len(),
        pos >= data.len() ==> new_pos == pos && new_dst == dst,
        dst.len() >= remaining(data, pos as int).len() ==> new_pos >= data.len(),
{
    if pos >= data.len() {
        assert(new_dst =~= dst);
    }
}

/// A position `k` within the buffer is reached alike by a seek from the start
/// by `k`, from the end by `k - len`, and from any position `p` by `k - p`.
pub proof fn lemma_seek_round_trip(k: u64, pos: usize, len: nat)
    requires
        k <= len,
        len <= usize::MAX,
        len <= isize::MAX,
        isize::MIN <= k - pos <= isize::MAX,
    ensures
        seek_target(SeekFrom::Start(k), pos, len) == Some(k as usize),
        seek_target(SeekFrom::End((k - len) as i64), pos, len) == Some(k as usize),
        seek_target(SeekFrom::Current((k - pos) as i64), pos, len) == Some(k as usize),
{
}

/// A seek from the start followed by a seek by 0 from the current position
/// lands where the first seek did.
pub proof fn lemma_seek_current_zero(
    n: u64,
    pos: usize,
    len: nat,
    r_start: Result<u64, ReaderError>,
    after_start: usize,
    r_zero: Result<u64, ReaderError>,
    after_zero: usize,
)
    requires
        seek_outcome(SeekFrom::Start(n), pos, len, r_start, after_start),
        seek_outcome(SeekFrom::Current(0), after_start, len, r_zero, after_zero),
    ensures
        after_zero == after_start,
        r_zero == r_start,
{
}

/// A seek by the largest offset from a position closer to `usize::MAX` than
/// `isize::MAX` overflows: it fails with `InvalidSeek` and stays put.
pub proof fn lemma_seek_overflow(
    pos: usize,
    len: nat,
    r: Result<u64, ReaderError>,
    new_pos: usize,
)
    requires
        pos + isize::MAX > usize::MAX,
        seek_outcome(SeekFrom::Current(i64::MAX), pos, len, r, new_pos),
    ensures
        r == Err::<u64, ReaderError>(ReaderError::InvalidSeek),
        new_pos == pos,
{
}

/// After a seek from the start to `len + k`, a read returns 0, leaves the
/// destination alone, and keeps the position where the seek put it.
pub proof fn lemma_read_past_end(
    data: Seq<u8>,
    s: u64,
    pos: usize,
    r: Result<u64, ReaderError>,
    seek_pos: usize,
    dst: Seq<u8>,
    n: usize,
    new_dst: Seq<u8>,
    read_pos: usize,
)
    requires
        s >= data.len(),
        seek_outcome(SeekFrom::Start(s), pos, data.len(), r, seek_pos),
        read_outcome(data, seek_pos, dst, n, new_dst, read_pos),
    ensures
        seek_pos == (if s > usize::MAX {
            usize::MAX as int
        } else {
            s as int
        }),
        n == 0,
        new_dst == dst,
        read_pos == seek_pos,
{
    assert(new_dst =~= dst);
}

/// What a read returns, writes and where it leaves the position depend only on
/// the buffer, the reader's own position and the destination: readers over one
/// buffer do not affect one another.
pub proof fn lemma_read_determined(
    data: Seq<u8>,
    pos: usize,
    dst: Seq<u8>,
    n_a: usize,
    dst_a: Seq<u8>,
    pos_a: usize,
    n_b: usize,
    dst_b: Seq<u8>,
    pos_b: usize,
)
    requires
        read_outcome(data, pos, dst, n_a, dst_a, pos_a),
        read_outcome(data, pos, dst, n_b, dst_b, pos_b),
    ensures
        n_a == n_b,
        dst_a == dst_b,
        pos_a == pos_b,
{
}

/// The buffered view holds `len - min(pos, len)` bytes, and consuming up to
/// that many moves the position by exactly that many.
pub proof fn lemma_view_and_consume(
    data: Seq<u8>,
    pos: usize,
    k: usize,
    r: Result<(), ReaderError>,
    new_pos: usize,
)
    requires
        data.len() <= usize::MAX,
        k <= remaining(data, pos as int).len(),
        consume_outcome(pos, k, r, new_pos),
    ensures
        remaining(data, pos as int).len() == data.len() - read_start(pos as int, data.len() as int),
        r == Ok::<(), ReaderError>(()),
        new_pos == pos + k,
{
}

} // verus!
