use std::cell::RefCell;
use std::rc::Rc;
use std::sync::{Arc, Mutex};

use rc_u8_reader::{ArcMutexU8Reader, ArcU8Reader, RcRefCellU8Reader, RcU8Reader, ReaderError, SeekFrom};

#[test]
fn hello_world_read_to_end() {
    let mut reader = RcU8Reader::new(Rc::new(b"Hello world!".to_vec()));
    let mut out = Vec::new();
    assert_eq!(reader.read_to_end(&mut out), 12);
    assert_eq!(out, b"Hello world!".to_vec());
    assert_eq!(reader.position(), 12);
    assert_eq!(reader.read_to_end(&mut out), 0);
    assert_eq!(out.len(), 12);
}

#[test]
fn seek_from_end_then_read_tail() {
    let all: Vec<u8> = (0u8..=255).collect();
    let mut reader = ArcU8Reader::new(Arc::new(all));
    assert_eq!(reader.seek(SeekFrom::End(-10)), Ok(246));
    let mut dst = [0u8; 16];
    assert_eq!(reader.read(&mut dst), 10);
    assert_eq!(dst[..10].to_vec(), (246u8..=255).collect::<Vec<u8>>());
    assert_eq!(dst[10..], [0u8; 6]);
    assert_eq!(reader.position(), 256);
    assert_eq!(reader.read(&mut dst), 0);
    assert_eq!(reader.position(), 256);
}

#[test]
fn seek_far_past_end_then_back() {
    let mut reader = RcU8Reader::new(Rc::new(vec![1u8, 2, 3, 4]));
    assert_eq!(reader.seek(SeekFrom::Start(100)), Ok(100));
    let mut dst = [0u8; 8];
    assert_eq!(reader.read(&mut dst), 0);
    assert_eq!(reader.position(), 100);
    assert_eq!(reader.seek(SeekFrom::Current(-50)), Ok(50));
    assert_eq!(reader.read(&mut dst), 0);
    assert_eq!(reader.position(), 50);
}

#[test]
fn read_exact_short_read() {
    let buffer = vec![1u8, 2, 3, 4, 5, 6, 7, 8];
    let mut reader = ArcU8Reader::new(Arc::new(buffer.clone()));
    let mut dst = [0u8; 16];
    assert_eq!(reader.read_exact(&mut dst), Err(ReaderError::UnexpectedEof));
    assert_eq!(reader.position(), 8);
    assert_eq!(dst[..8].to_vec(), buffer);
}

#[test]
fn read_exact_fills_destination() {
    let mut reader = RcU8Reader::new(Rc::new(vec![1u8, 2, 3, 4, 5]));
    let mut dst = [0u8; 3];
    assert_eq!(reader.read_exact(&mut dst), Ok(()));
    assert_eq!(dst, [1, 2, 3]);
    assert_eq!(reader.position(), 3);
}

#[test]
fn empty_buffer() {
    let mut reader = RcU8Reader::new(Rc::new(Vec::<u8>::new()));
    let mut dst = [9u8; 4];
    assert_eq!(reader.read(&mut dst), 0);
    assert_eq!(dst, [9u8; 4]);
    assert_eq!(reader.seek(SeekFrom::End(0)), Ok(0));
    assert_eq!(reader.seek(SeekFrom::End(-1)), Err(ReaderError::InvalidSeek));
    assert_eq!(reader.position(), 0);
    let mut exact: [u8; 0] = [];
    assert_eq!(reader.read_exact(&mut exact), Ok(()));
}

#[test]
fn two_locked_readers_each_see_whole_buffer() {
    let shared = Arc::new(Mutex::new((10u8..20).collect::<Vec<u8>>()));
    let mut first = ArcMutexU8Reader::new(shared.clone());
    let mut second = ArcMutexU8Reader::new(shared);
    let mut out_first = Vec::new();
    let mut out_second = Vec::new();
    let mut one = [0u8; 1];
    let mut two = [0u8; 2];
    for _ in 0..12 {
        let n = first.read(&mut one).unwrap();
        out_first.extend_from_slice(&one[..n]);
        let n = second.read(&mut two).unwrap();
        out_second.extend_from_slice(&two[..n]);
    }
    assert_eq!(out_first, (10u8..20).collect::<Vec<u8>>());
    assert_eq!(out_second, (10u8..20).collect::<Vec<u8>>());
}

#[test]
fn read_copies_from_position_and_advances() {
    let mut reader = RcU8Reader::new(Rc::new(vec![1u8, 2, 3, 4, 5, 6]));
    assert_eq!(reader.seek(SeekFrom::Start(2)), Ok(2));
    let mut dst = [0u8; 3];
    assert_eq!(reader.read(&mut dst), 3);
    assert_eq!(dst, [3, 4, 5]);
    assert_eq!(reader.position(), 5);
    assert_eq!(reader.read(&mut dst), 1);
    assert_eq!(dst, [6, 4, 5]);
    assert_eq!(reader.position(), 6);
}

#[test]
fn repeated_reads_drain_and_stay_at_end() {
    let mut reader = RcRefCellU8Reader::new(Rc::new(RefCell::new(vec![1u8, 2, 3, 4, 5])));
    let mut dst = [0u8; 2];
    assert_eq!(reader.read(&mut dst), Ok(2));
    assert_eq!(reader.read(&mut dst), Ok(2));
    assert_eq!(reader.read(&mut dst), Ok(1));
    for _ in 0..3 {
        assert_eq!(reader.read(&mut dst), Ok(0));
        assert_eq!(reader.position(), 5);
    }
}

#[test]
fn seek_styles_reach_same_position() {
    let data = Rc::new(vec![0u8; 8]);
    let mut by_start = RcU8Reader::new(data.clone());
    let mut by_end = RcU8Reader::new(data.clone());
    let mut by_current = RcU8Reader::new(data);
    assert_eq!(by_current.seek(SeekFrom::Start(7)), Ok(7));
    assert_eq!(by_start.seek(SeekFrom::Start(3)), Ok(3));
    assert_eq!(by_end.seek(SeekFrom::End(3 - 8)), Ok(3));
    assert_eq!(by_current.seek(SeekFrom::Current(3 - 7)), Ok(3));
}

#[test]
fn seek_current_zero_keeps_position() {
    let mut reader = ArcU8Reader::new(Arc::new(vec![1u8, 2, 3]));
    assert_eq!(reader.seek(SeekFrom::Start(2)), Ok(2));
    assert_eq!(reader.seek(SeekFrom::Current(0)), Ok(2));
    assert_eq!(reader.seek(SeekFrom::Start(40)), Ok(40));
    assert_eq!(reader.seek(SeekFrom::Current(0)), Ok(40));
    assert_eq!(reader.position(), 40);
}

#[test]
fn seek_current_overflow_fails() {
    let mut reader = RcU8Reader::new(Rc::new(vec![1u8]));
    let near_max = (usize::MAX - 5) as u64;
    assert_eq!(reader.seek(SeekFrom::Start(near_max)), Ok(near_max));
    assert_eq!(reader.seek(SeekFrom::Current(i64::MAX)), Err(ReaderError::InvalidSeek));
    assert_eq!(reader.position(), usize::MAX - 5);
    assert_eq!(reader.seek(SeekFrom::Current(5)), Ok(usize::MAX as u64));
    assert_eq!(reader.seek(SeekFrom::Current(1)), Err(ReaderError::InvalidSeek));
    assert_eq!(reader.seek(SeekFrom::Current(i64::MIN)), Ok(usize::MAX as u64 - (1u64 << 63)));
}

#[test]
fn past_end_read_keeps_position() {
    let mut reader = ArcMutexU8Reader::new(Arc::new(Mutex::new(vec![1u8, 2, 3])));
    assert_eq!(reader.seek(SeekFrom::Start(3 + 4)), Ok(7));
    let mut dst = [5u8; 2];
    assert_eq!(reader.read(&mut dst), Ok(0));
    assert_eq!(dst, [5, 5]);
    assert_eq!(reader.position(), 7);
}

#[test]
fn buffered_view_length_and_consume() {
    let mut reader = RcU8Reader::new(Rc::new(vec![1u8, 2, 3, 4, 5]));
    assert_eq!(reader.fill_buf().len(), 5);
    assert_eq!(reader.consume(2), Ok(()));
    assert_eq!(reader.position(), 2);
    assert_eq!(reader.fill_buf(), &[3u8, 4, 5][..]);
    let view_len = reader.fill_buf().len();
    assert_eq!(reader.consume(view_len), Ok(()));
    assert_eq!(reader.position(), 5);
    assert!(reader.fill_buf().is_empty());
}
