use std::{cell::RefCell, rc::Rc};

use rc_u8_reader::{RcRefCellU8Reader, ReaderError, SeekFrom};

#[test]
fn rc_refcell_u8_reader_to_string() {
    let data = b"Hello world!".to_vec();

    let mut reader = RcRefCellU8Reader::new(Rc::new(RefCell::new(data)));

    let mut bytes = Vec::new();
    reader.read_to_end(&mut bytes).unwrap();
    let result = String::from_utf8(bytes).unwrap();

    assert_eq!("Hello world!".to_string(), result);
}

#[test]
fn rc_refcell_borrow_conflict() {
    let cell = Rc::new(RefCell::new(vec![1u8, 2, 3]));
    let mut reader = RcRefCellU8Reader::new(cell.clone());
    let mut dst = [0u8; 2];
    {
        let _writer = cell.borrow_mut();
        assert_eq!(reader.read(&mut dst), Err(ReaderError::BorrowConflict));
        assert_eq!(reader.read_exact(&mut dst), Err(ReaderError::BorrowConflict));
        assert_eq!(reader.seek(SeekFrom::End(0)), Err(ReaderError::BorrowConflict));
        assert_eq!(reader.seek(SeekFrom::Current(1)), Ok(1));
        let mut all = Vec::new();
        assert_eq!(reader.read_to_end(&mut all), Err(ReaderError::BorrowConflict));
        assert!(all.is_empty());
    }
    assert_eq!(dst, [0, 0]);
    assert_eq!(reader.read(&mut dst), Ok(2));
    assert_eq!(dst, [2, 3]);
}

#[test]
fn rc_refcell_seek_from_end_uses_whole_length() {
    let cell = Rc::new(RefCell::new(vec![1u8, 2, 3, 4, 5, 6]));
    let mut reader = RcRefCellU8Reader::new(cell);
    assert_eq!(reader.seek(SeekFrom::Start(4)), Ok(4));
    assert_eq!(reader.seek(SeekFrom::End(-1)), Ok(5));
    assert_eq!(reader.seek(SeekFrom::End(-6)), Ok(0));
    assert_eq!(reader.seek(SeekFrom::End(-7)), Err(ReaderError::InvalidSeek));
    assert_eq!(reader.position(), 0);
}

#[test]
fn rc_refcell_read_past_end_does_not_fail() {
    let mut reader = RcRefCellU8Reader::new(Rc::new(RefCell::new(vec![1u8, 2])));
    assert_eq!(reader.seek(SeekFrom::Start(50)), Ok(50));
    let mut dst = [7u8; 3];
    assert_eq!(reader.read(&mut dst), Ok(0));
    assert_eq!(dst, [7, 7, 7]);
    assert_eq!(reader.position(), 50);
}
