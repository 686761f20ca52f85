//! Readers that walk a reference-counted byte buffer with a private position,
//! supporting sequential reads and positional seeks without copying the buffer.
pub mod arc_mutex_u8_reader;
pub mod arc_u8_reader;
pub mod cursor;
mod guarded;
pub mod laws;
pub mod rc_refcell_u8_reader;
pub mod rc_u8_reader;
pub mod source;

pub use arc_mutex_u8_reader::ArcMutexU8Reader;
pub use arc_u8_reader::ArcU8Reader;
pub use cursor::{ReaderError, SeekFrom};
pub use rc_refcell_u8_reader::RcRefCellU8Reader;
pub use rc_u8_reader::RcU8Reader;
pub use source::ByteSource;
