//! Memory mapped file I/O.
//!
//! A mapped file is a fixed-size byte region with a cursor, read and written
//! through the usual sequential operations: bounded read, all-or-nothing
//! write, seek and byte-by-byte iteration.
pub mod error;
pub mod file;
pub mod laws;
pub mod lifecycle;
pub mod options;

pub use error::{ErrorKind, MapError};
pub use file::{FileState, MappedFile, SeekFrom};
pub use lifecycle::{Action, Primitive, Procedure};
pub use options::OpenOptions;
