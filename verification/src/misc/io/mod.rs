//! Sequential reading of bytes and the decoding built on it.

pub mod decode;
pub mod error;
pub mod reader;

pub use self::decode::{fails_if, flag_set, has_flag, invalid, keep, reserved, Checks, Decode};
pub use self::error::{Error, Failure};
pub use self::reader::{
    be_i16, be_u16, Cursor, Guard, GuardOutput, Reader, SkipGuard, SkipReader, SliceReader,
    ValueGuard,
};
