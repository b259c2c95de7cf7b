//! Byte readers, the decode trait, checksums and range-checked wrappers.

pub mod crc;
pub mod io;
pub mod wrapped;

pub use self::crc::{checksum, CrcReader, CrcWriter};
pub use self::io::{
    Cursor, Decode, Error, Error as IoError, Failure, Guard, GuardOutput, Reader, SkipGuard,
    SkipReader, SliceReader, ValueGuard,
};
pub use self::wrapped::{RangeError, Ranged, Scalar, ValueVerifier, Wrapped};
