//! The errors that decoding reports.

use vstd::prelude::*;

use crate::misc::wrapped::{decimal_text, RangeError};

verus! {

/// Why a byte sequence could not be decoded.
#[derive(Debug, PartialEq, Eq)]
pub enum Error {
    /// The source ended before the requested bytes were read.
    IoError,
    /// A selector or code is none of the known ones; holds the name of the
    /// field and the number that was read.
    InvalidValue(&'static str, usize),
    /// A number lies outside of the range of its type; the bounds and the
    /// number are held as decimal text.
    RangeError(RangeError<String>),
    /// The checksum computed over the payload differs from the transmitted one.
    ChecksumMismatch,
}

/// The mathematical content of an [`Error`].
pub ghost enum Failure {
    /// See [`Error::IoError`].
    Io,
    /// See [`Error::InvalidValue`].
    InvalidValue { name: Seq<char>, value: int },
    /// See [`Error::RangeError`].
    Range { min: Seq<char>, max: Seq<char>, val: Seq<char> },
    /// See [`Error::ChecksumMismatch`].
    ChecksumMismatch,
}

impl Failure {
    /// The failure that reports `val` as lying outside of `min..=max`.
    pub open spec fn out_of_range(min: int, max: int, val: int) -> Failure {
        Failure::Range { min: decimal_text(min), max: decimal_text(max), val: decimal_text(val) }
    }
}

impl View for Error {
    type V = Failure;

    open spec fn view(&self) -> Failure {
        match *self {
            Error::IoError => Failure::Io,
            Error::InvalidValue(name, value) => Failure::InvalidValue {
                name: name@,
                value: value as int,
            },
            Error::RangeError(e) => Failure::Range { min: e.min@, max: e.max@, val: e.val@ },
            Error::ChecksumMismatch => Failure::ChecksumMismatch,
        }
    }
}

} // verus!
