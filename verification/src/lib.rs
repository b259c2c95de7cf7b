//! Decoder for the settings frame of the high flow NEXT flow sensor.
//!
//! The device answers a feature-report request with one frame: an operation
//! code, a payload protected by a CRC-16/USB checksum, and the checksum. This
//! crate turns the bytes of such a frame into typed, range-checked values.
//!
//! Every decoder is verified with Verus against a description of the wire
//! format. A type that implements [`misc::Decode`] says, for a sequence of
//! bytes and a place in it,
//!
//! - how many bytes a value takes ([`misc::Decode::width`]),
//! - what is wrong with the bytes, if anything is
//!   ([`misc::Decode::failure`]), and
//! - which value the bytes stand for ([`misc::Decode::value`]),
//!
//! and its decoder is proved to read exactly these bytes, to fail exactly with
//! this failure and to hand back exactly this value. The same decoder runs in
//! two modes: it keeps the values, or it reads the same bytes and keeps
//! nothing.
//!
//! ```text
//! let Frame::Settings(settings) = Frame::from_bytes(&bytes)?;
//! ```

pub mod misc;
pub mod protocol;
