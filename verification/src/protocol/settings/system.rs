//! Settings of the device as a whole.

use vstd::prelude::*;

use crate::misc::io::{keep, reserved, Checks};
use crate::misc::{Decode, Error, Failure, GuardOutput, Ranged, Reader, Wrapped};

verus! {

/// System related settings.
#[derive(Debug, Clone, Copy, PartialEq, Eq)]
pub struct SystemSettings {
    /// When the device goes to stand-by, and what it switches off there.
    pub standby_flags: StandbyFlags,
    /// Address of the device on the Aqua-Bus.
    pub aqua_bus_address: AquaBusAddress,
    /// The raised limit of the current drawn over USB, if one is set.
    pub increased_current_draw: Option<CurrentDraw>,
}

/// Stand-by flags used in [`SystemSettings::standby_flags`].
#[derive(Debug, Clone, Copy, PartialEq, Eq, Structural)]
pub struct StandbyFlags {
    /// The flags that are set, one bit each.
    pub bits: u8,
}

impl StandbyFlags {
    /// Enter stand-by if USB is not connected.
    pub const STANDBY_NO_USB: u8 = 0x01;

    /// Enter stand-by on the USB suspend command.
    pub const STANDBY_ON_SUSPEND: u8 = 0x02;

    /// Enter stand-by if the Aqua-Bus connection is lost.
    pub const STANDBY_ON_ABUS_LOSS: u8 = 0x04;

    /// Disable alarm detection in stand-by.
    pub const DISABLE_ALARM_DETECT: u8 = 0x10;

    /// Switch the display off in stand-by.
    pub const DISPLAY_OFF: u8 = 0x20;

    /// Switch the LEDs off in stand-by.
    pub const LEDS_DISABLED: u8 = 0x40;

    /// Stop the volume counter in stand-by.
    pub const DISABLE_VOLUME_COUNTER: u8 = 0x80;

    /// The bits that have a meaning.
    pub const ALL: u8 = 0xF7;

    /// No flag.
    pub fn empty() -> (flags: Self)
        ensures
            flags.bits == 0,
    {
        StandbyFlags { bits: 0 }
    }

    /// The flags for the bits of `bits` that have a meaning.
    pub fn from_bits_truncate(bits: u8) -> (flags: Self)
        ensures
            flags.bits == bits & Self::ALL,
    {
        StandbyFlags { bits: bits & Self::ALL }
    }

    /// The bits that are set.
    pub fn bits(&self) -> (bits: u8)
        ensures
            bits == self.bits,
    {
        self.bits
    }

    /// Whether every bit of `flags` is set.
    pub fn contains(&self, flags: u8) -> (all: bool)
        ensures
            all == (self.bits & flags == flags),
    {
        self.bits & flags == flags
    }
}

/// The flags take one byte, of which the bits without a meaning are dropped.
impl Decode for StandbyFlags {
    type Model = StandbyFlags;

    open spec fn model(&self) -> StandbyFlags {
        *self
    }

    open spec fn width() -> nat {
        1
    }

    open spec fn failure(stream: Seq<u8>, at: int, keep: bool) -> Option<Failure> {
        reserved(stream, at, 1)
    }

    open spec fn value(stream: Seq<u8>, at: int) -> StandbyFlags {
        StandbyFlags { bits: stream[at] & Self::ALL }
    }

    proof fn lemma_skip_parity(stream: Seq<u8>, at: int) {
    }

    fn decode<R: Reader>(reader: &mut R) -> (res: Result<GuardOutput<Self>, Error>) {
        let bits = reader.read_u8()?;
        Ok(keep::<R, StandbyFlags>(Self::from_bits_truncate(bits)))
    }
}

/// Address of a device on the Aqua-Bus, used in [`SystemSettings::aqua_bus_address`].
///
/// Valid value range: 58..=61
pub type AquaBusAddress = Wrapped<u8, AquaBusAddressTag>;

/// The domain of [`AquaBusAddress`].
#[derive(Debug, Clone, Copy, PartialEq, Eq, PartialOrd, Ord)]
pub struct AquaBusAddressTag;

impl Ranged<u8> for AquaBusAddressTag {
    open spec fn lower() -> u8 {
        58
    }

    open spec fn upper() -> u8 {
        61
    }

    fn min_inclusive() -> (min: u8) {
        58
    }

    fn max_inclusive() -> (max: u8) {
        61
    }
}

/// Raised limit of the current drawn over USB, used in
/// [`SystemSettings::increased_current_draw`].
///
/// Valid value range: 500..=2000 in milliampere (mA)
pub type CurrentDraw = Wrapped<u16, CurrentDrawTag>;

/// The domain of [`CurrentDraw`].
#[derive(Debug, Clone, Copy, PartialEq, Eq, PartialOrd, Ord)]
pub struct CurrentDrawTag;

impl Ranged<u16> for CurrentDrawTag {
    open spec fn lower() -> u16 {
        500
    }

    open spec fn upper() -> u16 {
        2000
    }

    fn min_inclusive() -> (min: u16) {
        500
    }

    fn max_inclusive() -> (max: u16) {
        2000
    }
}

/// The raised current limit takes four bytes: a reserved byte, a byte whose
/// lowest bit says whether the limit is set, and the limit. A limit that is
/// not set is not checked.
impl Decode for Option<CurrentDraw> {
    type Model = Option<CurrentDraw>;

    open spec fn model(&self) -> Option<CurrentDraw> {
        *self
    }

    open spec fn width() -> nat {
        4
    }

    open spec fn failure(stream: Seq<u8>, at: int, keep: bool) -> Option<Failure> {
        reserved(stream, at, 2).otherwise(
            CurrentDraw::failure(stream, at + 2, keep && stream[at + 1] & 0x01 != 0),
        )
    }

    open spec fn value(stream: Seq<u8>, at: int) -> Option<CurrentDraw> {
        if stream[at + 1] & 0x01 != 0 {
            Some(CurrentDraw::value(stream, at + 2))
        } else {
            None
        }
    }

    proof fn lemma_skip_parity(stream: Seq<u8>, at: int) {
    }

    fn decode<R: Reader>(reader: &mut R) -> (res: Result<GuardOutput<Self>, Error>) {
        reader.skip::<1>()?;
        let flags = reader.read_u8()?;
        let val = reader.read_u16be()?;
        match R::guard() {
            Some(_) => if flags & 0x01 != 0 {
                match CurrentDraw::from_value(val) {
                    Ok(limit) => Ok(GuardOutput::Value(Some(limit))),
                    Err(e) => Err(Error::RangeError(e.to_owned())),
                }
            } else {
                Ok(GuardOutput::Value(None))
            },
            None => Ok(GuardOutput::Skipped),
        }
    }
}

} // verus!
