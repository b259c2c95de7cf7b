//! Settings of the sensors of the device.

use vstd::prelude::*;

use crate::misc::io::{fails_if, invalid, keep, reserved, Checks};
use crate::misc::{Decode, Error, Failure, GuardOutput, Ranged, Reader, Wrapped};

use super::Flow;

verus! {

/// Sensor related settings.
#[derive(Debug, Clone, Copy, PartialEq, Eq)]
pub struct SensorSettings {
    /// Medium that is used as coolant.
    pub medium: Medium,
    /// Connector that joins the device to the tubing.
    pub connector_type: ConnectorType,
    /// Ten flows, each with the correction that applies at that flow.
    pub flow_correction: [(Flow, FlowCorrection); 10],
    /// Offset of the water temperature sensor.
    pub water_temp_offset: TempOffset,
    /// Offset of the external temperature sensor.
    pub external_temp_offset: TempOffset,
    /// Offset of the conductivity sensor.
    pub conductivity_offset: ConductivityOffset,
    /// Conductivity that counts as the best water quality (100 %).
    pub water_quality_max: Conductivity,
    /// Conductivity that counts as the worst water quality (0 %).
    pub water_quality_min: Conductivity,
    /// Flags for the power calculation.
    pub power_flags: PowerFlags,
    /// Damping of the power calculation.
    pub power_damping: PowerDamping,
}

/// Medium that is used as coolant, used in [`SensorSettings::medium`].
#[derive(Debug, Clone, Copy, PartialEq, Eq, Structural)]
pub enum Medium {
    /// DP Ultra.
    DpUltra,
    /// Distilled water.
    DistilledWater,
}

/// The value that the code `code` selects, if it selects one.
pub open spec fn medium_of(code: int) -> Option<Medium> {
        if code == 0x00 {
            Some(Medium::DpUltra)
        } else if code == 0x01 {
            Some(Medium::DistilledWater)
        } else {
            None
        }
}

/// The selector takes one byte, and a code that selects nothing is
/// reported under the name `Medium` in either mode.
impl Decode for Medium {
    type Model = Medium;

    open spec fn model(&self) -> Medium {
        *self
    }

    open spec fn width() -> nat {
        1
    }

    open spec fn failure(stream: Seq<u8>, at: int, keep: bool) -> Option<Failure> {
        reserved(stream, at, 1).otherwise(
            fails_if(medium_of(stream[at] as int) is None, invalid("Medium", stream[at] as int)),
        )
    }

    open spec fn value(stream: Seq<u8>, at: int) -> Medium {
        medium_of(stream[at] as int).unwrap()
    }

    proof fn lemma_skip_parity(stream: Seq<u8>, at: int) {
    }

    fn decode<R: Reader>(reader: &mut R) -> (res: Result<GuardOutput<Self>, Error>) {
        match reader.read_u8()? {
            0x00 => Ok(keep::<R, Medium>(Medium::DpUltra)),
            0x01 => Ok(keep::<R, Medium>(Medium::DistilledWater)),
            x => Err(Error::InvalidValue("Medium", x as usize)),
        }
    }
}

/// Connector that joins the device to the tubing, used in
/// [`SensorSettings::connector_type`].
#[derive(Debug, Clone, Copy, PartialEq, Eq, Structural)]
pub enum ConnectorType {
    /// Inner diameter above 7 mm.
    InnerDiameterGt7mm,
    /// Inner diameter below 7 mm.
    InnerDiameterLt7mm,
}

/// The value that the code `code` selects, if it selects one.
pub open spec fn connector_type_of(code: int) -> Option<ConnectorType> {
        if code == 0x00 {
            Some(ConnectorType::InnerDiameterGt7mm)
        } else if code == 0x01 {
            Some(ConnectorType::InnerDiameterLt7mm)
        } else {
            None
        }
}

/// The selector takes one byte, and a code that selects nothing is
/// reported under the name `ConnectorType` in either mode.
impl Decode for ConnectorType {
    type Model = ConnectorType;

    open spec fn model(&self) -> ConnectorType {
        *self
    }

    open spec fn width() -> nat {
        1
    }

    open spec fn failure(stream: Seq<u8>, at: int, keep: bool) -> Option<Failure> {
        reserved(stream, at, 1).otherwise(
            fails_if(
                connector_type_of(stream[at] as int) is None,
                invalid("ConnectorType", stream[at] as int),
            ),
        )
    }

    open spec fn value(stream: Seq<u8>, at: int) -> ConnectorType {
        connector_type_of(stream[at] as int).unwrap()
    }

    proof fn lemma_skip_parity(stream: Seq<u8>, at: int) {
    }

    fn decode<R: Reader>(reader: &mut R) -> (res: Result<GuardOutput<Self>, Error>) {
        match reader.read_u8()? {
            0x00 => Ok(keep::<R, ConnectorType>(ConnectorType::InnerDiameterGt7mm)),
            0x01 => Ok(keep::<R, ConnectorType>(ConnectorType::InnerDiameterLt7mm)),
            x => Err(Error::InvalidValue("ConnectorType", x as usize)),
        }
    }
}

/// Flags for the power calculation, used in [`SensorSettings::power_flags`].
#[derive(Debug, Clone, Copy, PartialEq, Eq, Structural)]
pub struct PowerFlags {
    /// The flags that are set, one bit each.
    pub bits: u8,
}

impl PowerFlags {
    /// Compensate the offset of the power measurement in stand-by.
    pub const AUTOMATIC_POWER_OFFSET_COMPENSATION: u8 = 0x01;

    /// The bits that have a meaning.
    pub const ALL: u8 = 0x01;

    /// No flag.
    pub fn empty() -> (flags: Self)
        ensures
            flags.bits == 0,
    {
        PowerFlags { bits: 0 }
    }

    /// The flags for the bits of `bits` that have a meaning.
    pub fn from_bits_truncate(bits: u8) -> (flags: Self)
        ensures
            flags.bits == bits & Self::ALL,
    {
        PowerFlags { bits: bits & Self::ALL }
    }

    /// The bits that are set.
    pub fn bits(&self) -> (bits: u8)
        ensures
            bits == self.bits,
    {
        self.bits
    }

    /// Whether every bit of `flags` is set.
    pub fn contains(&self, flags: u8) -> (all: bool)
        ensures
            all == (self.bits & flags == flags),
    {
        self.bits & flags == flags
    }
}

/// The flags take one byte, of which the bits without a meaning are dropped.
impl Decode for PowerFlags {
    type Model = PowerFlags;

    open spec fn model(&self) -> PowerFlags {
        *self
    }

    open spec fn width() -> nat {
        1
    }

    open spec fn failure(stream: Seq<u8>, at: int, keep: bool) -> Option<Failure> {
        reserved(stream, at, 1)
    }

    open spec fn value(stream: Seq<u8>, at: int) -> PowerFlags {
        PowerFlags { bits: stream[at] & Self::ALL }
    }

    proof fn lemma_skip_parity(stream: Seq<u8>, at: int) {
    }

    fn decode<R: Reader>(reader: &mut R) -> (res: Result<GuardOutput<Self>, Error>) {
        let bits = reader.read_u8()?;
        Ok(keep::<R, PowerFlags>(Self::from_bits_truncate(bits)))
    }
}

/// Correction of the measured flow, used in [`SensorSettings::flow_correction`].
///
/// Valid value range: -5000..=5000 in 1/100 percent
pub type FlowCorrection = Wrapped<i16, FlowCorrectionTag>;

/// The domain of [`FlowCorrection`].
#[derive(Debug, Clone, Copy, PartialEq, Eq, PartialOrd, Ord)]
pub struct FlowCorrectionTag;

impl Ranged<i16> for FlowCorrectionTag {
    open spec fn lower() -> i16 {
        -5000i16
    }

    open spec fn upper() -> i16 {
        5000
    }

    fn min_inclusive() -> (min: i16) {
        -5000i16
    }

    fn max_inclusive() -> (max: i16) {
        5000
    }
}

/// Offset of a temperature sensor, used in [`SensorSettings`].
///
/// Valid value range: -1500..=1500 in 1/100 degree
pub type TempOffset = Wrapped<i16, TempOffsetTag>;

/// The domain of [`TempOffset`].
#[derive(Debug, Clone, Copy, PartialEq, Eq, PartialOrd, Ord)]
pub struct TempOffsetTag;

impl Ranged<i16> for TempOffsetTag {
    open spec fn lower() -> i16 {
        -1500i16
    }

    open spec fn upper() -> i16 {
        1500
    }

    fn min_inclusive() -> (min: i16) {
        -1500i16
    }

    fn max_inclusive() -> (max: i16) {
        1500
    }
}

/// Damping of the power calculation, used in [`SensorSettings::power_damping`].
///
/// Valid value range: 0..=10_000 in milliwatt (mW)
pub type PowerDamping = Wrapped<u16, PowerDampingTag>;

/// The domain of [`PowerDamping`].
#[derive(Debug, Clone, Copy, PartialEq, Eq, PartialOrd, Ord)]
pub struct PowerDampingTag;

impl Ranged<u16> for PowerDampingTag {
    open spec fn lower() -> u16 {
        0
    }

    open spec fn upper() -> u16 {
        10_000
    }

    fn min_inclusive() -> (min: u16) {
        0
    }

    fn max_inclusive() -> (max: u16) {
        10_000
    }
}

/// Conductivity that bounds the water quality, used in [`SensorSettings`].
///
/// Valid value range: 0..=2000 in microsiemens per centimeter
pub type Conductivity = Wrapped<u16, ConductivityTag>;

/// The domain of [`Conductivity`].
#[derive(Debug, Clone, Copy, PartialEq, Eq, PartialOrd, Ord)]
pub struct ConductivityTag;

impl Ranged<u16> for ConductivityTag {
    open spec fn lower() -> u16 {
        0
    }

    open spec fn upper() -> u16 {
        2000
    }

    fn min_inclusive() -> (min: u16) {
        0
    }

    fn max_inclusive() -> (max: u16) {
        2000
    }
}

/// Offset of the conductivity sensor, used in
/// [`SensorSettings::conductivity_offset`].
///
/// Valid value range: -500..=500 in 1/10 microsiemens per centimeter
pub type ConductivityOffset = Wrapped<i16, ConductivityOffsetTag>;

/// The domain of [`ConductivityOffset`].
#[derive(Debug, Clone, Copy, PartialEq, Eq, PartialOrd, Ord)]
pub struct ConductivityOffsetTag;

impl Ranged<i16> for ConductivityOffsetTag {
    open spec fn lower() -> i16 {
        -500i16
    }

    open spec fn upper() -> i16 {
        500
    }

    fn min_inclusive() -> (min: i16) {
        -500i16
    }

    fn max_inclusive() -> (max: i16) {
        500
    }
}

} // verus!
