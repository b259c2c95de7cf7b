//! Settings of the alarms of the device.

use vstd::prelude::*;

use crate::misc::io::{fails_if, flag_set, has_flag, invalid, keep, reserved, Checks};
use crate::misc::{Decode, Error, Failure, Guard, GuardOutput, Ranged, Reader, Wrapped};

use super::Flow;

verus! {

/// Alarm related settings.
#[derive(Debug, Clone, PartialEq, Eq)]
pub struct AlarmSettings {
    /// What the device does during an alarm.
    pub flags: AlarmFlags,
    /// Time after power-on during which no alarm is raised.
    pub startup_delay: StartupDelay,
    /// The flow below which an alarm is raised, if that alarm is on.
    pub flow_alarm_limit: Option<Flow>,
    /// The water temperature above which an alarm is raised, if that alarm is
    /// on.
    pub water_temperature_limit: Option<Temperature>,
    /// The external temperature above which an alarm is raised, if that alarm
    /// is on.
    pub external_temperature_limit: Option<Temperature>,
    /// The water quality below which an alarm is raised, if that alarm is on.
    pub water_quality_limit: Option<WaterQuality>,
    /// Signal at the signal output connector.
    pub output_signal: OutputSignal,
}

/// The alarm settings take 13 bytes: the flags, a byte with one bit for each
/// of the four limits, a reserved byte, the startup delay, the four limits and
/// the output signal. A limit whose bit is unset is skipped.
impl Decode for AlarmSettings {
    type Model = AlarmSettings;

    open spec fn model(&self) -> AlarmSettings {
        *self
    }

    open spec fn width() -> nat {
        13
    }

    open spec fn failure(stream: Seq<u8>, at: int, keep: bool) -> Option<Failure> {
        let alarms = stream[at + 1] as u16;
        AlarmFlags::failure(stream, at, keep).otherwise(reserved(stream, at + 1, 2)).otherwise(
            StartupDelay::failure(stream, at + 3, keep),
        ).otherwise(Flow::failure(stream, at + 4, keep && has_flag(alarms, 0x01))).otherwise(
            Temperature::failure(stream, at + 6, keep && has_flag(alarms, 0x02)),
        ).otherwise(Temperature::failure(stream, at + 8, keep && has_flag(alarms, 0x04))).otherwise(
            WaterQuality::failure(stream, at + 10, keep && has_flag(alarms, 0x08)),
        ).otherwise(OutputSignal::failure(stream, at + 12, keep))
    }

    open spec fn value(stream: Seq<u8>, at: int) -> AlarmSettings {
        let alarms = stream[at + 1] as u16;
        AlarmSettings {
            flags: AlarmFlags::value(stream, at),
            startup_delay: StartupDelay::value(stream, at + 3),
            flow_alarm_limit: if has_flag(alarms, 0x01) {
                Some(Flow::value(stream, at + 4))
            } else {
                None
            },
            water_temperature_limit: if has_flag(alarms, 0x02) {
                Some(Temperature::value(stream, at + 6))
            } else {
                None
            },
            external_temperature_limit: if has_flag(alarms, 0x04) {
                Some(Temperature::value(stream, at + 8))
            } else {
                None
            },
            water_quality_limit: if has_flag(alarms, 0x08) {
                Some(WaterQuality::value(stream, at + 10))
            } else {
                None
            },
            output_signal: OutputSignal::value(stream, at + 12),
        }
    }

    proof fn lemma_skip_parity(stream: Seq<u8>, at: int) {
    }

    fn decode<R: Reader>(reader: &mut R) -> (res: Result<GuardOutput<Self>, Error>) {
        let flags = AlarmFlags::decode(reader)?;
        let alarms = reader.read_u8()? as u16;
        reader.skip::<1>()?;
        let startup_delay = StartupDelay::decode(reader)?;
        let flow_alarm_limit = Flow::decode_opt(reader, flag_set(alarms, 0x01))?;
        let water_temperature_limit = Temperature::decode_opt(reader, flag_set(alarms, 0x02))?;
        let external_temperature_limit = Temperature::decode_opt(reader, flag_set(alarms, 0x04))?;
        let water_quality_limit = WaterQuality::decode_opt(reader, flag_set(alarms, 0x08))?;
        let output_signal = OutputSignal::decode(reader)?;
        match R::guard() {
            Some(x) => Ok(
                GuardOutput::Value(
                    AlarmSettings {
                        flags: x.extract(flags),
                        startup_delay: x.extract(startup_delay),
                        flow_alarm_limit: x.extract(flow_alarm_limit),
                        water_temperature_limit: x.extract(water_temperature_limit),
                        external_temperature_limit: x.extract(external_temperature_limit),
                        water_quality_limit: x.extract(water_quality_limit),
                        output_signal: x.extract(output_signal),
                    },
                ),
            ),
            None => Ok(GuardOutput::Skipped),
        }
    }
}

/// Signal at the signal output connector, used in
/// [`AlarmSettings::output_signal`].
#[derive(Debug, Clone, Copy, PartialEq, Eq, Structural)]
pub enum OutputSignal {
    /// A constant speed signal.
    ConstantSpeed,
    /// The signal of a high flow sensor (53069).
    HighFlowSensor,
    /// A fan speed signal made from the flow (1000 rpm for 100 l/h).
    FanFromFlow,
    /// Switched on for one second at an alarm.
    PulseOnAlarm,
    /// Switched on all the time.
    PermanentOn,
    /// Switched off all the time.
    PermanentOff,
}

/// The value that the code `code` selects, if it selects one.
pub open spec fn output_signal_of(code: int) -> Option<OutputSignal> {
        if code == 0x00 {
            Some(OutputSignal::ConstantSpeed)
        } else if code == 0x01 {
            Some(OutputSignal::HighFlowSensor)
        } else if code == 0x02 {
            Some(OutputSignal::FanFromFlow)
        } else if code == 0x03 {
            Some(OutputSignal::PulseOnAlarm)
        } else if code == 0x04 {
            Some(OutputSignal::PermanentOn)
        } else if code == 0x05 {
            Some(OutputSignal::PermanentOff)
        } else {
            None
        }
}

/// The selector takes one byte, and a code that selects nothing is
/// reported under the name `OutputSignal` in either mode.
impl Decode for OutputSignal {
    type Model = OutputSignal;

    open spec fn model(&self) -> OutputSignal {
        *self
    }

    open spec fn width() -> nat {
        1
    }

    open spec fn failure(stream: Seq<u8>, at: int, keep: bool) -> Option<Failure> {
        reserved(stream, at, 1).otherwise(
            fails_if(
                output_signal_of(stream[at] as int) is None,
                invalid("OutputSignal", stream[at] as int),
            ),
        )
    }

    open spec fn value(stream: Seq<u8>, at: int) -> OutputSignal {
        output_signal_of(stream[at] as int).unwrap()
    }

    proof fn lemma_skip_parity(stream: Seq<u8>, at: int) {
    }

    fn decode<R: Reader>(reader: &mut R) -> (res: Result<GuardOutput<Self>, Error>) {
        match reader.read_u8()? {
            0x00 => Ok(keep::<R, OutputSignal>(OutputSignal::ConstantSpeed)),
            0x01 => Ok(keep::<R, OutputSignal>(OutputSignal::HighFlowSensor)),
            0x02 => Ok(keep::<R, OutputSignal>(OutputSignal::FanFromFlow)),
            0x03 => Ok(keep::<R, OutputSignal>(OutputSignal::PulseOnAlarm)),
            0x04 => Ok(keep::<R, OutputSignal>(OutputSignal::PermanentOn)),
            0x05 => Ok(keep::<R, OutputSignal>(OutputSignal::PermanentOff)),
            x => Err(Error::InvalidValue("OutputSignal", x as usize)),
        }
    }
}

/// What the device does during an alarm, used in [`AlarmSettings::flags`].
#[derive(Debug, Clone, Copy, PartialEq, Eq, Structural)]
pub struct AlarmFlags {
    /// The flags that are set, one bit each.
    pub bits: u8,
}

impl AlarmFlags {
    /// Switch the signal output off during an alarm.
    pub const DISABLE_SIGNAL_OUTPUT_DURING_ALARM: u8 = 0x20;

    /// Flash the ring in red during an alarm.
    pub const ENABLE_OPTICAL_INDICATOR: u8 = 0x40;

    /// Sound the beeper during an alarm.
    pub const ENABLE_ACUSTIC_INDICATOR: u8 = 0x80;

    /// The bits that have a meaning.
    pub const ALL: u8 = 0xE0;

    /// No flag.
    pub fn empty() -> (flags: Self)
        ensures
            flags.bits == 0,
    {
        AlarmFlags { bits: 0 }
    }

    /// The flags for the bits of `bits` that have a meaning.
    pub fn from_bits_truncate(bits: u8) -> (flags: Self)
        ensures
            flags.bits == bits & Self::ALL,
    {
        AlarmFlags { bits: bits & Self::ALL }
    }

    /// The bits that are set.
    pub fn bits(&self) -> (bits: u8)
        ensures
            bits == self.bits,
    {
        self.bits
    }

    /// Whether every bit of `flags` is set.
    pub fn contains(&self, flags: u8) -> (all: bool)
        ensures
            all == (self.bits & flags == flags),
    {
        self.bits & flags == flags
    }
}

/// The flags take one byte, of which the bits without a meaning are dropped.
impl Decode for AlarmFlags {
    type Model = AlarmFlags;

    open spec fn model(&self) -> AlarmFlags {
        *self
    }

    open spec fn width() -> nat {
        1
    }

    open spec fn failure(stream: Seq<u8>, at: int, keep: bool) -> Option<Failure> {
        reserved(stream, at, 1)
    }

    open spec fn value(stream: Seq<u8>, at: int) -> AlarmFlags {
        AlarmFlags { bits: stream[at] & Self::ALL }
    }

    proof fn lemma_skip_parity(stream: Seq<u8>, at: int) {
    }

    fn decode<R: Reader>(reader: &mut R) -> (res: Result<GuardOutput<Self>, Error>) {
        let bits = reader.read_u8()?;
        Ok(keep::<R, AlarmFlags>(Self::from_bits_truncate(bits)))
    }
}

/// Time after power-on during which no alarm is raised, used in
/// [`AlarmSettings::startup_delay`].
///
/// Valid value range: 0..=100 in seconds
pub type StartupDelay = Wrapped<u8, StartupDelayTag>;

/// The domain of [`StartupDelay`].
#[derive(Debug, Clone, Copy, PartialEq, Eq, PartialOrd, Ord)]
pub struct StartupDelayTag;

impl Ranged<u8> for StartupDelayTag {
    open spec fn lower() -> u8 {
        0
    }

    open spec fn upper() -> u8 {
        100
    }

    fn min_inclusive() -> (min: u8) {
        0
    }

    fn max_inclusive() -> (max: u8) {
        100
    }
}

/// A temperature.
///
/// Valid value range: 0..=10_000 in 1/100 degree
pub type Temperature = Wrapped<u16, TemperatureTag>;

/// The domain of [`Temperature`].
#[derive(Debug, Clone, Copy, PartialEq, Eq, PartialOrd, Ord)]
pub struct TemperatureTag;

impl Ranged<u16> for TemperatureTag {
    open spec fn lower() -> u16 {
        0
    }

    open spec fn upper() -> u16 {
        10_000
    }

    fn min_inclusive() -> (min: u16) {
        0
    }

    fn max_inclusive() -> (max: u16) {
        10_000
    }
}

/// A water quality.
///
/// Valid value range: 0..=10000 in 1/100 percent
pub type WaterQuality = Wrapped<u16, WaterQualityTag>;

/// The domain of [`WaterQuality`].
#[derive(Debug, Clone, Copy, PartialEq, Eq, PartialOrd, Ord)]
pub struct WaterQualityTag;

impl Ranged<u16> for WaterQualityTag {
    open spec fn lower() -> u16 {
        0
    }

    open spec fn upper() -> u16 {
        10000
    }

    fn min_inclusive() -> (min: u16) {
        0
    }

    fn max_inclusive() -> (max: u16) {
        10000
    }
}

} // verus!
