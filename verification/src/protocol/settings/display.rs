//! Settings of the display of the device.

use vstd::prelude::*;

use crate::misc::io::{be_u16, fails_if, invalid, keep, reserved, Checks};
use crate::misc::{Decode, Error, Failure, Guard, GuardOutput, Ranged, Reader, Wrapped};

verus! {

/// Display related settings.
#[derive(Debug, Clone, PartialEq, Eq)]
pub struct DisplaySettings {
    /// Unit in which temperatures are shown.
    pub temperature_unit: TemperatureUnit,
    /// Unit in which the flow is shown.
    pub flow_unit: FlowUnit,
    /// How the display behaves.
    pub display_flags: DisplayFlags,
    /// Time after which the next page is shown, if the pages change by
    /// themselves.
    pub next_page_interval: Option<NextPageInterval>,
    /// Pages that are shown.
    pub page_flags: PageFlags,
    /// Brightness of the display in operation.
    pub display_brightness: DisplayBrightness,
    /// Brightness of the display when idle, if it differs.
    pub idle_display_brightness: Option<DisplayBrightness>,
    /// The four charts.
    pub charts: [Chart; 4],
}

/// The display settings take 35 bytes: the two units, a reserved byte, the
/// page interval, two reserved bytes, the page flags, four reserved bytes, the
/// two brightness levels, four reserved bytes, the display flags and the four
/// charts.
impl Decode for DisplaySettings {
    type Model = DisplaySettings;

    open spec fn model(&self) -> DisplaySettings {
        *self
    }

    open spec fn width() -> nat {
        35
    }

    open spec fn failure(stream: Seq<u8>, at: int, keep: bool) -> Option<Failure> {
        TemperatureUnit::failure(stream, at, keep).otherwise(
            FlowUnit::failure(stream, at + 1, keep),
        ).otherwise(reserved(stream, at + 2, 1)).otherwise(
            Option::<NextPageInterval>::failure(stream, at + 3, keep),
        ).otherwise(reserved(stream, at + 4, 2)).otherwise(
            PageFlags::failure(stream, at + 6, keep),
        ).otherwise(reserved(stream, at + 8, 4)).otherwise(
            DisplayBrightness::failure(stream, at + 12, keep),
        ).otherwise(Option::<DisplayBrightness>::failure(stream, at + 13, keep)).otherwise(
            reserved(stream, at + 14, 4),
        ).otherwise(DisplayFlags::failure(stream, at + 18, keep)).otherwise(
            <[Chart; 4]>::failure(stream, at + 19, keep),
        )
    }

    open spec fn value(stream: Seq<u8>, at: int) -> DisplaySettings {
        DisplaySettings {
            temperature_unit: TemperatureUnit::value(stream, at),
            flow_unit: FlowUnit::value(stream, at + 1),
            display_flags: DisplayFlags::value(stream, at + 18),
            next_page_interval: Option::<NextPageInterval>::value(stream, at + 3),
            page_flags: PageFlags::value(stream, at + 6),
            display_brightness: DisplayBrightness::value(stream, at + 12),
            idle_display_brightness: Option::<DisplayBrightness>::value(stream, at + 13),
            charts: [
                Chart::value(stream, at + 19),
                Chart::value(stream, at + 23),
                Chart::value(stream, at + 27),
                Chart::value(stream, at + 31),
            ],
        }
    }

    proof fn lemma_skip_parity(stream: Seq<u8>, at: int) {
        <[Chart; 4]>::lemma_skip_parity(stream, at + 19);
    }

    fn decode<R: Reader>(reader: &mut R) -> (res: Result<GuardOutput<Self>, Error>) {
        let ghost stream = reader.cursor().stream;
        let ghost at = reader.cursor().at();
        let temperature_unit = TemperatureUnit::decode(reader)?;
        let flow_unit = FlowUnit::decode(reader)?;
        reader.skip::<1>()?;
        let next_page_interval = Option::<NextPageInterval>::decode(reader)?;
        reader.skip::<2>()?;
        let page_flags = PageFlags::decode(reader)?;
        reader.skip::<4>()?;
        let display_brightness = DisplayBrightness::decode(reader)?;
        let idle_display_brightness = Option::<DisplayBrightness>::decode(reader)?;
        reader.skip::<4>()?;
        let display_flags = DisplayFlags::decode(reader)?;
        let charts = <[Chart; 4]>::decode(reader)?;
        match R::guard() {
            Some(x) => {
                let charts = x.extract(charts);
                proof {
                    let decoded = <[Chart; 4]>::value(stream, at + 19);
                    assert(charts@[0] == decoded[0]);
                    assert(charts@[1] == decoded[1]);
                    assert(charts@[2] == decoded[2]);
                    assert(charts@[3] == decoded[3]);
                    assert(charts =~= Self::value(stream, at).charts);
                }
                Ok(
                    GuardOutput::Value(
                        DisplaySettings {
                            temperature_unit: x.extract(temperature_unit),
                            flow_unit: x.extract(flow_unit),
                            display_flags: x.extract(display_flags),
                            next_page_interval: x.extract(next_page_interval),
                            page_flags: x.extract(page_flags),
                            display_brightness: x.extract(display_brightness),
                            idle_display_brightness: x.extract(idle_display_brightness),
                            charts,
                        },
                    ),
                )
            },
            None => Ok(GuardOutput::Skipped),
        }
    }
}

/// One of the charts of the display, used in [`DisplaySettings::charts`].
#[derive(Debug, Clone, Copy, PartialEq, Eq)]
pub struct Chart {
    /// The quantity that the chart shows.
    pub source: ChartSource,
    /// Time between two points of the chart.
    pub interval: ChartInterval,
}

/// A chart takes four bytes: a reserved byte, the source and the interval.
impl Decode for Chart {
    type Model = Chart;

    open spec fn model(&self) -> Chart {
        *self
    }

    open spec fn width() -> nat {
        4
    }

    open spec fn failure(stream: Seq<u8>, at: int, keep: bool) -> Option<Failure> {
        reserved(stream, at, 1).otherwise(ChartSource::failure(stream, at + 1, keep)).otherwise(
            ChartInterval::failure(stream, at + 2, keep),
        )
    }

    open spec fn value(stream: Seq<u8>, at: int) -> Chart {
        Chart {
            source: ChartSource::value(stream, at + 1),
            interval: ChartInterval::value(stream, at + 2),
        }
    }

    proof fn lemma_skip_parity(stream: Seq<u8>, at: int) {
    }

    fn decode<R: Reader>(reader: &mut R) -> (res: Result<GuardOutput<Self>, Error>) {
        reader.skip::<1>()?;
        let source = ChartSource::decode(reader)?;
        let interval = ChartInterval::decode(reader)?;
        match R::guard() {
            Some(x) => Ok(
                GuardOutput::Value(
                    Chart { source: x.extract(source), interval: x.extract(interval) },
                ),
            ),
            None => Ok(GuardOutput::Skipped),
        }
    }
}

/// Unit in which temperatures are shown, used in
/// [`DisplaySettings::temperature_unit`].
#[derive(Debug, Clone, Copy, PartialEq, Eq, Structural)]
pub enum TemperatureUnit {
    /// Degree Celsius.
    C,
    /// Degree Fahrenheit.
    F,
}

/// The value that the code `code` selects, if it selects one.
pub open spec fn temperature_unit_of(code: int) -> Option<TemperatureUnit> {
        if code == 0x00 {
            Some(TemperatureUnit::C)
        } else if code == 0x01 {
            Some(TemperatureUnit::F)
        } else {
            None
        }
}

/// The selector takes one byte, and a code that selects nothing is
/// reported under the name `TemperatureUnit` in either mode.
impl Decode for TemperatureUnit {
    type Model = TemperatureUnit;

    open spec fn model(&self) -> TemperatureUnit {
        *self
    }

    open spec fn width() -> nat {
        1
    }

    open spec fn failure(stream: Seq<u8>, at: int, keep: bool) -> Option<Failure> {
        reserved(stream, at, 1).otherwise(
            fails_if(
                temperature_unit_of(stream[at] as int) is None,
                invalid("TemperatureUnit", stream[at] as int),
            ),
        )
    }

    open spec fn value(stream: Seq<u8>, at: int) -> TemperatureUnit {
        temperature_unit_of(stream[at] as int).unwrap()
    }

    proof fn lemma_skip_parity(stream: Seq<u8>, at: int) {
    }

    fn decode<R: Reader>(reader: &mut R) -> (res: Result<GuardOutput<Self>, Error>) {
        match reader.read_u8()? {
            0x00 => Ok(keep::<R, TemperatureUnit>(TemperatureUnit::C)),
            0x01 => Ok(keep::<R, TemperatureUnit>(TemperatureUnit::F)),
            x => Err(Error::InvalidValue("TemperatureUnit", x as usize)),
        }
    }
}

/// Unit in which the flow is shown, used in [`DisplaySettings::flow_unit`].
#[derive(Debug, Clone, Copy, PartialEq, Eq, Structural)]
pub enum FlowUnit {
    /// Liter per hour.
    Liter,
    /// Gallons per hour.
    Gallons,
}

/// The value that the code `code` selects, if it selects one.
pub open spec fn flow_unit_of(code: int) -> Option<FlowUnit> {
        if code == 0x00 {
            Some(FlowUnit::Liter)
        } else if code == 0x01 {
            Some(FlowUnit::Gallons)
        } else {
            None
        }
}

/// The selector takes one byte, and a code that selects nothing is
/// reported under the name `FlowUnit` in either mode.
impl Decode for FlowUnit {
    type Model = FlowUnit;

    open spec fn model(&self) -> FlowUnit {
        *self
    }

    open spec fn width() -> nat {
        1
    }

    open spec fn failure(stream: Seq<u8>, at: int, keep: bool) -> Option<Failure> {
        reserved(stream, at, 1).otherwise(
            fails_if(
                flow_unit_of(stream[at] as int) is None,
                invalid("FlowUnit", stream[at] as int),
            ),
        )
    }

    open spec fn value(stream: Seq<u8>, at: int) -> FlowUnit {
        flow_unit_of(stream[at] as int).unwrap()
    }

    proof fn lemma_skip_parity(stream: Seq<u8>, at: int) {
    }

    fn decode<R: Reader>(reader: &mut R) -> (res: Result<GuardOutput<Self>, Error>) {
        match reader.read_u8()? {
            0x00 => Ok(keep::<R, FlowUnit>(FlowUnit::Liter)),
            0x01 => Ok(keep::<R, FlowUnit>(FlowUnit::Gallons)),
            x => Err(Error::InvalidValue("FlowUnit", x as usize)),
        }
    }
}

/// Brightness of the display.
#[derive(Debug, Clone, Copy, PartialEq, Eq, Structural)]
pub enum DisplayBrightness {
    /// The brightest level.
    Maximum,
    /// The medium level.
    Medium,
    /// The darkest level.
    Low,
}

/// The value that the code `code` selects, if it selects one.
pub open spec fn display_brightness_of(code: int) -> Option<DisplayBrightness> {
        if code == 0x00 {
            Some(DisplayBrightness::Maximum)
        } else if code == 0x01 {
            Some(DisplayBrightness::Medium)
        } else if code == 0x02 {
            Some(DisplayBrightness::Low)
        } else {
            None
        }
}

/// The selector takes one byte, and a code that selects nothing is
/// reported under the name `DisplayBrightness` in either mode.
impl Decode for DisplayBrightness {
    type Model = DisplayBrightness;

    open spec fn model(&self) -> DisplayBrightness {
        *self
    }

    open spec fn width() -> nat {
        1
    }

    open spec fn failure(stream: Seq<u8>, at: int, keep: bool) -> Option<Failure> {
        reserved(stream, at, 1).otherwise(
            fails_if(
                display_brightness_of(stream[at] as int) is None,
                invalid("DisplayBrightness", stream[at] as int),
            ),
        )
    }

    open spec fn value(stream: Seq<u8>, at: int) -> DisplayBrightness {
        display_brightness_of(stream[at] as int).unwrap()
    }

    proof fn lemma_skip_parity(stream: Seq<u8>, at: int) {
    }

    fn decode<R: Reader>(reader: &mut R) -> (res: Result<GuardOutput<Self>, Error>) {
        match reader.read_u8()? {
            0x00 => Ok(keep::<R, DisplayBrightness>(DisplayBrightness::Maximum)),
            0x01 => Ok(keep::<R, DisplayBrightness>(DisplayBrightness::Medium)),
            0x02 => Ok(keep::<R, DisplayBrightness>(DisplayBrightness::Low)),
            x => Err(Error::InvalidValue("DisplayBrightness", x as usize)),
        }
    }
}

/// The value that the code `code` selects, if it selects one.
pub open spec fn option_display_brightness_of(code: int) -> Option<Option<DisplayBrightness>> {
        if code == 0x00 {
            Some(Some(DisplayBrightness::Maximum))
        } else if code == 0x01 {
            Some(Some(DisplayBrightness::Medium))
        } else if code == 0x02 {
            Some(Some(DisplayBrightness::Low))
        } else if code == 0x03 {
            Some(None)
        } else {
            None
        }
}

/// An optional value takes one byte, and a code that selects nothing is
/// reported under the name `Option<DisplayBrightness>` in either mode.
impl Decode for Option<DisplayBrightness> {
    type Model = Option<DisplayBrightness>;

    open spec fn model(&self) -> Option<DisplayBrightness> {
        *self
    }

    open spec fn width() -> nat {
        1
    }

    open spec fn failure(stream: Seq<u8>, at: int, keep: bool) -> Option<Failure> {
        reserved(stream, at, 1).otherwise(
            fails_if(
                option_display_brightness_of(stream[at] as int) is None,
                invalid("Option<DisplayBrightness>", stream[at] as int),
            ),
        )
    }

    open spec fn value(stream: Seq<u8>, at: int) -> Option<DisplayBrightness> {
        option_display_brightness_of(stream[at] as int).unwrap()
    }

    proof fn lemma_skip_parity(stream: Seq<u8>, at: int) {
    }

    fn decode<R: Reader>(reader: &mut R) -> (res: Result<GuardOutput<Self>, Error>) {
        match reader.read_u8()? {
            0x00 => Ok(keep::<R, Option<DisplayBrightness>>(Some(DisplayBrightness::Maximum))),
            0x01 => Ok(keep::<R, Option<DisplayBrightness>>(Some(DisplayBrightness::Medium))),
            0x02 => Ok(keep::<R, Option<DisplayBrightness>>(Some(DisplayBrightness::Low))),
            0x03 => Ok(keep::<R, Option<DisplayBrightness>>(None)),
            x => Err(Error::InvalidValue("Option<DisplayBrightness>", x as usize)),
        }
    }
}

/// The quantity that a chart shows, used in [`Chart::source`].
#[derive(Debug, Clone, Copy, PartialEq, Eq, Structural)]
pub enum ChartSource {
    /// The flow.
    Flow,
    /// The water temperature.
    WaterTemp,
    /// The external temperature.
    ExternalTemp,
    /// The conductivity.
    Conductivity,
    /// The water quality.
    WaterQuality,
    /// The power.
    PowerConsumption,
    /// The supply voltage (5 V).
    SystemVoltage,
}

/// The value that the code `code` selects, if it selects one.
pub open spec fn chart_source_of(code: int) -> Option<ChartSource> {
        if code == 0x00 {
            Some(ChartSource::Flow)
        } else if code == 0x01 {
            Some(ChartSource::WaterTemp)
        } else if code == 0x02 {
            Some(ChartSource::ExternalTemp)
        } else if code == 0x03 {
            Some(ChartSource::Conductivity)
        } else if code == 0x04 {
            Some(ChartSource::WaterQuality)
        } else if code == 0x05 {
            Some(ChartSource::PowerConsumption)
        } else if code == 0x06 {
            Some(ChartSource::SystemVoltage)
        } else {
            None
        }
}

/// The selector takes one byte, and a code that selects nothing is
/// reported under the name `ChartSource` in either mode.
impl Decode for ChartSource {
    type Model = ChartSource;

    open spec fn model(&self) -> ChartSource {
        *self
    }

    open spec fn width() -> nat {
        1
    }

    open spec fn failure(stream: Seq<u8>, at: int, keep: bool) -> Option<Failure> {
        reserved(stream, at, 1).otherwise(
            fails_if(
                chart_source_of(stream[at] as int) is None,
                invalid("ChartSource", stream[at] as int),
            ),
        )
    }

    open spec fn value(stream: Seq<u8>, at: int) -> ChartSource {
        chart_source_of(stream[at] as int).unwrap()
    }

    proof fn lemma_skip_parity(stream: Seq<u8>, at: int) {
    }

    fn decode<R: Reader>(reader: &mut R) -> (res: Result<GuardOutput<Self>, Error>) {
        match reader.read_u8()? {
            0x00 => Ok(keep::<R, ChartSource>(ChartSource::Flow)),
            0x01 => Ok(keep::<R, ChartSource>(ChartSource::WaterTemp)),
            0x02 => Ok(keep::<R, ChartSource>(ChartSource::ExternalTemp)),
            0x03 => Ok(keep::<R, ChartSource>(ChartSource::Conductivity)),
            0x04 => Ok(keep::<R, ChartSource>(ChartSource::WaterQuality)),
            0x05 => Ok(keep::<R, ChartSource>(ChartSource::PowerConsumption)),
            0x06 => Ok(keep::<R, ChartSource>(ChartSource::SystemVoltage)),
            x => Err(Error::InvalidValue("ChartSource", x as usize)),
        }
    }
}

/// How the display behaves, used in [`DisplaySettings::display_flags`].
#[derive(Debug, Clone, Copy, PartialEq, Eq, Structural)]
pub struct DisplayFlags {
    /// The flags that are set, one bit each.
    pub bits: u8,
}

impl DisplayFlags {
    /// Turn the display by 180 degrees.
    pub const ROTATE: u8 = 0x01;

    /// Invert the colors of the display.
    pub const INVERT: u8 = 0x04;

    /// Invert the colors of the display from time to time.
    pub const AUTO_INVERT: u8 = 0x08;

    /// Switch the buttons of the device off.
    pub const DISABLE_BUTTONS: u8 = 0x10;

    /// Lock the menu of the device.
    pub const LOCK_MENU: u8 = 0x20;

    /// The bits that have a meaning.
    pub const ALL: u8 = 0x3D;

    /// No flag.
    pub fn empty() -> (flags: Self)
        ensures
            flags.bits == 0,
    {
        DisplayFlags { bits: 0 }
    }

    /// The flags for the bits of `bits` that have a meaning.
    pub fn from_bits_truncate(bits: u8) -> (flags: Self)
        ensures
            flags.bits == bits & Self::ALL,
    {
        DisplayFlags { bits: bits & Self::ALL }
    }

    /// The bits that are set.
    pub fn bits(&self) -> (bits: u8)
        ensures
            bits == self.bits,
    {
        self.bits
    }

    /// Whether every bit of `flags` is set.
    pub fn contains(&self, flags: u8) -> (all: bool)
        ensures
            all == (self.bits & flags == flags),
    {
        self.bits & flags == flags
    }
}

/// The flags take one byte, of which the bits without a meaning are dropped.
impl Decode for DisplayFlags {
    type Model = DisplayFlags;

    open spec fn model(&self) -> DisplayFlags {
        *self
    }

    open spec fn width() -> nat {
        1
    }

    open spec fn failure(stream: Seq<u8>, at: int, keep: bool) -> Option<Failure> {
        reserved(stream, at, 1)
    }

    open spec fn value(stream: Seq<u8>, at: int) -> DisplayFlags {
        DisplayFlags { bits: stream[at] & Self::ALL }
    }

    proof fn lemma_skip_parity(stream: Seq<u8>, at: int) {
    }

    fn decode<R: Reader>(reader: &mut R) -> (res: Result<GuardOutput<Self>, Error>) {
        let bits = reader.read_u8()?;
        Ok(keep::<R, DisplayFlags>(Self::from_bits_truncate(bits)))
    }
}

/// The pages that the display shows, used in [`DisplaySettings::page_flags`].
#[derive(Debug, Clone, Copy, PartialEq, Eq, Structural)]
pub struct PageFlags {
    /// The flags that are set, one bit each.
    pub bits: u16,
}

impl PageFlags {
    /// The page with the logo of the device.
    pub const DEVICE_INFO: u16 = 0x0001;

    /// The page with the flow.
    pub const FLOW: u16 = 0x0002;

    /// The page with the water temperature.
    pub const WATER_TEMP: u16 = 0x0004;

    /// The page with the external temperature.
    pub const EXTERNAL_TEMP: u16 = 0x0008;

    /// The page with the conductivity.
    pub const CONDUCTIVITY: u16 = 0x0010;

    /// The page with the water quality.
    pub const WATER_QUALITY: u16 = 0x0020;

    /// The page with the volume counter.
    pub const VOLUME_COUNT: u16 = 0x0040;

    /// The page with the power.
    pub const POWER_SENSOR: u16 = 0x0080;

    /// The page with the flow and the water temperature.
    pub const FLOW_WATERTEMP: u16 = 0x0100;

    /// The page with the conductivity and the water quality.
    pub const COND_QUALITY: u16 = 0x0200;

    /// The page with both temperatures.
    pub const TEMPERATURES: u16 = 0x0400;

    /// The page with the flow and the volume.
    pub const FLOW_VOLUME: u16 = 0x0800;

    /// The first chart.
    pub const CHART1: u16 = 0x1000;

    /// The second chart.
    pub const CHART2: u16 = 0x2000;

    /// The third chart.
    pub const CHART3: u16 = 0x4000;

    /// The fourth chart.
    pub const CHART4: u16 = 0x8000;

    /// The bits that have a meaning.
    pub const ALL: u16 = 0xFFFF;

    /// No flag.
    pub fn empty() -> (flags: Self)
        ensures
            flags.bits == 0,
    {
        PageFlags { bits: 0 }
    }

    /// The flags for the bits of `bits` that have a meaning.
    pub fn from_bits_truncate(bits: u16) -> (flags: Self)
        ensures
            flags.bits == bits & Self::ALL,
    {
        PageFlags { bits: bits & Self::ALL }
    }

    /// The bits that are set.
    pub fn bits(&self) -> (bits: u16)
        ensures
            bits == self.bits,
    {
        self.bits
    }

    /// Whether every bit of `flags` is set.
    pub fn contains(&self, flags: u16) -> (all: bool)
        ensures
            all == (self.bits & flags == flags),
    {
        self.bits & flags == flags
    }
}

/// The flags take two bytes, of which the bits without a meaning are dropped.
impl Decode for PageFlags {
    type Model = PageFlags;

    open spec fn model(&self) -> PageFlags {
        *self
    }

    open spec fn width() -> nat {
        2
    }

    open spec fn failure(stream: Seq<u8>, at: int, keep: bool) -> Option<Failure> {
        reserved(stream, at, 2)
    }

    open spec fn value(stream: Seq<u8>, at: int) -> PageFlags {
        PageFlags { bits: be_u16(stream[at], stream[at + 1]) & Self::ALL }
    }

    proof fn lemma_skip_parity(stream: Seq<u8>, at: int) {
    }

    fn decode<R: Reader>(reader: &mut R) -> (res: Result<GuardOutput<Self>, Error>) {
        let bits = reader.read_u16be()?;
        Ok(keep::<R, PageFlags>(Self::from_bits_truncate(bits)))
    }
}

/// Time between two points of a chart, used in [`Chart::interval`].
///
/// Valid value range: 1..=60_000 in 1/10 second
pub type ChartInterval = Wrapped<u16, ChartIntervalTag>;

/// The domain of [`ChartInterval`].
#[derive(Debug, Clone, Copy, PartialEq, Eq, PartialOrd, Ord)]
pub struct ChartIntervalTag;

impl Ranged<u16> for ChartIntervalTag {
    open spec fn lower() -> u16 {
        1
    }

    open spec fn upper() -> u16 {
        60_000
    }

    fn min_inclusive() -> (min: u16) {
        1
    }

    fn max_inclusive() -> (max: u16) {
        60_000
    }
}

/// Time after which the next page is shown, used in
/// [`DisplaySettings::next_page_interval`].
///
/// Valid value range: 3..=60 in seconds
pub type NextPageInterval = Wrapped<u8, NextPageIntervalTag>;

/// The domain of [`NextPageInterval`].
#[derive(Debug, Clone, Copy, PartialEq, Eq, PartialOrd, Ord)]
pub struct NextPageIntervalTag;

impl Ranged<u8> for NextPageIntervalTag {
    open spec fn lower() -> u8 {
        3
    }

    open spec fn upper() -> u8 {
        60
    }

    fn min_inclusive() -> (min: u8) {
        3
    }

    fn max_inclusive() -> (max: u8) {
        60
    }
}

/// The page interval takes one byte. A number above the largest interval
/// says that the pages do not change by themselves. A number below the
/// smallest interval is reported under the name `NextPageInterval`, in the
/// mode that keeps values only.
impl Decode for Option<NextPageInterval> {
    type Model = Option<NextPageInterval>;

    open spec fn model(&self) -> Option<NextPageInterval> {
        *self
    }

    open spec fn width() -> nat {
        1
    }

    open spec fn failure(stream: Seq<u8>, at: int, keep: bool) -> Option<Failure> {
        reserved(stream, at, 1).otherwise(
            fails_if(keep && stream[at] < 3, invalid("NextPageInterval", stream[at] as int)),
        )
    }

    open spec fn value(stream: Seq<u8>, at: int) -> Option<NextPageInterval> {
        if stream[at] <= 60 {
            Some(NextPageInterval::holding(stream[at]))
        } else {
            None
        }
    }

    proof fn lemma_skip_parity(stream: Seq<u8>, at: int) {
    }

    fn decode<R: Reader>(reader: &mut R) -> (res: Result<GuardOutput<Self>, Error>) {
        let val = reader.read_u8()?;
        match R::guard() {
            Some(_) => if val <= NextPageInterval::max_inclusive() {
                match NextPageInterval::from_value(val) {
                    Ok(interval) => Ok(GuardOutput::Value(Some(interval))),
                    Err(_) => Err(Error::InvalidValue("NextPageInterval", val as usize)),
                }
            } else {
                Ok(GuardOutput::Value(None))
            },
            None => Ok(GuardOutput::Skipped),
        }
    }
}

} // verus!
