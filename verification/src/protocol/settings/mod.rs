//! The settings of a high flow NEXT device.

pub mod alarm;
pub mod display;
pub mod lighting;
pub mod sensor;
pub mod system;

use vstd::prelude::*;

use crate::misc::io::{reserved, Checks};
use crate::misc::{Decode, Error, Failure, Guard, GuardOutput, Ranged, Reader, Wrapped};

pub use self::alarm::{
    AlarmFlags, AlarmSettings, OutputSignal, StartupDelay, StartupDelayTag, Temperature,
    TemperatureTag, WaterQuality, WaterQualityTag,
};
pub use self::display::{
    Chart, ChartInterval, ChartIntervalTag, ChartSource, DisplayBrightness, DisplayFlags,
    DisplaySettings, FlowUnit, NextPageInterval, NextPageIntervalTag, PageFlags, TemperatureUnit,
};
pub use self::lighting::{
    LightingModel, LightingSettings, Brightness, BrightnessTag, Color, Controller, ControllerModel,
    DataSource, Effect, EffectAmbient, EffectBarGraph, EffectBarGraphModel, EffectBlink,
    EffectBlinkModel, EffectBreathing, EffectColorChange, EffectColorChangeModel,
    EffectColorGradient, EffectColorGradientModel, EffectColorSequence, EffectColorSequenceModel,
    EffectColorShift, EffectColorSwitch, EffectColorSwitchModel, EffectDelay, EffectDelayTag,
    EffectFlame, EffectModel, EffectPercent, EffectPercentTag, EffectRain, EffectRainbow,
    EffectScanner, EffectSequence, EffectSequenceModel, EffectSoundFlash, EffectSoundShift,
    EffectSoundSlider, EffectStatic, EffectSwipingRainbow, EffectWave, EffectWaveModel, EffectWidth,
    EffectWidthTag, RainItems, RainItemsTag, SoundEffect, SoundEffectSpeed, SoundEffectSpeedTag,
    SourceControl,
};
pub use self::sensor::{
    Conductivity, ConductivityOffset, ConductivityOffsetTag, ConductivityTag, ConnectorType,
    FlowCorrection, FlowCorrectionTag, Medium, PowerDamping, PowerDampingTag, PowerFlags,
    SensorSettings, TempOffset, TempOffsetTag,
};
pub use self::system::{
    AquaBusAddress, AquaBusAddressTag, CurrentDraw, CurrentDrawTag, StandbyFlags, SystemSettings,
};

verus! {

/// The settings of a high flow NEXT device.
#[derive(Debug, Clone, PartialEq, Eq)]
pub struct Settings {
    /// Settings of the device as a whole.
    pub system: SystemSettings,
    /// Settings of the sensors.
    pub sensor: SensorSettings,
    /// Settings of the alarms.
    pub alarms: AlarmSettings,
    /// Settings of the display.
    pub display: DisplaySettings,
    /// Settings of the lighting, unless the lighting is switched off.
    pub lighting: Option<LightingSettings>,
}

/// The mathematical content of [`Settings`].
pub ghost struct SettingsModel {
    /// See [`Settings::system`].
    pub system: SystemSettings,
    /// See [`Settings::sensor`].
    pub sensor: SensorSettings,
    /// See [`Settings::alarms`].
    pub alarms: AlarmSettings,
    /// See [`Settings::display`].
    pub display: DisplaySettings,
    /// See [`Settings::lighting`].
    pub lighting: Option<LightingModel>,
}

impl View for Settings {
    type V = SettingsModel;

    open spec fn view(&self) -> SettingsModel {
        SettingsModel {
            system: self.system,
            sensor: self.sensor,
            alarms: self.alarms,
            display: self.display,
            lighting: lighting::lighting_model(self.lighting),
        }
    }
}

/// The number of bytes that the settings take.
pub const SETTINGS_WIDTH: usize = 679;

/// The settings take 679 bytes, in this order: a version that is not looked
/// at, the display settings, the raised current limit, the Aqua-Bus address,
/// the offsets of the water and of the external temperature, the medium, the
/// connector, ten flow corrections, the ten flows to which they belong, the
/// lighting settings, the stand-by flags, two reserved bytes, the offset of
/// the conductivity, the conductivity of the best and that of the worst water
/// quality, a reserved byte, the power flags, the power damping, the alarm
/// settings and a reserved byte.
impl Decode for Settings {
    type Model = SettingsModel;

    open spec fn model(&self) -> SettingsModel {
        self@
    }

    open spec fn width() -> nat {
        SETTINGS_WIDTH as nat
    }

    open spec fn failure(stream: Seq<u8>, at: int, keep: bool) -> Option<Failure> {
        reserved(stream, at, 2).otherwise(DisplaySettings::failure(stream, at + 2, keep)).otherwise(
            Option::<CurrentDraw>::failure(stream, at + 37, keep),
        ).otherwise(AquaBusAddress::failure(stream, at + 41, keep)).otherwise(
            TempOffset::failure(stream, at + 42, keep),
        ).otherwise(TempOffset::failure(stream, at + 44, keep)).otherwise(
            Medium::failure(stream, at + 46, keep),
        ).otherwise(ConnectorType::failure(stream, at + 47, keep)).otherwise(
            <[FlowCorrection; 10]>::failure(stream, at + 48, keep),
        ).otherwise(<[Flow; 10]>::failure(stream, at + 68, keep)).otherwise(
            Option::<LightingSettings>::failure(stream, at + 88, keep),
        ).otherwise(StandbyFlags::failure(stream, at + 652, keep)).otherwise(
            reserved(stream, at + 653, 2),
        ).otherwise(ConductivityOffset::failure(stream, at + 655, keep)).otherwise(
            Conductivity::failure(stream, at + 657, keep),
        ).otherwise(Conductivity::failure(stream, at + 659, keep)).otherwise(
            reserved(stream, at + 661, 1),
        ).otherwise(PowerFlags::failure(stream, at + 662, keep)).otherwise(
            PowerDamping::failure(stream, at + 663, keep),
        ).otherwise(AlarmSettings::failure(stream, at + 665, keep)).otherwise(
            reserved(stream, at + 678, 1),
        )
    }

    open spec fn value(stream: Seq<u8>, at: int) -> SettingsModel {
        SettingsModel {
            system: SystemSettings {
                standby_flags: StandbyFlags::value(stream, at + 652),
                aqua_bus_address: AquaBusAddress::value(stream, at + 41),
                increased_current_draw: Option::<CurrentDraw>::value(stream, at + 37),
            },
            sensor: SensorSettings {
                medium: Medium::value(stream, at + 46),
                connector_type: ConnectorType::value(stream, at + 47),
                flow_correction: [
                    (Flow::value(stream, at + 68), FlowCorrection::value(stream, at + 48)),
                    (Flow::value(stream, at + 70), FlowCorrection::value(stream, at + 50)),
                    (Flow::value(stream, at + 72), FlowCorrection::value(stream, at + 52)),
                    (Flow::value(stream, at + 74), FlowCorrection::value(stream, at + 54)),
                    (Flow::value(stream, at + 76), FlowCorrection::value(stream, at + 56)),
                    (Flow::value(stream, at + 78), FlowCorrection::value(stream, at + 58)),
                    (Flow::value(stream, at + 80), FlowCorrection::value(stream, at + 60)),
                    (Flow::value(stream, at + 82), FlowCorrection::value(stream, at + 62)),
                    (Flow::value(stream, at + 84), FlowCorrection::value(stream, at + 64)),
                    (Flow::value(stream, at + 86), FlowCorrection::value(stream, at + 66)),
                ],
                water_temp_offset: TempOffset::value(stream, at + 42),
                external_temp_offset: TempOffset::value(stream, at + 44),
                conductivity_offset: ConductivityOffset::value(stream, at + 655),
                water_quality_max: Conductivity::value(stream, at + 657),
                water_quality_min: Conductivity::value(stream, at + 659),
                power_flags: PowerFlags::value(stream, at + 662),
                power_damping: PowerDamping::value(stream, at + 663),
            },
            alarms: AlarmSettings::value(stream, at + 665),
            display: DisplaySettings::value(stream, at + 2),
            lighting: Option::<LightingSettings>::value(stream, at + 88),
        }
    }

    proof fn lemma_skip_parity(stream: Seq<u8>, at: int) {
        if DisplaySettings::failure(stream, at + 2, true) is None {
            DisplaySettings::lemma_skip_parity(stream, at + 2);
        }
        if <[FlowCorrection; 10]>::failure(stream, at + 48, true) is None {
            <[FlowCorrection; 10]>::lemma_skip_parity(stream, at + 48);
        }
        if <[Flow; 10]>::failure(stream, at + 68, true) is None {
            <[Flow; 10]>::lemma_skip_parity(stream, at + 68);
        }
        if Option::<LightingSettings>::failure(stream, at + 88, true) is None {
            Option::<LightingSettings>::lemma_skip_parity(stream, at + 88);
        }
        if AlarmSettings::failure(stream, at + 665, true) is None {
            AlarmSettings::lemma_skip_parity(stream, at + 665);
        }
    }

    fn decode<R: Reader>(reader: &mut R) -> (res: Result<GuardOutput<Self>, Error>) {
        let ghost stream = reader.cursor().stream;
        let ghost at = reader.cursor().at();
        let _version = reader.read_u16be()?;
        let display = DisplaySettings::decode(reader)?;
        let increased_current_draw = Option::<CurrentDraw>::decode(reader)?;
        let aqua_bus_address = AquaBusAddress::decode(reader)?;
        let water_temp_offset = TempOffset::decode(reader)?;
        let external_temp_offset = TempOffset::decode(reader)?;
        let medium = Medium::decode(reader)?;
        let connector_type = ConnectorType::decode(reader)?;
        let flow_correction_values = <[FlowCorrection; 10]>::decode(reader)?;
        let flow_correction_flows = <[Flow; 10]>::decode(reader)?;
        let lighting = Option::<LightingSettings>::decode(reader)?;
        let standby_flags = StandbyFlags::decode(reader)?;
        reader.skip::<2>()?;
        let conductivity_offset = ConductivityOffset::decode(reader)?;
        let water_quality_max = Conductivity::decode(reader)?;
        let water_quality_min = Conductivity::decode(reader)?;
        reader.skip::<1>()?;
        let power_flags = PowerFlags::decode(reader)?;
        let power_damping = PowerDamping::decode(reader)?;
        let alarms = AlarmSettings::decode(reader)?;
        reader.skip::<1>()?;
        match R::guard() {
            Some(x) => {
                let flows = x.extract(flow_correction_flows);
                let corrections = x.extract(flow_correction_values);
                let flow_correction = [
                    (flows[0], corrections[0]),
                    (flows[1], corrections[1]),
                    (flows[2], corrections[2]),
                    (flows[3], corrections[3]),
                    (flows[4], corrections[4]),
                    (flows[5], corrections[5]),
                    (flows[6], corrections[6]),
                    (flows[7], corrections[7]),
                    (flows[8], corrections[8]),
                    (flows[9], corrections[9]),
                ];
                proof {
                    let wanted_flows = <[Flow; 10]>::value(stream, at + 68);
                    let wanted_corrections = <[FlowCorrection; 10]>::value(stream, at + 48);
                    assert(flows.model()[0] == wanted_flows[0]);
                    assert(flows.model()[1] == wanted_flows[1]);
                    assert(flows.model()[2] == wanted_flows[2]);
                    assert(flows.model()[3] == wanted_flows[3]);
                    assert(flows.model()[4] == wanted_flows[4]);
                    assert(flows.model()[5] == wanted_flows[5]);
                    assert(flows.model()[6] == wanted_flows[6]);
                    assert(flows.model()[7] == wanted_flows[7]);
                    assert(flows.model()[8] == wanted_flows[8]);
                    assert(flows.model()[9] == wanted_flows[9]);
                    assert(corrections.model()[0] == wanted_corrections[0]);
                    assert(corrections.model()[1] == wanted_corrections[1]);
                    assert(corrections.model()[2] == wanted_corrections[2]);
                    assert(corrections.model()[3] == wanted_corrections[3]);
                    assert(corrections.model()[4] == wanted_corrections[4]);
                    assert(corrections.model()[5] == wanted_corrections[5]);
                    assert(corrections.model()[6] == wanted_corrections[6]);
                    assert(corrections.model()[7] == wanted_corrections[7]);
                    assert(corrections.model()[8] == wanted_corrections[8]);
                    assert(corrections.model()[9] == wanted_corrections[9]);
                }
                let system = SystemSettings {
                    standby_flags: x.extract(standby_flags),
                    aqua_bus_address: x.extract(aqua_bus_address),
                    increased_current_draw: x.extract(increased_current_draw),
                };
                let sensor = SensorSettings {
                    medium: x.extract(medium),
                    connector_type: x.extract(connector_type),
                    flow_correction,
                    water_temp_offset: x.extract(water_temp_offset),
                    external_temp_offset: x.extract(external_temp_offset),
                    conductivity_offset: x.extract(conductivity_offset),
                    water_quality_max: x.extract(water_quality_max),
                    water_quality_min: x.extract(water_quality_min),
                    power_flags: x.extract(power_flags),
                    power_damping: x.extract(power_damping),
                };
                Ok(
                    GuardOutput::Value(
                        Settings {
                            system,
                            sensor,
                            alarms: x.extract(alarms),
                            display: x.extract(display),
                            lighting: x.extract(lighting),
                        },
                    ),
                )
            },
            None => Ok(GuardOutput::Skipped),
        }
    }
}

/// A flow of the coolant.
///
/// Valid value range: 0..=3000 in 1/10 liter or gallon per hour
pub type Flow = Wrapped<u16, FlowTag>;

/// The domain of [`Flow`].
#[derive(Debug, Clone, Copy, PartialEq, Eq, PartialOrd, Ord)]
pub struct FlowTag;

impl Ranged<u16> for FlowTag {
    open spec fn lower() -> u16 {
        0
    }

    open spec fn upper() -> u16 {
        3000
    }

    fn min_inclusive() -> (min: u16) {
        0
    }

    fn max_inclusive() -> (max: u16) {
        3000
    }
}

} // verus!
