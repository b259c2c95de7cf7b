//! Whole frames: the bytes are put together here from the values that the
//! device had been given, and decoding must give these values back.

use color_space::{FromRgb, Hsv, Rgb};
use crc::{Crc, CRC_16_USB};
use high_flow_next::misc::Error;
use high_flow_next::protocol::settings::{
    AlarmFlags, Chart, ChartInterval, ChartSource, Color, ConnectorType, DataSource,
    DisplayBrightness, DisplayFlags, Effect, Flow, FlowCorrection, FlowUnit, Medium, OutputSignal,
    PageFlags, PowerFlags, Settings, SoundEffect, SoundEffectSpeed, SourceControl, StandbyFlags,
    Temperature, TemperatureUnit,
};
use high_flow_next::protocol::Frame;

const SC0: u16 = 0x4000;
const SC1: u16 = 0x8000;
const NO_SOURCE: u16 = 0xFFFF;

/// The color of the device that is the HSV color `h`, `s`, `v` with the hue in
/// degree and the other two between 0 and 1. The color must be one that the
/// device can hold.
fn from_hsv(h: f64, s: f64, v: f64) -> Color {
    let hue = (h * 255.0 / 60.0).round() as u16;
    let saturation = (s * 255.0).round() as u8;
    let value = (v * 255.0).round() as u8;
    let color = Color { hue, saturation, value };
    let section = f64::from(color.hue_section());
    let offset = f64::from(color.hue_offset());
    assert_eq!(60.0 * section + 60.0 * offset / 255.0, h);
    assert_eq!(f64::from(saturation) / 255.0, s);
    assert_eq!(f64::from(value) / 255.0, v);
    color
}

/// The color of the device that is the RGB color `0xRRGGBB`.
fn from_rgb_hex(hex: u32) -> Color {
    let hsv = Hsv::from_rgb(&Rgb::from_hex(hex));
    from_hsv(hsv.h, hsv.s, hsv.v)
}

fn color_bytes(color: Color) -> [u8; 4] {
    [
        color.hue_section() as u8,
        color.hue_offset() as u8,
        color.saturation,
        color.value,
    ]
}

fn source_control(input_min: u16, input_max: u16, output_min: u8, output_max: u8) -> SourceControl {
    SourceControl { input_min, input_max, output_min, output_max }
}

/// The 60 bytes of the body of an effect.
struct Body {
    bytes: [u8; 60],
}

impl Body {
    fn new() -> Self {
        Body { bytes: [0; 60] }
    }

    /// Puts a source control into the first or the second place.
    fn control(mut self, slot: usize, control: SourceControl) -> Self {
        let at = 6 * slot;
        self.bytes[at..at + 2].copy_from_slice(&control.input_min.to_be_bytes());
        self.bytes[at + 2..at + 4].copy_from_slice(&control.input_max.to_be_bytes());
        self.bytes[at + 4] = control.output_min;
        self.bytes[at + 5] = control.output_max;
        self
    }

    /// Puts a number at the place `at` behind the two source controls.
    fn number(mut self, at: usize, number: u16) -> Self {
        self.bytes[12 + at..14 + at].copy_from_slice(&number.to_be_bytes());
        self
    }

    /// Puts a color into one of the six slots.
    fn color(mut self, slot: usize, color: Color) -> Self {
        let at = 36 + 4 * slot;
        self.bytes[at..at + 4].copy_from_slice(&color_bytes(color));
        self
    }
}

/// The 70 bytes of a controller.
#[allow(clippy::too_many_arguments)]
fn controller(
    offset: u8,
    length: u8,
    selector: u8,
    flags: u16,
    data_source: u16,
    rising: u8,
    falling: u8,
    body: Body,
) -> Vec<u8> {
    let mut bytes = vec![offset, length, selector];
    bytes.extend_from_slice(&flags.to_be_bytes());
    bytes.extend_from_slice(&data_source.to_be_bytes());
    bytes.push(rising);
    bytes.push(falling);
    bytes.extend_from_slice(&body.bytes);
    bytes.push(0);
    assert_eq!(bytes.len(), 70);
    bytes
}

fn no_controller() -> Vec<u8> {
    vec![0; 70]
}

/// The values of the settings as they stand in the bytes.
struct Raw {
    temperature_unit: u8,
    flow_unit: u8,
    next_page_interval: u8,
    page_flags: u16,
    display_brightness: u8,
    idle_display_brightness: u8,
    display_flags: u8,
    charts: [(u8, u16); 4],
    current_draw: Option<u16>,
    aqua_bus_address: u8,
    water_temp_offset: i16,
    external_temp_offset: i16,
    medium: u8,
    connector_type: u8,
    flow_correction: [(u16, i16); 10],
    lighting_brightness: u8,
    lighting_flags: u8,
    controllers: Vec<Vec<u8>>,
    standby_flags: u8,
    conductivity_offset: i16,
    water_quality_max: u16,
    water_quality_min: u16,
    power_flags: u8,
    power_damping: u16,
    alarm_flags: u8,
    startup_delay: u8,
    flow_alarm_limit: Option<u16>,
    water_temperature_limit: Option<u16>,
    external_temperature_limit: Option<u16>,
    water_quality_limit: Option<u16>,
    output_signal: u8,
}

impl Raw {
    fn payload(&self) -> Vec<u8> {
        let mut p = vec![0x03, 0xE8];
        p.extend_from_slice(&[self.temperature_unit, self.flow_unit, 0, self.next_page_interval]);
        p.extend_from_slice(&[0, 0]);
        p.extend_from_slice(&self.page_flags.to_be_bytes());
        p.extend_from_slice(&[0, 0, 0, 0]);
        p.extend_from_slice(&[self.display_brightness, self.idle_display_brightness]);
        p.extend_from_slice(&[0, 0, 0, 0]);
        p.push(self.display_flags);
        for (source, interval) in self.charts {
            p.push(0);
            p.push(source);
            p.extend_from_slice(&interval.to_be_bytes());
        }
        p.push(0);
        p.push(u8::from(self.current_draw.is_some()));
        p.extend_from_slice(&self.current_draw.unwrap_or(0).to_be_bytes());
        p.push(self.aqua_bus_address);
        p.extend_from_slice(&self.water_temp_offset.to_be_bytes());
        p.extend_from_slice(&self.external_temp_offset.to_be_bytes());
        p.push(self.medium);
        p.push(self.connector_type);
        for (_, correction) in self.flow_correction {
            p.extend_from_slice(&correction.to_be_bytes());
        }
        for (flow, _) in self.flow_correction {
            p.extend_from_slice(&flow.to_be_bytes());
        }
        p.extend_from_slice(&[self.lighting_brightness, 0, self.lighting_flags, 0]);
        assert!(self.controllers.len() <= 8);
        for i in 0..8 {
            match self.controllers.get(i) {
                Some(controller) => p.extend_from_slice(controller),
                None => p.extend(no_controller()),
            }
        }
        p.push(self.standby_flags);
        p.extend_from_slice(&[0, 0]);
        p.extend_from_slice(&self.conductivity_offset.to_be_bytes());
        p.extend_from_slice(&self.water_quality_max.to_be_bytes());
        p.extend_from_slice(&self.water_quality_min.to_be_bytes());
        p.push(0);
        p.push(self.power_flags);
        p.extend_from_slice(&self.power_damping.to_be_bytes());
        let limits = [
            self.flow_alarm_limit,
            self.water_temperature_limit,
            self.external_temperature_limit,
            self.water_quality_limit,
        ];
        let mut alarms = 0u8;
        for (bit, limit) in limits.iter().enumerate() {
            if limit.is_some() {
                alarms |= 1 << bit;
            }
        }
        p.extend_from_slice(&[self.alarm_flags, alarms, 0, self.startup_delay]);
        for limit in limits {
            p.extend_from_slice(&limit.unwrap_or(0xFFFF).to_be_bytes());
        }
        p.push(self.output_signal);
        p.push(0);
        assert_eq!(p.len(), 679);
        p
    }

    fn frame(&self) -> Vec<u8> {
        frame(&self.payload())
    }
}

fn frame(payload: &[u8]) -> Vec<u8> {
    let crc = Crc::<u16>::new(&CRC_16_USB);
    let mut bytes = vec![0x03];
    bytes.extend_from_slice(payload);
    bytes.extend_from_slice(&crc.checksum(payload).to_be_bytes());
    bytes
}

fn decode(bytes: &[u8]) -> Settings {
    let Frame::Settings(values) = Frame::from_bytes(bytes).unwrap();
    values
}

fn flow_correction(flow: u16, value: i16) -> (Flow, FlowCorrection) {
    (Flow::from_value(flow).unwrap(), FlowCorrection::from_value(value).unwrap())
}

fn chart(source: ChartSource, interval: u16) -> Chart {
    Chart { source, interval: ChartInterval::from_value(interval).unwrap() }
}

/// The frame of a device with its default configuration.
fn default_frame() -> Raw {
    let rainbow = |offset: u8, color: Color| {
        controller(
            offset,
            15,
            0x03,
            0,
            NO_SOURCE,
            15,
            25,
            Body::new().number(0, 50).number(2, 100).color(0, color),
        )
    };
    Raw {
        temperature_unit: 0,
        flow_unit: 0,
        next_page_interval: 10,
        page_flags: 0xFB37,
        display_brightness: 2,
        idle_display_brightness: 2,
        display_flags: 0x08,
        charts: [(0, 10), (1, 10), (4, 10), (5, 10)],
        current_draw: None,
        aqua_bus_address: 58,
        water_temp_offset: 0,
        external_temp_offset: 0,
        medium: 0,
        connector_type: 0,
        flow_correction: [
            (200, 0),
            (300, 0),
            (500, 0),
            (700, 0),
            (1000, 0),
            (1250, 0),
            (1500, 0),
            (2000, 0),
            (2500, 0),
            (3000, 0),
        ],
        lighting_brightness: 255,
        lighting_flags: 0,
        controllers: vec![
            rainbow(0, from_rgb_hex(0x3C0000)),
            controller(
                15,
                15,
                0x08,
                0,
                NO_SOURCE,
                15,
                25,
                Body::new()
                    .number(0, 25)
                    .number(2, 40)
                    .number(4, 20)
                    .color(0, from_rgb_hex(0x0F0F0F))
                    .color(1, from_hsv(234.35294117647058, 1.0, 1.0))
                    .color(2, from_hsv(59.76470588235294, 1.0, 1.0)),
            ),
            controller(
                30,
                15,
                0x0B,
                0,
                NO_SOURCE,
                15,
                25,
                Body::new()
                    .number(0, 30)
                    .number(2, 40)
                    .number(6, 6)
                    .number(8, 80)
                    .color(0, from_hsv(180.0, 0.00784313725490196, 1.0))
                    .color(1, from_hsv(119.05882352941177, 1.0, 1.0))
                    .color(2, from_hsv(308.70588235294116, 1.0, 1.0))
                    .color(3, from_hsv(46.35294117647059, 1.0, 1.0))
                    .color(4, from_hsv(237.64705882352942, 1.0, 1.0))
                    .color(5, from_hsv(357.1764705882353, 1.0, 1.0)),
            ),
            controller(
                45,
                15,
                0x04,
                0x02 | 0x04,
                NO_SOURCE,
                15,
                25,
                Body::new()
                    .number(0, 40)
                    .number(2, 5)
                    .color(0, from_rgb_hex(0x0F0F0F))
                    .color(1, from_hsv(0.0, 1.0, 1.0))
                    .color(2, from_hsv(119.52941176470588, 1.0, 1.0))
                    .color(3, from_hsv(240.0, 1.0, 1.0))
                    .color(4, from_hsv(58.8235294117647, 1.0, 1.0))
                    .color(5, from_hsv(108.47058823529412, 0.06274509803921569, 1.0)),
            ),
            rainbow(60, from_rgb_hex(0xFF0000)),
            rainbow(75, from_rgb_hex(0xFF0000)),
            controller(
                0,
                10,
                0x0A,
                SC0 | 0x02 | 0x80,
                0x0000,
                10,
                15,
                Body::new()
                    .control(0, source_control(0, 150, 0, 30))
                    .number(0, 7)
                    .number(2, 6)
                    .number(4, 4)
                    .number(6, 1)
                    .color(0, from_hsv(182.8235294117647, 1.0, 0.2))
                    .color(1, from_hsv(32.705882352941174, 1.0, 1.0)),
            ),
        ],
        standby_flags: 0,
        conductivity_offset: 0,
        water_quality_max: 500,
        water_quality_min: 950,
        power_flags: 0,
        power_damping: 0,
        alarm_flags: 0xE0,
        startup_delay: 10,
        flow_alarm_limit: None,
        water_temperature_limit: Some(4500),
        external_temperature_limit: None,
        water_quality_limit: None,
        output_signal: 0,
    }
}

/// The frame of a device on which every setting was changed, with the given
/// controllers.
fn changed_frame(controllers: Vec<Vec<u8>>) -> Raw {
    Raw {
        temperature_unit: 1,
        flow_unit: 0,
        next_page_interval: 255,
        page_flags: 0x0F00,
        display_brightness: 0,
        idle_display_brightness: 3,
        display_flags: 0x11,
        charts: [(6, 1), (3, 50), (2, 100), (1, 600)],
        current_draw: Some(600),
        aqua_bus_address: 58,
        water_temp_offset: -51,
        external_temp_offset: 1055,
        medium: 1,
        connector_type: 1,
        flow_correction: [
            (200, 1000),
            (300, -1000),
            (500, 500),
            (700, -500),
            (1000, 1500),
            (1250, -1523),
            (1500, 2512),
            (2000, -2579),
            (2500, 3033),
            (3000, -3333),
        ],
        lighting_brightness: 230,
        lighting_flags: 0,
        controllers,
        standby_flags: 0xF0,
        conductivity_offset: 123,
        water_quality_max: 453,
        water_quality_min: 963,
        power_flags: 0x01,
        power_damping: 616,
        alarm_flags: 0xC0,
        startup_delay: 10,
        flow_alarm_limit: None,
        water_temperature_limit: Some(4510),
        external_temperature_limit: Some(5680),
        water_quality_limit: Some(3329),
        output_signal: 4,
    }
}

/// What the frames of `changed_frame` hold outside of the lighting.
fn assert_changed_settings(values: &Settings) {
    /* System */

    assert_eq!(
        values.system.standby_flags,
        StandbyFlags::from_bits_truncate(
            StandbyFlags::DISABLE_ALARM_DETECT
                | StandbyFlags::DISPLAY_OFF
                | StandbyFlags::LEDS_DISABLED
                | StandbyFlags::DISABLE_VOLUME_COUNTER
        )
    );
    assert_eq!(*values.system.aqua_bus_address, 58);
    assert_eq!(values.system.increased_current_draw.as_deref(), Some(&600));

    /* Sensor */

    assert_eq!(values.sensor.medium, Medium::DistilledWater);
    assert_eq!(values.sensor.connector_type, ConnectorType::InnerDiameterLt7mm);
    assert_eq!(
        values.sensor.flow_correction,
        [
            flow_correction(200, 1000),
            flow_correction(300, -1000),
            flow_correction(500, 500),
            flow_correction(700, -500),
            flow_correction(1000, 1500),
            flow_correction(1250, -1523),
            flow_correction(1500, 2512),
            flow_correction(2000, -2579),
            flow_correction(2500, 3033),
            flow_correction(3000, -3333)
        ]
    );

    assert_eq!(*values.sensor.water_temp_offset, -51);
    assert_eq!(*values.sensor.external_temp_offset, 1055);

    assert_eq!(*values.sensor.conductivity_offset, 123);
    assert_eq!(*values.sensor.water_quality_max, 453);
    assert_eq!(*values.sensor.water_quality_min, 963);

    assert_eq!(
        values.sensor.power_flags,
        PowerFlags::from_bits_truncate(PowerFlags::AUTOMATIC_POWER_OFFSET_COMPENSATION)
    );
    assert_eq!(*values.sensor.power_damping, 616);

    /* Alarms */

    assert_eq!(
        values.alarms.flags,
        AlarmFlags::from_bits_truncate(
            AlarmFlags::ENABLE_ACUSTIC_INDICATOR | AlarmFlags::ENABLE_OPTICAL_INDICATOR
        )
    );
    assert_eq!(*values.alarms.startup_delay, 10);
    assert_eq!(values.alarms.flow_alarm_limit, None);
    assert_eq!(values.alarms.water_temperature_limit.as_deref(), Some(&4510));
    assert_eq!(values.alarms.external_temperature_limit.as_deref(), Some(&5680));
    assert_eq!(values.alarms.water_quality_limit.as_deref(), Some(&3329));
    assert_eq!(values.alarms.output_signal, OutputSignal::PermanentOn);

    /* Display Settings */

    assert_eq!(values.display.temperature_unit, TemperatureUnit::F);
    assert_eq!(values.display.flow_unit, FlowUnit::Liter);
    assert_eq!(
        values.display.display_flags,
        DisplayFlags::from_bits_truncate(DisplayFlags::ROTATE | DisplayFlags::DISABLE_BUTTONS)
    );
    assert_eq!(values.display.next_page_interval, None);
    assert_eq!(
        values.display.page_flags,
        PageFlags::from_bits_truncate(
            PageFlags::FLOW_WATERTEMP
                | PageFlags::COND_QUALITY
                | PageFlags::TEMPERATURES
                | PageFlags::FLOW_VOLUME
        )
    );
    assert_eq!(values.display.display_brightness, DisplayBrightness::Maximum);
    assert_eq!(values.display.idle_display_brightness, None);
    assert_eq!(
        values.display.charts,
        [
            chart(ChartSource::SystemVoltage, 1),
            chart(ChartSource::Conductivity, 50),
            chart(ChartSource::ExternalTemp, 100),
            chart(ChartSource::WaterTemp, 600),
        ]
    );
}

#[test]
fn default() {
    let values = decode(&default_frame().frame());

    /* System */

    assert_eq!(values.system.standby_flags, StandbyFlags::empty());
    assert_eq!(*values.system.aqua_bus_address, 58);
    assert_eq!(values.system.increased_current_draw, None);

    /* Sensor */

    assert_eq!(values.sensor.medium, Medium::DpUltra);
    assert_eq!(values.sensor.connector_type, ConnectorType::InnerDiameterGt7mm);
    assert_eq!(
        values.sensor.flow_correction,
        [
            flow_correction(200, 0),
            flow_correction(300, 0),
            flow_correction(500, 0),
            flow_correction(700, 0),
            flow_correction(1000, 0),
            flow_correction(1250, 0),
            flow_correction(1500, 0),
            flow_correction(2000, 0),
            flow_correction(2500, 0),
            flow_correction(3000, 0)
        ]
    );

    assert_eq!(*values.sensor.water_temp_offset, 0);
    assert_eq!(*values.sensor.external_temp_offset, 0);

    assert_eq!(*values.sensor.conductivity_offset, 0);
    assert_eq!(*values.sensor.water_quality_max, 500);
    assert_eq!(*values.sensor.water_quality_min, 950);

    assert_eq!(values.sensor.power_flags, PowerFlags::empty());
    assert_eq!(*values.sensor.power_damping, 0);

    /* Alarms */

    assert_eq!(
        values.alarms.flags,
        AlarmFlags::from_bits_truncate(
            AlarmFlags::ENABLE_ACUSTIC_INDICATOR
                | AlarmFlags::ENABLE_OPTICAL_INDICATOR
                | AlarmFlags::DISABLE_SIGNAL_OUTPUT_DURING_ALARM
        )
    );
    assert_eq!(*values.alarms.startup_delay, 10);
    assert_eq!(values.alarms.flow_alarm_limit, None);
    assert_eq!(
        values.alarms.water_temperature_limit,
        Some(Temperature::from_value(4500).unwrap())
    );
    assert_eq!(values.alarms.external_temperature_limit, None);
    assert_eq!(values.alarms.water_quality_limit, None);
    assert_eq!(values.alarms.output_signal, OutputSignal::ConstantSpeed);

    /* Display Settings */

    assert_eq!(values.display.temperature_unit, TemperatureUnit::C);
    assert_eq!(values.display.flow_unit, FlowUnit::Liter);
    assert_eq!(
        values.display.display_flags,
        DisplayFlags::from_bits_truncate(DisplayFlags::AUTO_INVERT)
    );
    assert_eq!(values.display.next_page_interval.as_deref(), Some(&10));
    assert_eq!(
        values.display.page_flags,
        PageFlags::from_bits_truncate(
            PageFlags::DEVICE_INFO
                | PageFlags::FLOW
                | PageFlags::WATER_TEMP
                | PageFlags::CONDUCTIVITY
                | PageFlags::WATER_QUALITY
                | PageFlags::FLOW_WATERTEMP
                | PageFlags::COND_QUALITY
                | PageFlags::FLOW_VOLUME
                | PageFlags::CHART1
                | PageFlags::CHART2
                | PageFlags::CHART3
                | PageFlags::CHART4
        )
    );
    assert_eq!(values.display.display_brightness, DisplayBrightness::Low);
    assert_eq!(values.display.idle_display_brightness, Some(DisplayBrightness::Low));
    assert_eq!(
        values.display.charts,
        [
            chart(ChartSource::Flow, 10),
            chart(ChartSource::WaterTemp, 10),
            chart(ChartSource::WaterQuality, 10),
            chart(ChartSource::PowerConsumption, 10)
        ]
    );

    /* Lighting */

    let Some(lighting) = values.lighting else {
        panic!("Lighting is expected to be enabled!");
    };

    let mut strip = lighting.strip_controllers.into_iter();
    let mut sensor = lighting.sensor_controllers.into_iter();
    assert_eq!(*lighting.brightness, 255);

    // Controller 1 (Strip)
    let controller = strip.next().unwrap();
    assert_eq!(controller.offset, 0);
    assert_eq!(controller.length, 15);
    assert_eq!(controller.data_source, None);
    assert_eq!(controller.sensor_attenuation_rising, 15);
    assert_eq!(controller.sensor_attenuation_falling, 25);
    let Effect::Rainbow(effect) = controller.effect else {
        panic!("Unexpected effect!");
    };
    assert_eq!(effect.color, from_rgb_hex(0x3C0000));
    assert_eq!(*effect.speed, 50);
    assert_eq!(*effect.color_range, 100);
    assert_eq!(effect.source_control_speed, None);
    assert_eq!(effect.source_control_brightness, None);

    // Controller 2 (Strip)
    let controller = strip.next().unwrap();
    assert_eq!(controller.offset, 15);
    assert_eq!(controller.length, 15);
    assert_eq!(controller.data_source, None);
    assert_eq!(controller.sensor_attenuation_rising, 15);
    assert_eq!(controller.sensor_attenuation_falling, 25);
    let Effect::Scanner(effect) = controller.effect else {
        panic!("Unexpected effect!");
    };
    assert_eq!(effect.background, from_rgb_hex(0x0F0F0F));
    assert_eq!(effect.inner_color, from_hsv(59.76470588235294, 1.0, 1.0));
    assert_eq!(effect.outer_color, from_hsv(234.35294117647058, 1.0, 1.0));
    assert_eq!(*effect.speed, 25);
    assert_eq!(*effect.smoothness, 40);
    assert_eq!(*effect.width, 20);
    assert_eq!(effect.source_control_speed, None);
    assert_eq!(effect.source_control_brightness, None);
    assert!(!effect.reverse_direction);
    assert!(!effect.fade);
    assert!(!effect.random_color);
    assert!(!effect.second_color_mode);
    assert!(!effect.color_change);
    assert!(!effect.circular);

    // Controller 3 (Strip)
    let controller = strip.next().unwrap();
    assert_eq!(controller.offset, 30);
    assert_eq!(controller.length, 15);
    assert_eq!(controller.data_source, None);
    assert_eq!(controller.sensor_attenuation_rising, 15);
    assert_eq!(controller.sensor_attenuation_falling, 25);
    let Effect::ColorSequence(effect) = controller.effect else {
        panic!("Unexpected effect!");
    };
    assert_eq!(
        &effect.colors[..],
        &[
            from_hsv(180.0, 0.00784313725490196, 1.0),
            from_hsv(119.05882352941177, 1.0, 1.0),
            from_hsv(308.70588235294116, 1.0, 1.0),
            from_hsv(46.35294117647059, 1.0, 1.0),
            from_hsv(237.64705882352942, 1.0, 1.0),
            from_hsv(357.1764705882353, 1.0, 1.0),
        ][..]
    );
    assert_eq!(*effect.speed, 30);
    assert_eq!(*effect.smoothness, 40);
    assert_eq!(*effect.color_change_speed, 80);
    assert_eq!(effect.source_control_speed, None);
    assert_eq!(effect.source_control_brightness, None);
    assert!(!effect.reverse_direction);
    assert!(!effect.random_color);

    // Controller 4 (Strip)
    let controller = strip.next().unwrap();
    assert_eq!(controller.offset, 45);
    assert_eq!(controller.length, 15);
    assert_eq!(controller.data_source, None);
    assert_eq!(controller.sensor_attenuation_rising, 15);
    assert_eq!(controller.sensor_attenuation_falling, 25);
    let Effect::Blink(effect) = controller.effect else {
        panic!("Unexpected effect!");
    };
    assert_eq!(effect.background, from_rgb_hex(0x0F0F0F));
    assert_eq!(
        &effect.colors[..],
        &[
            from_hsv(0.0, 1.0, 1.0),
            from_hsv(119.52941176470588, 1.0, 1.0),
            from_hsv(240.0, 1.0, 1.0),
            from_hsv(58.8235294117647, 1.0, 1.0),
            from_hsv(108.47058823529412, 0.06274509803921569, 1.0),
        ][..]
    );
    assert_eq!(*effect.speed, 40);
    assert_eq!(effect.source_control_speed, None);
    assert_eq!(effect.source_control_brightness, None);
    assert!(effect.fade_in);
    assert!(effect.fade_out);
    assert!(!effect.random_color);
    assert!(!effect.slide_colors);

    // Controller 5 (Strip)
    let controller = strip.next().unwrap();
    assert_eq!(controller.offset, 60);
    assert_eq!(controller.length, 15);
    assert_eq!(controller.data_source, None);
    assert_eq!(controller.sensor_attenuation_rising, 15);
    assert_eq!(controller.sensor_attenuation_falling, 25);
    let Effect::Rainbow(effect) = controller.effect else {
        panic!("Unexpected effect!");
    };
    assert_eq!(effect.color, from_rgb_hex(0xFF0000));
    assert_eq!(*effect.speed, 50);
    assert_eq!(*effect.color_range, 100);
    assert_eq!(effect.source_control_speed, None);
    assert_eq!(effect.source_control_brightness, None);

    // Controller 6 (Strip)
    let controller = strip.next().unwrap();
    assert_eq!(controller.offset, 75);
    assert_eq!(controller.length, 15);
    assert_eq!(controller.data_source, None);
    assert_eq!(controller.sensor_attenuation_rising, 15);
    assert_eq!(controller.sensor_attenuation_falling, 25);
    let Effect::Rainbow(effect) = controller.effect else {
        panic!("Unexpected effect!");
    };
    assert_eq!(effect.color, from_rgb_hex(0xFF0000));
    assert_eq!(*effect.speed, 50);
    assert_eq!(*effect.color_range, 100);
    assert_eq!(effect.source_control_speed, None);
    assert_eq!(effect.source_control_brightness, None);

    assert!(strip.next().is_none());

    // Controller 7 (Sensor)
    let controller = sensor.next().unwrap();
    assert_eq!(controller.offset, 0);
    assert_eq!(controller.length, 10);
    assert_eq!(controller.data_source, Some(DataSource::Flow));
    assert_eq!(controller.sensor_attenuation_rising, 10);
    assert_eq!(controller.sensor_attenuation_falling, 15);
    let Effect::Wave(effect) = controller.effect else {
        panic!("Unexpected effect!");
    };
    assert_eq!(effect.background, from_hsv(182.8235294117647, 1.0, 0.2));
    assert_eq!(&effect.colors[..], &[from_hsv(32.705882352941174, 1.0, 1.0)][..]);
    assert_eq!(*effect.speed, 7);
    assert_eq!(*effect.smoothness, 6);
    assert_eq!(*effect.width, 4);
    assert_eq!(
        effect.source_control_speed,
        Some(SourceControl { input_min: 0, input_max: 150, output_min: 0, output_max: 30 })
    );
    assert_eq!(effect.source_control_brightness, None);
    assert!(effect.reverse_direction);
    assert!(!effect.random_color);
    assert!(effect.circular);

    assert!(sensor.next().is_none());
}

#[test]
fn effects_0() {
    let plain = |offset: u8, selector: u8, flags: u16, body: Body| {
        controller(offset, 15, selector, flags, NO_SOURCE, 10, 15, body)
    };
    let raw = changed_frame(vec![
        plain(
            0,
            0x01,
            0,
            Body::new().color(0, from_hsv(72.94117647058823, 0.5882352941176471, 1.0)),
        ),
        plain(
            15,
            0x02,
            0,
            Body::new()
                .number(0, 48)
                .number(2, 72)
                .number(4, 18)
                .number(6, 30)
                .color(0, from_hsv(314.11764705882354, 0.6196078431372549, 1.0)),
        ),
        controller(
            30,
            15,
            0x05,
            SC0 | 0x04,
            0x0004,
            10,
            15,
            Body::new()
                .control(0, source_control(24, 100, 27, 100))
                .number(0, 65)
                .number(2, 6)
                .color(0, from_hsv(0.0, 1.0, 1.0))
                .color(1, from_hsv(60.0, 1.0, 1.0))
                .color(2, from_hsv(154.8235294117647, 0.6901960784313725, 1.0))
                .color(3, from_hsv(251.76470588235293, 0.7529411764705882, 0.6274509803921569))
                .color(4, from_hsv(126.11764705882354, 0.7137254901960784, 1.0))
                .color(5, from_hsv(179.05882352941177, 0.615686274509804, 0.8392156862745098)),
        ),
        plain(
            45,
            0x07,
            0x02,
            Body::new()
                .number(0, 40)
                .number(2, 25)
                .number(4, 2)
                .number(6, 19)
                .number(8, 15)
                .color(0, from_hsv(0.0, 0.0, 0.0))
                .color(1, from_rgb_hex(0xFF0000))
                .color(2, from_rgb_hex(0x0000FF)),
        ),
        plain(
            60,
            0x09,
            0x40 | 0x80,
            Body::new()
                .number(0, 22)
                .number(2, 49)
                .number(4, 16)
                .color(0, from_rgb_hex(0x0F0F0F))
                .color(1, from_rgb_hex(0x00FF00))
                .color(2, from_rgb_hex(0x0000FF)),
        ),
        controller(
            75,
            15,
            0x0B,
            SC1 | 0x02,
            0x0000,
            29,
            23,
            Body::new()
                .control(1, source_control(12, 345, 31, 217))
                .number(0, 11)
                .number(2, 49)
                .number(6, 6)
                .number(8, 67)
                .color(0, from_rgb_hex(0xFF0000))
                .color(1, from_rgb_hex(0xFFFF00))
                .color(2, from_rgb_hex(0x00FF00))
                .color(3, from_rgb_hex(0x00FFFF))
                .color(4, from_rgb_hex(0x0000FF))
                .color(5, from_rgb_hex(0xFF00FF)),
        ),
        controller(
            0,
            10,
            0x0C,
            0,
            NO_SOURCE,
            10,
            15,
            Body::new()
                .number(0, 24)
                .number(2, 57)
                .number(4, 47)
                .color(0, from_hsv(115.05882352941177, 0.7137254901960784, 1.0)),
        ),
        controller(
            0,
            10,
            0x0D,
            SC0 | 0x0400 | 0x20 | 0x02 | 0x01,
            0x0001,
            10,
            15,
            Body::new()
                .control(0, source_control(20, 70, 0, 100))
                .number(0, 30)
                .number(2, 70)
                .number(4, 0)
                .number(6, 3)
                .number(8, 40)
                .number(10, 50)
                .number(12, 60)
                .number(14, 22)
                .color(0, from_rgb_hex(0x000000))
                .color(1, from_rgb_hex(0xFFFFFF))
                .color(2, from_hsv(240.0, 1.0, 1.0))
                .color(3, from_hsv(120.0, 1.0, 1.0))
                .color(4, from_hsv(60.0, 1.0, 1.0))
                .color(5, from_hsv(0.0, 1.0, 1.0)),
        ),
    ]);
    let values = decode(&raw.frame());
    assert_changed_settings(&values);

    /* Lighting */

    let Some(lighting) = values.lighting else {
        panic!("Lighting is expected to be enabled!");
    };

    let mut strip = lighting.strip_controllers.into_iter();
    let mut sensor = lighting.sensor_controllers.into_iter();
    assert_eq!(*lighting.brightness, 230);

    // Controller 1 (Strip)
    let controller = strip.next().unwrap();
    assert_eq!(controller.offset, 0);
    assert_eq!(controller.length, 15);
    assert_eq!(controller.data_source, None);
    assert_eq!(controller.sensor_attenuation_rising, 10);
    assert_eq!(controller.sensor_attenuation_falling, 15);
    let Effect::Static(effect) = controller.effect else {
        panic!("Unexpected effect!");
    };
    assert_eq!(effect.color, from_hsv(72.94117647058823, 0.5882352941176471, 1.0));
    assert_eq!(effect.source_control_brightness, None);
    assert_eq!(effect.source_control_saturation, None);

    // Controller 2 (Strip)
    let controller = strip.next().unwrap();
    assert_eq!(controller.offset, 15);
    assert_eq!(controller.length, 15);
    assert_eq!(controller.data_source, None);
    assert_eq!(controller.sensor_attenuation_rising, 10);
    assert_eq!(controller.sensor_attenuation_falling, 15);
    let Effect::Breathing(effect) = controller.effect else {
        panic!("Unexpected effect!");
    };
    assert_eq!(effect.color, from_hsv(314.11764705882354, 0.6196078431372549, 1.0));
    assert_eq!(*effect.speed, 48);
    assert_eq!(*effect.intensity, 72);
    assert_eq!(*effect.delay_max_brightness, 18);
    assert_eq!(*effect.delay_min_brightness, 30);
    assert_eq!(effect.source_control_speed, None);
    assert_eq!(effect.source_control_intensity, None);

    // Controller 3 (Strip)
    let controller = strip.next().unwrap();
    assert_eq!(controller.offset, 30);
    assert_eq!(controller.length, 15);
    assert_eq!(controller.data_source, Some(DataSource::WaterQuality));
    assert_eq!(controller.sensor_attenuation_rising, 10);
    assert_eq!(controller.sensor_attenuation_falling, 15);
    let Effect::ColorChange(effect) = controller.effect else {
        panic!("Unexpected effect!");
    };
    assert_eq!(
        &effect.colors[..],
        &[
            from_hsv(0.0, 1.0, 1.0),
            from_hsv(60.0, 1.0, 1.0),
            from_hsv(154.8235294117647, 0.6901960784313725, 1.0),
            from_hsv(251.76470588235293, 0.7529411764705882, 0.6274509803921569),
            from_hsv(126.11764705882354, 0.7137254901960784, 1.0),
            from_hsv(179.05882352941177, 0.615686274509804, 0.8392156862745098),
        ][..]
    );
    assert_eq!(*effect.speed, 65);
    assert_eq!(
        effect.source_control_speed,
        Some(SourceControl { input_min: 24, input_max: 100, output_min: 27, output_max: 100 })
    );
    assert_eq!(effect.source_control_brightness, None);
    assert!(effect.fade);
    assert!(!effect.random_color);
    assert!(!effect.slide_colors);

    // Controller 4 (Strip)
    let controller = strip.next().unwrap();
    assert_eq!(controller.offset, 45);
    assert_eq!(controller.length, 15);
    assert_eq!(controller.data_source, None);
    assert_eq!(controller.sensor_attenuation_rising, 10);
    assert_eq!(controller.sensor_attenuation_falling, 15);
    let Effect::Sequence(effect) = controller.effect else {
        panic!("Unexpected effect!");
    };
    assert_eq!(effect.background, from_hsv(0.0, 0.0, 0.0));
    assert_eq!(&effect.colors[..], &[from_rgb_hex(0xFF0000), from_rgb_hex(0x0000FF)][..]);
    assert_eq!(*effect.speed, 40);
    assert_eq!(*effect.smoothness, 25);
    assert_eq!(*effect.delay_after_sequence, 19);
    assert_eq!(*effect.delay_before_sequence, 15);
    assert_eq!(effect.source_control_speed, None);
    assert_eq!(effect.source_control_brightness, None);
    assert!(effect.reverse_direction);
    assert!(!effect.fade);
    assert!(!effect.random_color);

    // Controller 5 (Strip)
    let controller = strip.next().unwrap();
    assert_eq!(controller.offset, 60);
    assert_eq!(controller.length, 15);
    assert_eq!(controller.data_source, None);
    assert_eq!(controller.sensor_attenuation_rising, 10);
    assert_eq!(controller.sensor_attenuation_falling, 15);
    let Effect::Laser(effect) = controller.effect else {
        panic!("Unexpected effect!");
    };
    assert_eq!(effect.background, from_rgb_hex(0x0F0F0F));
    assert_eq!(effect.inner_color, from_rgb_hex(0x0000FF));
    assert_eq!(effect.outer_color, from_rgb_hex(0x00FF00));
    assert_eq!(*effect.speed, 22);
    assert_eq!(*effect.smoothness, 49);
    assert_eq!(*effect.width, 16);
    assert_eq!(effect.source_control_speed, None);
    assert_eq!(effect.source_control_brightness, None);
    assert!(!effect.reverse_direction);
    assert!(!effect.fade);
    assert!(!effect.random_color);
    assert!(!effect.second_color_mode);
    assert!(effect.color_change);
    assert!(effect.circular);

    // Controller 6 (Strip)
    let controller = strip.next().unwrap();
    assert_eq!(controller.offset, 75);
    assert_eq!(controller.length, 15);
    assert_eq!(controller.data_source, Some(DataSource::Flow));
    assert_eq!(controller.sensor_attenuation_rising, 29);
    assert_eq!(controller.sensor_attenuation_falling, 23);
    let Effect::ColorSequence(effect) = controller.effect else {
        panic!("Unexpected effect!");
    };
    assert_eq!(
        &effect.colors[..],
        &[
            from_rgb_hex(0xFF0000),
            from_rgb_hex(0xFFFF00),
            from_rgb_hex(0x00FF00),
            from_rgb_hex(0x00FFFF),
            from_rgb_hex(0x0000FF),
            from_rgb_hex(0xFF00FF)
        ][..]
    );
    assert_eq!(*effect.speed, 11);
    assert_eq!(*effect.smoothness, 49);
    assert_eq!(*effect.color_change_speed, 67);
    assert_eq!(effect.source_control_speed, None);
    assert_eq!(
        effect.source_control_brightness,
        Some(SourceControl { input_min: 12, input_max: 345, output_min: 31, output_max: 217 })
    );
    assert!(effect.reverse_direction);
    assert!(!effect.random_color);

    assert!(strip.next().is_none());

    // Controller 7 (Sensor)
    let controller = sensor.next().unwrap();
    assert_eq!(controller.offset, 0);
    assert_eq!(controller.length, 10);
    assert_eq!(controller.data_source, None);
    assert_eq!(controller.sensor_attenuation_rising, 10);
    assert_eq!(controller.sensor_attenuation_falling, 15);
    let Effect::ColorShift(effect) = controller.effect else {
        panic!("Unexpected effect!");
    };
    assert_eq!(effect.color, from_hsv(115.05882352941177, 0.7137254901960784, 1.0));
    assert_eq!(*effect.speed, 24);
    assert_eq!(*effect.color_range, 57);
    assert_eq!(*effect.total_area, 47);
    assert_eq!(effect.source_control_speed, None);
    assert_eq!(effect.source_control_brightness, None);
    assert!(!effect.reverse_direction);

    // Controller 8 (Sensor)
    let controller = sensor.next().unwrap();
    assert_eq!(controller.offset, 0);
    assert_eq!(controller.length, 10);
    assert_eq!(controller.data_source, Some(DataSource::WaterTemperature));
    assert_eq!(controller.sensor_attenuation_rising, 10);
    assert_eq!(controller.sensor_attenuation_falling, 15);
    let Effect::BarGraph(effect) = controller.effect else {
        panic!("Unexpected effect!");
    };
    assert_eq!(effect.background, from_rgb_hex(0x000000));
    assert_eq!(effect.peak_color, from_rgb_hex(0xFFFFFF));
    assert_eq!(
        &effect.colors[..],
        &[
            (from_hsv(240.0, 1.0, 1.0), 30, false),
            (from_hsv(120.0, 1.0, 1.0), 40, false),
            (from_hsv(60.0, 1.0, 1.0), 50, false),
            (from_hsv(0.0, 1.0, 1.0), 60, true),
        ][..]
    );
    assert_eq!(effect.end_value, 70);
    assert_eq!(*effect.rotation, 0);
    assert_eq!(*effect.peak_hold_time, 22);
    assert_eq!(
        effect.source_control_rotation,
        Some(SourceControl { input_min: 20, input_max: 70, output_min: 0, output_max: 100 })
    );
    assert!(!effect.reverse_direction);
    assert!(effect.show_peak);
    assert!(effect.show_bar);
    assert!(!effect.show_ranges);
    assert!(effect.fade_ranges);

    assert!(sensor.next().is_none());
}

#[test]
fn effects_1() {
    let plain = |offset: u8, selector: u8, flags: u16, body: Body| {
        controller(offset, 15, selector, flags, NO_SOURCE, 10, 15, body)
    };
    let rain = |speed: u16, items: u16, size: u16, smoothness: u16| {
        Body::new()
            .number(0, speed)
            .number(2, items)
            .number(4, size)
            .number(6, smoothness)
            .color(0, from_hsv(0.0, 0.0, 0.00392156862745098))
            .color(1, from_hsv(28.235294117647058, 0.0, 1.0))
    };
    let raw = changed_frame(vec![
        plain(
            0,
            0x0E,
            0,
            Body::new()
                .number(0, 50)
                .color(0, from_hsv(47.05882352941177, 0.7843137254901961, 0.09803921568627451))
                .color(1, from_hsv(47.05882352941177, 1.0, 0.5882352941176471))
                .color(2, from_hsv(28.235294117647058, 1.0, 1.0)),
        ),
        plain(15, 0x0F, 0x02 | 0x08, rain(26, 3, 59, 17)),
        plain(30, 0x10, 0, rain(28, 4, 22, 35)),
        plain(45, 0x11, 0x08, rain(71, 4, 38, 76)),
        controller(
            60,
            15,
            0x12,
            0x02,
            0x0000,
            10,
            15,
            Body::new()
                .number(0, 5)
                .number(2, 10)
                .number(4, 20)
                .number(6, 30)
                .number(8, 40)
                .number(10, 50)
                .number(12, 60)
                .number(14, 70)
                .color(0, from_rgb_hex(0xFF0000))
                .color(1, from_rgb_hex(0xFF0000))
                .color(2, from_rgb_hex(0xFFFF00))
                .color(3, from_rgb_hex(0x00FF00))
                .color(4, from_rgb_hex(0x0000FF))
                .color(5, from_rgb_hex(0xFFFFFF)),
        ),
        plain(
            75,
            0x13,
            0,
            Body::new()
                .number(0, 100)
                .number(2, 17)
                .number(4, 8)
                .number(6, 66)
                .number(8, 31)
                .color(0, from_rgb_hex(0xFFFFFF))
                .color(1, from_rgb_hex(0xFFFF00)),
        ),
        controller(
            0,
            10,
            0x14,
            0,
            NO_SOURCE,
            10,
            15,
            Body::new()
                .color(0, from_hsv(30.11764705882353, 1.0, 0.0784313725490196))
                .color(1, from_rgb_hex(0x0000FF))
                .color(2, from_rgb_hex(0xFF0000))
                .color(3, from_rgb_hex(0x00FF00))
                .color(4, from_rgb_hex(0xFF00FF)),
        ),
        controller(
            0,
            10,
            0x15,
            0x02 | 0x04,
            0x001C,
            1,
            1,
            Body::new()
                .number(0, 0)
                .number(2, 100)
                .number(4, 0)
                .number(6, 1)
                .number(8, 25)
                .number(14, 5)
                .color(0, from_hsv(0.0, 0.0, 0.0196078431372549))
                .color(1, from_rgb_hex(0xFFFFFF))
                .color(2, from_hsv(0.0, 1.0, 1.0))
                .color(3, from_hsv(60.0, 1.0, 1.0)),
        ),
    ]);
    let values = decode(&raw.frame());
    assert_changed_settings(&values);

    /* Lighting */

    let Some(lighting) = values.lighting else {
        panic!("Lighting is expected to be enabled!");
    };

    let mut strip = lighting.strip_controllers.into_iter();
    let mut sensor = lighting.sensor_controllers.into_iter();
    assert_eq!(*lighting.brightness, 230);

    // Controller 1 (Strip)
    let controller = strip.next().unwrap();
    assert_eq!(controller.offset, 0);
    assert_eq!(controller.length, 15);
    assert_eq!(controller.data_source, None);
    assert_eq!(controller.sensor_attenuation_rising, 10);
    assert_eq!(controller.sensor_attenuation_falling, 15);
    let Effect::Flame(effect) = controller.effect else {
        panic!("Unexpected effect!");
    };
    assert_eq!(
        effect.background,
        from_hsv(47.05882352941177, 0.7843137254901961, 0.09803921568627451)
    );
    assert_eq!(effect.color_primary, from_hsv(47.05882352941177, 1.0, 0.5882352941176471));
    assert_eq!(effect.color_secondary, from_hsv(28.235294117647058, 1.0, 1.0));
    assert_eq!(*effect.intensity, 50);
    assert_eq!(effect.source_control_intensity, None);

    // Controller 2 (Strip)
    let controller = strip.next().unwrap();
    assert_eq!(controller.offset, 15);
    assert_eq!(controller.length, 15);
    assert_eq!(controller.data_source, None);
    assert_eq!(controller.sensor_attenuation_rising, 10);
    assert_eq!(controller.sensor_attenuation_falling, 15);
    let Effect::Rain(effect) = controller.effect else {
        panic!("Unexpected effect!");
    };
    assert_eq!(effect.background, from_hsv(0.0, 0.0, 0.00392156862745098));
    assert_eq!(effect.color, from_hsv(28.235294117647058, 0.0, 1.0));
    assert_eq!(*effect.speed, 26);
    assert_eq!(*effect.items, 3);
    assert_eq!(*effect.size, 59);
    assert_eq!(*effect.smoothness, 17);
    assert_eq!(effect.source_control_speed, None);
    assert_eq!(effect.source_control_brightness, None);
    assert!(effect.reverse_direction);
    assert!(effect.random_color);

    // Controller 3 (Strip)
    let controller = strip.next().unwrap();
    assert_eq!(controller.offset, 30);
    assert_eq!(controller.length, 15);
    assert_eq!(controller.data_source, None);
    assert_eq!(controller.sensor_attenuation_rising, 10);
    assert_eq!(controller.sensor_attenuation_falling, 15);
    let Effect::Snow(effect) = controller.effect else {
        panic!("Unexpected effect!");
    };
    assert_eq!(effect.background, from_hsv(0.0, 0.0, 0.00392156862745098));
    assert_eq!(effect.color, from_hsv(28.235294117647058, 0.0, 1.0));
    assert_eq!(*effect.speed, 28);
    assert_eq!(*effect.items, 4);
    assert_eq!(*effect.size, 22);
    assert_eq!(*effect.smoothness, 35);
    assert_eq!(effect.source_control_speed, None);
    assert_eq!(effect.source_control_brightness, None);
    assert!(!effect.reverse_direction);
    assert!(!effect.random_color);

    // Controller 4 (Strip)
    let controller = strip.next().unwrap();
    assert_eq!(controller.offset, 45);
    assert_eq!(controller.length, 15);
    assert_eq!(controller.data_source, None);
    assert_eq!(controller.sensor_attenuation_rising, 10);
    assert_eq!(controller.sensor_attenuation_falling, 15);
    let Effect::Stardust(effect) = controller.effect else {
        panic!("Unexpected effect!");
    };
    assert_eq!(effect.background, from_hsv(0.0, 0.0, 0.00392156862745098));
    assert_eq!(effect.color, from_hsv(28.235294117647058, 0.0, 1.0));
    assert_eq!(*effect.speed, 71);
    assert_eq!(*effect.items, 4);
    assert_eq!(*effect.size, 38);
    assert_eq!(*effect.smoothness, 76);
    assert_eq!(effect.source_control_speed, None);
    assert_eq!(effect.source_control_brightness, None);
    assert!(!effect.reverse_direction);
    assert!(effect.random_color);

    // Controller 5 (Strip)
    let controller = strip.next().unwrap();
    assert_eq!(controller.offset, 60);
    assert_eq!(controller.length, 15);
    assert_eq!(controller.data_source, Some(DataSource::Flow));
    assert_eq!(controller.sensor_attenuation_rising, 10);
    assert_eq!(controller.sensor_attenuation_falling, 15);
    let Effect::ColorSwitch(effect) = controller.effect else {
        panic!("Unexpected effect!");
    };
    assert_eq!(
        &effect.colors[..],
        &[
            (from_rgb_hex(0xFF0000), 10, true),
            (from_rgb_hex(0xFF0000), 20, false),
            (from_rgb_hex(0xFFFF00), 30, false),
            (from_rgb_hex(0x00FF00), 40, false),
            (from_rgb_hex(0x0000FF), 50, false),
            (from_rgb_hex(0xFFFFFF), 60, false),
        ][..]
    );
    assert_eq!(effect.end_value, 70);
    assert_eq!(effect.source_control_brightness, None);
    assert!(!effect.fade_ranges);

    // Controller 6 (Strip)
    let controller = strip.next().unwrap();
    assert_eq!(controller.offset, 75);
    assert_eq!(controller.length, 15);
    assert_eq!(controller.data_source, None);
    assert_eq!(controller.sensor_attenuation_rising, 10);
    assert_eq!(controller.sensor_attenuation_falling, 15);
    let Effect::SwipingRainbow(effect) = controller.effect else {
        panic!("Unexpected effect!");
    };
    assert_eq!(effect.point_color, from_rgb_hex(0xFFFFFF));
    assert_eq!(effect.strip_color, from_rgb_hex(0xFFFF00));
    assert_eq!(*effect.point_speed, 100);
    assert_eq!(*effect.point_smoothness, 17);
    assert_eq!(*effect.point_size, 8);
    assert_eq!(*effect.color_change_speed, 66);
    assert_eq!(*effect.color_range, 31);
    assert_eq!(effect.source_control_speed, None);
    assert_eq!(effect.source_control_brightness, None);
    assert!(!effect.reverse_direction);

    assert!(strip.next().is_none());

    // Controller 7 (Sensor)
    let controller = sensor.next().unwrap();
    assert_eq!(controller.offset, 0);
    assert_eq!(controller.length, 10);
    assert_eq!(controller.data_source, None);
    assert_eq!(controller.sensor_attenuation_rising, 10);
    assert_eq!(controller.sensor_attenuation_falling, 15);
    let Effect::SoundFlash(effect) = controller.effect else {
        panic!("Unexpected effect!");
    };
    assert_eq!(effect.background, from_hsv(30.11764705882353, 1.0, 0.0784313725490196));
    assert_eq!(
        effect.colors,
        [
            from_rgb_hex(0x0000FF),
            from_rgb_hex(0xFF0000),
            from_rgb_hex(0x00FF00),
            from_rgb_hex(0xFF00FF)
        ]
    );

    // Controller 8 (Sensor)
    let controller = sensor.next().unwrap();
    assert_eq!(controller.offset, 0);
    assert_eq!(controller.length, 10);
    assert_eq!(controller.data_source, Some(DataSource::Sound));
    assert_eq!(controller.sensor_attenuation_rising, 1);
    assert_eq!(controller.sensor_attenuation_falling, 1);
    let Effect::SoundBars(effect) = controller.effect else {
        panic!("Unexpected effect!");
    };
    assert_eq!(effect.background, from_hsv(0.0, 0.0, 0.0196078431372549));
    assert_eq!(effect.peak_color, from_rgb_hex(0xFFFFFF));
    assert_eq!(
        &effect.colors[..],
        &[(from_hsv(0.0, 1.0, 1.0), 0, false), (from_hsv(60.0, 1.0, 1.0), 25, false)][..]
    );
    assert_eq!(effect.end_value, 100);
    assert_eq!(*effect.rotation, 0);
    assert_eq!(*effect.peak_hold_time, 5);
    assert_eq!(effect.source_control_rotation, None);
    assert!(!effect.reverse_direction);
    assert!(!effect.show_peak);
    assert!(effect.show_bar);
    assert!(effect.show_ranges);
    assert!(!effect.fade_ranges);

    assert!(sensor.next().is_none());
}

#[test]
fn effects_2() {
    let plain = |offset: u8, selector: u8, flags: u16, body: Body| {
        controller(offset, 15, selector, flags, NO_SOURCE, 10, 15, body)
    };
    let raw = changed_frame(vec![
        plain(
            0,
            0x16,
            0,
            Body::new()
                .number(0, 1)
                .number(2, 5)
                .number(4, 2)
                .number(6, 3)
                .number(8, 4)
                .number(10, 8)
                .number(12, 4)
                .number(14, 6)
                .number(16, 48)
                .color(0, from_rgb_hex(0x000000))
                .color(1, from_rgb_hex(0x0000FF))
                .color(2, from_rgb_hex(0xFF0000))
                .color(3, from_rgb_hex(0x00FF00))
                .color(4, from_rgb_hex(0xFF00FF)),
        ),
        plain(
            15,
            0x17,
            0x02 | 0x04,
            Body::new()
                .number(0, 22)
                .number(2, 2)
                .number(4, 5)
                .number(6, 10)
                .number(8, 50)
                .color(0, from_hsv(60.0, 1.0, 0.19607843137254902))
                .color(1, from_rgb_hex(0x0000FF))
                .color(2, from_rgb_hex(0xFF0000)),
        ),
        plain(30, 0x18, 0, Body::new().color(0, from_hsv(60.0, 1.0, 0.11764705882352941))),
        plain(
            45,
            0x21,
            0,
            Body::new()
                .number(4, 0)
                .number(6, 3)
                .number(8, 250)
                .number(10, 500)
                .number(12, 750)
                .color(2, from_rgb_hex(0xFF0000))
                .color(3, from_rgb_hex(0x00FF00))
                .color(4, from_rgb_hex(0x0000FF))
                .color(5, from_hsv(30.11764705882353, 0.0, 1.0)),
        ),
    ]);
    let values = decode(&raw.frame());
    assert_changed_settings(&values);

    /* Lighting */

    let Some(lighting) = values.lighting else {
        panic!("Lighting is expected to be enabled!");
    };

    let mut strip = lighting.strip_controllers.into_iter();
    let mut sensor = lighting.sensor_controllers.into_iter();
    assert_eq!(*lighting.brightness, 230);

    // Controller 1 (Strip)
    let controller = strip.next().unwrap();
    assert_eq!(controller.offset, 0);
    assert_eq!(controller.length, 15);
    assert_eq!(controller.data_source, None);
    assert_eq!(controller.sensor_attenuation_rising, 10);
    assert_eq!(controller.sensor_attenuation_falling, 15);
    let Effect::SoundSlider(effect) = controller.effect else {
        panic!("Unexpected effect!");
    };
    assert_eq!(effect.background, from_rgb_hex(0x000000));
    assert_eq!(
        effect.effects,
        [
            (
                from_rgb_hex(0x0000FF),
                SoundEffect::InwardsToCenterA,
                SoundEffectSpeed::from_value(4).unwrap()
            ),
            (
                from_rgb_hex(0xFF0000),
                SoundEffect::AllLEDs,
                SoundEffectSpeed::from_value(8).unwrap()
            ),
            (
                from_rgb_hex(0x00FF00),
                SoundEffect::InwardsToCenterB,
                SoundEffectSpeed::from_value(4).unwrap()
            ),
            (
                from_rgb_hex(0xFF00FF),
                SoundEffect::FromLeft,
                SoundEffectSpeed::from_value(6).unwrap()
            ),
        ]
    );
    assert_eq!(*effect.rotate_color, 48);

    // Controller 2 (Strip)
    let controller = strip.next().unwrap();
    assert_eq!(controller.offset, 15);
    assert_eq!(controller.length, 15);
    assert_eq!(controller.data_source, None);
    assert_eq!(controller.sensor_attenuation_rising, 10);
    assert_eq!(controller.sensor_attenuation_falling, 15);
    let Effect::SoundShift(effect) = controller.effect else {
        panic!("Unexpected effect!");
    };
    assert_eq!(effect.background, from_hsv(60.0, 1.0, 0.19607843137254902));
    assert_eq!(
        effect.effects,
        [
            (from_rgb_hex(0x0000FF), SoundEffectSpeed::from_value(2).unwrap(), true),
            (from_rgb_hex(0xFF0000), SoundEffectSpeed::from_value(5).unwrap(), true),
        ]
    );
    assert_eq!(*effect.rotate_color, 22);
    assert_eq!(*effect.idle_speed, 10);
    assert_eq!(*effect.activity_speed, 50);
    assert!(!effect.reverse_direction);

    // Controller 3 (Strip)
    let controller = strip.next().unwrap();
    assert_eq!(controller.offset, 30);
    assert_eq!(controller.length, 15);
    assert_eq!(controller.data_source, None);
    assert_eq!(controller.sensor_attenuation_rising, 10);
    assert_eq!(controller.sensor_attenuation_falling, 15);
    let Effect::Ambient(effect) = controller.effect else {
        panic!("Unexpected effect!");
    };
    assert_eq!(effect.background, from_hsv(60.0, 1.0, 0.11764705882352941));

    // Controller 4 (Strip)
    let controller = strip.next().unwrap();
    assert_eq!(controller.offset, 45);
    assert_eq!(controller.length, 15);
    assert_eq!(controller.data_source, None);
    assert_eq!(controller.sensor_attenuation_rising, 10);
    assert_eq!(controller.sensor_attenuation_falling, 15);
    let Effect::ColorGradient(effect) = controller.effect else {
        panic!("Unexpected effect!");
    };
    assert_eq!(effect.start_color, from_rgb_hex(0xFF0000));
    assert_eq!(
        &effect.colors[..],
        &[
            (from_rgb_hex(0x00FF00), 250),
            (from_rgb_hex(0x0000FF), 500),
            (from_hsv(30.11764705882353, 0.0, 1.0), 750),
        ][..]
    );
    assert_eq!(*effect.rotation, 0);
    assert_eq!(effect.source_control_rotation, None);
    assert!(!effect.reverse_direction);
    assert!(!effect.reverse_rotation);

    assert!(strip.next().is_none());
    assert!(sensor.next().is_none());
}

#[test]
fn default_frame_in_short() {
    let values = decode(&default_frame().frame());
    assert_eq!(*values.system.aqua_bus_address, 58);
    assert_eq!(values.sensor.medium, Medium::DpUltra);
    assert_eq!(values.alarms.output_signal, OutputSignal::ConstantSpeed);
    assert_eq!(values.display.temperature_unit, TemperatureUnit::C);
    let lighting = values.lighting.expect("Lighting is expected to be enabled!");
    let Effect::Rainbow(effect) = &lighting.strip_controllers[0].effect else {
        panic!("Unexpected effect!");
    };
    assert_eq!(effect.color, from_rgb_hex(0x3C0000));
    assert_eq!(*effect.speed, 50);
}

#[test]
fn lighting_switched_off() {
    let mut raw = default_frame();
    raw.lighting_flags = 0x02;
    let values = decode(&raw.frame());
    assert_eq!(values.lighting, None);
    assert_eq!(*values.sensor.water_quality_min, 950);
    assert_eq!(*values.alarms.startup_delay, 10);
}

#[test]
fn lighting_switched_off_skips_what_the_slots_hold() {
    let mut raw = default_frame();
    raw.lighting_flags = 0x02;
    // a speed out of range in the first slot: never looked at
    raw.controllers[0][9 + 12] = 0xFF;
    let values = decode(&raw.frame());
    assert_eq!(values.lighting, None);
    // an unknown effect in a skipped slot is still refused
    raw.controllers[1][2] = 0x06;
    assert_eq!(Frame::from_bytes(&raw.frame()), Err(Error::InvalidValue("Effect", 6)));
}

#[test]
fn altered_checksum() {
    let mut bytes = default_frame().frame();
    let last = bytes.len() - 1;
    bytes[last] ^= 0x40;
    assert_eq!(Frame::from_bytes(&bytes), Err(Error::ChecksumMismatch));
    let mut bytes = default_frame().frame();
    bytes[last - 1] = bytes[last - 1].wrapping_add(1);
    assert_eq!(Frame::from_bytes(&bytes), Err(Error::ChecksumMismatch));
}

#[test]
fn every_changed_payload_byte_is_noticed() {
    let bytes = default_frame().frame();
    assert!(Frame::from_bytes(&bytes).is_ok());
    let mut mismatches = 0;
    for i in 1..680 {
        let mut changed = bytes.clone();
        changed[i] ^= 0x01;
        match Frame::from_bytes(&changed) {
            Ok(_) => panic!("the change of byte {i} went unnoticed"),
            Err(Error::ChecksumMismatch) => mismatches += 1,
            Err(Error::InvalidValue(..)) | Err(Error::RangeError(_)) => {}
            Err(Error::IoError) => panic!("no byte is missing"),
        }
    }
    assert!(mismatches > 500);
}

#[test]
fn short_frames_run_out_of_bytes() {
    let bytes = default_frame().frame();
    for len in [0, 1, 2, 100, 680, 681] {
        assert_eq!(Frame::from_bytes(&bytes[..len]), Err(Error::IoError));
    }
    let mut longer = bytes.clone();
    longer.push(0);
    assert!(Frame::from_bytes(&longer).is_ok());
}

#[test]
fn the_first_failure_in_the_order_of_the_bytes_is_reported() {
    let mut raw = default_frame();
    raw.medium = 9;
    raw.output_signal = 77;
    let bytes = raw.frame();
    assert_eq!(Frame::from_bytes(&bytes), Err(Error::InvalidValue("Medium", 9)));
    // the medium stands at byte 47 of the frame: cut behind it, it is still the medium
    assert_eq!(Frame::from_bytes(&bytes[..48]), Err(Error::InvalidValue("Medium", 9)));
    assert_eq!(Frame::from_bytes(&bytes[..47]), Err(Error::IoError));
}

#[test]
fn unknown_operation_code() {
    let mut bytes = default_frame().frame();
    bytes[0] = 0x04;
    assert_eq!(Frame::from_bytes(&bytes), Err(Error::InvalidValue("OpCode", 4)));
    assert_eq!(Frame::from_bytes(&[0x00]), Err(Error::InvalidValue("OpCode", 0)));
}
