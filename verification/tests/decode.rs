use high_flow_next::misc::{Decode, Error, GuardOutput, RangeError, SkipReader, SliceReader};
use high_flow_next::protocol::settings::{
    AlarmFlags, AlarmSettings, Chart, ChartInterval, ChartSource, ConnectorType, CurrentDraw,
    DisplayBrightness, DisplayFlags, DisplaySettings, Flow, FlowUnit, Medium, NextPageInterval,
    OutputSignal, PageFlags, PowerFlags, Settings, StandbyFlags, Temperature, TemperatureUnit,
    WaterQuality,
};
use high_flow_next::protocol::Frame;

fn value<T: Decode>(bytes: &[u8]) -> Result<T, Error> {
    let mut reader = SliceReader::new(bytes);
    T::decode(&mut reader).map(|out| out.value().unwrap())
}

/// The number of bytes that decoding and skipping read, which must agree.
fn width<T: Decode>(bytes: &[u8]) -> usize {
    let mut reader = SliceReader::new(bytes);
    assert!(T::decode(&mut reader).is_ok());
    let mut skipping = SliceReader::new(bytes);
    assert_eq!(T::skip_bytes(&mut skipping), Ok(()));
    assert_eq!(skipping.position(), reader.position());
    let mut skip = SkipReader(SliceReader::new(bytes));
    assert!(matches!(T::decode(&mut skip), Ok(GuardOutput::Skipped)));
    assert_eq!(skip.0.position(), reader.position());
    // one byte less is not enough, in either mode
    let short = &bytes[..reader.position() - 1];
    assert_eq!(T::decode(&mut SliceReader::new(short)).err(), Some(Error::IoError));
    assert_eq!(T::skip_bytes(&mut SliceReader::new(short)), Err(Error::IoError));
    reader.position()
}

fn range(min: &str, max: &str, val: &str) -> Error {
    Error::RangeError(RangeError {
        min: min.to_string(),
        max: max.to_string(),
        val: val.to_string(),
    })
}

#[test]
fn numbers() {
    assert_eq!(value::<u8>(&[0xAB]), Ok(0xAB));
    assert_eq!(value::<u16>(&[0xAB, 0xCD]), Ok(0xABCD));
    assert_eq!(value::<i16>(&[0xAB, 0xCD]), Ok(-21555));
    assert_eq!(value::<u16>(&[0xAB]), Err(Error::IoError));
    assert_eq!(value::<u8>(&[]), Err(Error::IoError));
}

#[test]
fn arrays() {
    assert_eq!(value::<[u8; 3]>(&[1, 2, 3, 4]), Ok([1, 2, 3]));
    assert_eq!(value::<[u16; 2]>(&[0, 1, 1, 0]), Ok([1, 256]));
    assert_eq!(value::<[i16; 2]>(&[0xFF, 0xFE, 0, 5]), Ok([-2, 5]));
    assert_eq!(value::<[u8; 0]>(&[]), Ok([]));
    assert_eq!(value::<[u16; 2]>(&[0, 1, 1]), Err(Error::IoError));
    assert_eq!(value::<[[u8; 2]; 2]>(&[1, 2, 3, 4]), Ok([[1, 2], [3, 4]]));
    assert_eq!(
        value::<[Medium; 3]>(&[1, 0, 1]),
        Ok([Medium::DistilledWater, Medium::DpUltra, Medium::DistilledWater])
    );
    // the first element that fails decides
    assert_eq!(value::<[Medium; 3]>(&[1, 7, 9]), Err(Error::InvalidValue("Medium", 7)));
    assert_eq!(value::<[Medium; 3]>(&[1, 7]), Err(Error::InvalidValue("Medium", 7)));
    assert_eq!(value::<[Medium; 3]>(&[1, 0]), Err(Error::IoError));
    assert_eq!(
        <[Medium; 3]>::skip_bytes(&mut SliceReader::new(&[1, 7, 9])),
        Err(Error::InvalidValue("Medium", 7))
    );
}

#[test]
fn widths_agree_between_the_modes() {
    let zeros = [0u8; 700];
    assert_eq!(width::<u8>(&zeros), 1);
    assert_eq!(width::<u16>(&zeros), 2);
    assert_eq!(width::<i16>(&zeros), 2);
    assert_eq!(width::<[u16; 6]>(&zeros), 12);
    assert_eq!(width::<Flow>(&zeros), 2);
    assert_eq!(width::<Medium>(&zeros), 1);
    assert_eq!(width::<Option<DisplayBrightness>>(&zeros), 1);
    assert_eq!(width::<Option<CurrentDraw>>(&zeros), 4);
    assert_eq!(width::<StandbyFlags>(&zeros), 1);
    assert_eq!(width::<PageFlags>(&zeros), 2);
    assert_eq!(width::<AlarmSettings>(&zeros), 13);
    let mut display = [0u8; 35];
    display[3] = 255;
    for chart in 0..4 {
        display[19 + 4 * chart + 3] = 1;
    }
    assert_eq!(width::<Chart>(&display[19..]), 4);
    assert_eq!(width::<[Chart; 4]>(&display[19..]), 16);
    assert_eq!(width::<DisplaySettings>(&display), 35);
}

#[test]
fn selectors() {
    assert_eq!(value::<Medium>(&[0]), Ok(Medium::DpUltra));
    assert_eq!(value::<Medium>(&[1]), Ok(Medium::DistilledWater));
    assert_eq!(value::<ConnectorType>(&[0]), Ok(ConnectorType::InnerDiameterGt7mm));
    assert_eq!(value::<ConnectorType>(&[1]), Ok(ConnectorType::InnerDiameterLt7mm));
    assert_eq!(value::<TemperatureUnit>(&[0]), Ok(TemperatureUnit::C));
    assert_eq!(value::<TemperatureUnit>(&[1]), Ok(TemperatureUnit::F));
    assert_eq!(value::<FlowUnit>(&[0]), Ok(FlowUnit::Liter));
    assert_eq!(value::<FlowUnit>(&[1]), Ok(FlowUnit::Gallons));
    assert_eq!(value::<DisplayBrightness>(&[0]), Ok(DisplayBrightness::Maximum));
    assert_eq!(value::<DisplayBrightness>(&[1]), Ok(DisplayBrightness::Medium));
    assert_eq!(value::<DisplayBrightness>(&[2]), Ok(DisplayBrightness::Low));
    assert_eq!(value::<Option<DisplayBrightness>>(&[0]), Ok(Some(DisplayBrightness::Maximum)));
    assert_eq!(value::<Option<DisplayBrightness>>(&[1]), Ok(Some(DisplayBrightness::Medium)));
    assert_eq!(value::<Option<DisplayBrightness>>(&[2]), Ok(Some(DisplayBrightness::Low)));
    assert_eq!(value::<Option<DisplayBrightness>>(&[3]), Ok(None));
    let sources = [
        ChartSource::Flow,
        ChartSource::WaterTemp,
        ChartSource::ExternalTemp,
        ChartSource::Conductivity,
        ChartSource::WaterQuality,
        ChartSource::PowerConsumption,
        ChartSource::SystemVoltage,
    ];
    for (code, source) in sources.into_iter().enumerate() {
        assert_eq!(value::<ChartSource>(&[code as u8]), Ok(source));
    }
    let signals = [
        OutputSignal::ConstantSpeed,
        OutputSignal::HighFlowSensor,
        OutputSignal::FanFromFlow,
        OutputSignal::PulseOnAlarm,
        OutputSignal::PermanentOn,
        OutputSignal::PermanentOff,
    ];
    for (code, signal) in signals.into_iter().enumerate() {
        assert_eq!(value::<OutputSignal>(&[code as u8]), Ok(signal));
    }
}

#[test]
fn unknown_codes_are_refused_with_name_and_number() {
    assert_eq!(value::<Medium>(&[2]), Err(Error::InvalidValue("Medium", 2)));
    assert_eq!(value::<ConnectorType>(&[255]), Err(Error::InvalidValue("ConnectorType", 255)));
    assert_eq!(value::<TemperatureUnit>(&[2]), Err(Error::InvalidValue("TemperatureUnit", 2)));
    assert_eq!(value::<FlowUnit>(&[2]), Err(Error::InvalidValue("FlowUnit", 2)));
    assert_eq!(
        value::<DisplayBrightness>(&[3]),
        Err(Error::InvalidValue("DisplayBrightness", 3))
    );
    assert_eq!(
        value::<Option<DisplayBrightness>>(&[4]),
        Err(Error::InvalidValue("Option<DisplayBrightness>", 4))
    );
    assert_eq!(value::<ChartSource>(&[7]), Err(Error::InvalidValue("ChartSource", 7)));
    assert_eq!(value::<OutputSignal>(&[6]), Err(Error::InvalidValue("OutputSignal", 6)));
    // in the mode that skips as well
    assert_eq!(
        Medium::skip_bytes(&mut SliceReader::new(&[2])),
        Err(Error::InvalidValue("Medium", 2))
    );
    assert_eq!(
        OutputSignal::decode(&mut SkipReader(SliceReader::new(&[200]))),
        Err(Error::InvalidValue("OutputSignal", 200))
    );
    for code in 0..=255u8 {
        assert_eq!(value::<Medium>(&[code]).is_ok(), code <= 1);
        assert_eq!(value::<ChartSource>(&[code]).is_ok(), code <= 6);
        assert_eq!(value::<Option<DisplayBrightness>>(&[code]).is_ok(), code <= 3);
    }
}

#[test]
fn flags_keep_the_bits_that_have_a_meaning() {
    assert_eq!(value::<StandbyFlags>(&[0xFF]).unwrap().bits(), 0xF7);
    assert_eq!(value::<PowerFlags>(&[0xFF]).unwrap().bits(), 0x01);
    assert_eq!(value::<AlarmFlags>(&[0xFF]).unwrap().bits(), 0xE0);
    assert_eq!(value::<DisplayFlags>(&[0xFF]).unwrap().bits(), 0x3D);
    assert_eq!(value::<PageFlags>(&[0xFF, 0xFF]).unwrap().bits(), 0xFFFF);
    assert_eq!(value::<PageFlags>(&[0x12, 0x34]).unwrap().bits(), 0x1234);
    assert_eq!(value::<StandbyFlags>(&[0x08]), Ok(StandbyFlags::empty()));
    let flags = StandbyFlags::from_bits_truncate(0x0B);
    assert_eq!(flags.bits, 0x03);
    assert!(flags.contains(StandbyFlags::STANDBY_NO_USB));
    assert!(flags.contains(StandbyFlags::STANDBY_NO_USB | StandbyFlags::STANDBY_ON_SUSPEND));
    assert!(!flags.contains(StandbyFlags::STANDBY_ON_ABUS_LOSS));
    assert!(!flags.contains(StandbyFlags::STANDBY_NO_USB | StandbyFlags::DISPLAY_OFF));
    assert!(PageFlags::from_bits_truncate(0x8001).contains(PageFlags::CHART4));
    assert_eq!(StandbyFlags::ALL, 0xF7);
    assert_eq!(AlarmFlags::ALL, 0xE0);
    assert_eq!(DisplayFlags::ALL, 0x3D);
    assert_eq!(PowerFlags::ALL, 0x01);
    assert_eq!(PageFlags::ALL, 0xFFFF);
}

#[test]
fn the_current_limit_is_present_if_its_flag_is_set() {
    let limit = |n: u16| Some(CurrentDraw::from_value(n).unwrap());
    assert_eq!(value::<Option<CurrentDraw>>(&[0, 1, 0x02, 0x58]), Ok(limit(600)));
    assert_eq!(value::<Option<CurrentDraw>>(&[0xAA, 0xFF, 0x07, 0xD0]), Ok(limit(2000)));
    assert_eq!(value::<Option<CurrentDraw>>(&[0, 0, 0x02, 0x58]), Ok(None));
    // a limit that is not set is not checked
    assert_eq!(value::<Option<CurrentDraw>>(&[0, 0xFE, 0xFF, 0xFF]), Ok(None));
    assert_eq!(
        value::<Option<CurrentDraw>>(&[0, 1, 0xFF, 0xFF]),
        Err(range("500", "2000", "65535"))
    );
    assert_eq!(value::<Option<CurrentDraw>>(&[0, 1, 0x01, 0xF3]), Err(range("500", "2000", "499")));
    assert_eq!(value::<Option<CurrentDraw>>(&[0, 1, 0x02]), Err(Error::IoError));
    assert_eq!(
        Option::<CurrentDraw>::skip_bytes(&mut SliceReader::new(&[0, 1, 0xFF, 0xFF])),
        Ok(())
    );
}

#[test]
fn the_page_interval() {
    let interval = |n: u8| Some(NextPageInterval::from_value(n).unwrap());
    assert_eq!(value::<Option<NextPageInterval>>(&[3]), Ok(interval(3)));
    assert_eq!(value::<Option<NextPageInterval>>(&[60]), Ok(interval(60)));
    assert_eq!(value::<Option<NextPageInterval>>(&[61]), Ok(None));
    assert_eq!(value::<Option<NextPageInterval>>(&[255]), Ok(None));
    assert_eq!(
        value::<Option<NextPageInterval>>(&[2]),
        Err(Error::InvalidValue("NextPageInterval", 2))
    );
    assert_eq!(
        value::<Option<NextPageInterval>>(&[0]),
        Err(Error::InvalidValue("NextPageInterval", 0))
    );
    assert_eq!(Option::<NextPageInterval>::skip_bytes(&mut SliceReader::new(&[2])), Ok(()));
}

#[test]
fn an_optional_value_takes_its_bytes_whether_it_is_read_or_not() {
    let bytes = [0x0B, 0xB8, 0x11, 0x94];
    let mut reader = SliceReader::new(&bytes);
    assert_eq!(
        Flow::decode_opt(&mut reader, true),
        Ok(GuardOutput::Value(Some(Flow::from_value(3000).unwrap())))
    );
    assert_eq!(reader.position(), 2);
    let mut reader = SliceReader::new(&bytes);
    assert_eq!(Flow::decode_opt(&mut reader, false), Ok(GuardOutput::Value(None)));
    assert_eq!(reader.position(), 2);
    assert_eq!(
        Temperature::decode_opt(&mut reader, true),
        Ok(GuardOutput::Value(Some(Temperature::from_value(4500).unwrap())))
    );
    // what is not read is not checked, what is read is
    let wrong = [0xFF, 0xFF];
    assert_eq!(
        WaterQuality::decode_opt(&mut SliceReader::new(&wrong), false),
        Ok(GuardOutput::Value(None))
    );
    assert_eq!(
        WaterQuality::decode_opt(&mut SliceReader::new(&wrong), true),
        Err(range("0", "10000", "65535"))
    );
    assert_eq!(
        Medium::decode_opt(&mut SliceReader::new(&[9]), false),
        Err(Error::InvalidValue("Medium", 9))
    );
    assert_eq!(Flow::decode_opt(&mut SliceReader::new(&[1]), false), Err(Error::IoError));
    assert_eq!(Flow::decode_opt(&mut SliceReader::new(&[1]), true), Err(Error::IoError));
    let mut skip = SkipReader(SliceReader::new(&wrong));
    assert_eq!(WaterQuality::decode_opt(&mut skip, true), Ok(GuardOutput::Skipped));
    assert_eq!(skip.0.position(), 2);
}

#[test]
fn alarm_limits_follow_their_bits() {
    let mut bytes = [0u8; 13];
    bytes[0] = 0xFF;
    bytes[3] = 100;
    bytes[4..6].copy_from_slice(&3000u16.to_be_bytes());
    bytes[6..8].copy_from_slice(&4500u16.to_be_bytes());
    bytes[8..10].copy_from_slice(&10000u16.to_be_bytes());
    bytes[10..12].copy_from_slice(&1u16.to_be_bytes());
    bytes[12] = 5;
    for alarms in 0..16u8 {
        bytes[1] = alarms | 0xF0;
        let settings = value::<AlarmSettings>(&bytes).unwrap();
        assert_eq!(settings.flags.bits(), 0xE0);
        assert_eq!(*settings.startup_delay, 100);
        assert_eq!(settings.flow_alarm_limit.as_deref(), (alarms & 1 != 0).then_some(&3000));
        assert_eq!(settings.water_temperature_limit.as_deref(), (alarms & 2 != 0).then_some(&4500));
        assert_eq!(
            settings.external_temperature_limit.as_deref(),
            (alarms & 4 != 0).then_some(&10000)
        );
        assert_eq!(settings.water_quality_limit.as_deref(), (alarms & 8 != 0).then_some(&1));
        assert_eq!(settings.output_signal, OutputSignal::PermanentOff);
    }
    // a limit out of range is refused only if its bit is set
    bytes[4..6].copy_from_slice(&3001u16.to_be_bytes());
    bytes[1] = 0x0E;
    assert!(value::<AlarmSettings>(&bytes).is_ok());
    bytes[1] = 0x01;
    assert_eq!(value::<AlarmSettings>(&bytes), Err(range("0", "3000", "3001")));
    bytes[3] = 101;
    assert_eq!(value::<AlarmSettings>(&bytes), Err(range("0", "100", "101")));
    assert_eq!(AlarmSettings::skip_bytes(&mut SliceReader::new(&bytes)), Ok(()));
}

#[test]
fn charts() {
    assert_eq!(
        value::<Chart>(&[0xEE, 4, 0xEA, 0x60]),
        Ok(Chart {
            source: ChartSource::WaterQuality,
            interval: ChartInterval::from_value(60000).unwrap()
        })
    );
    assert_eq!(value::<Chart>(&[0, 4, 0, 0]), Err(range("1", "60000", "0")));
    assert_eq!(value::<Chart>(&[0, 4, 0xEA, 0x61]), Err(range("1", "60000", "60001")));
    assert_eq!(value::<Chart>(&[0, 9, 0, 0]), Err(Error::InvalidValue("ChartSource", 9)));
    assert_eq!(Chart::skip_bytes(&mut SliceReader::new(&[0, 4, 0, 0])), Ok(()));
}

#[test]
fn settings_and_frames_need_all_their_bytes() {
    let zeros = [0u8; 1000];
    // after 37 bytes of zeros the page interval 0 is the first thing that is wrong
    assert_eq!(
        value::<Settings>(&zeros),
        Err(Error::InvalidValue("NextPageInterval", 0))
    );
    assert_eq!(value::<Settings>(&zeros[..5]), Err(Error::IoError));
    assert_eq!(value::<Frame>(&zeros), Err(Error::InvalidValue("OpCode", 0)));
    assert_eq!(
        Frame::skip_bytes(&mut SliceReader::new(&zeros)),
        Err(Error::InvalidValue("OpCode", 0))
    );
}
