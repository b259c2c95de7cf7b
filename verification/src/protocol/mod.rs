//! The frames that the device sends, and the settings inside of them.

pub mod settings;

use vstd::prelude::*;

use crate::misc::crc::{crc16_usb, lemma_crc_detects_one_byte};
use crate::misc::io::{be_u16, fails_if, invalid, reserved, Checks};
use crate::misc::{
    CrcReader, Decode, Error, Failure, Guard, GuardOutput, Reader, SliceReader, ValueGuard,
};

pub use self::settings::{Settings, SettingsModel};

use self::settings::alarm::output_signal_of;
use self::settings::display::{
    chart_source_of, display_brightness_of, flow_unit_of, option_display_brightness_of,
    temperature_unit_of,
};
use self::settings::lighting::parts::{data_source_of, sound_effect_of};
use self::settings::lighting::{selects_effect, Controller};
use self::settings::sensor::{connector_type_of, medium_of};
use self::settings::{
    ChartSource, ConnectorType, DataSource, DisplayBrightness, FlowUnit, Medium, OutputSignal,
    SoundEffect, TemperatureUnit,
};

use self::settings::SETTINGS_WIDTH;

verus! {

/// A frame that the device sends.
#[derive(Debug, Clone, PartialEq, Eq)]
pub enum Frame {
    /// The frame with the operation code `0x03`, which holds the settings.
    Settings(Settings),
}

/// The mathematical content of a [`Frame`].
pub ghost enum FrameModel {
    /// See [`Frame::Settings`].
    Settings(SettingsModel),
}

impl View for Frame {
    type V = FrameModel;

    open spec fn view(&self) -> FrameModel {
        match *self {
            Frame::Settings(settings) => FrameModel::Settings(settings@),
        }
    }
}

/// The operation code of the frame that holds the settings.
pub const OP_SETTINGS: u8 = 0x03;

/// The number of bytes that a frame takes.
pub const FRAME_WIDTH: usize = 682;

/// The payload of the frame at index `at` of `stream`: the bytes between the
/// operation code and the checksum.
pub open spec fn payload(stream: Seq<u8>, at: int) -> Seq<u8> {
    stream.subrange(at + 1, at + 1 + SETTINGS_WIDTH)
}

/// The checksum that the frame at index `at` of `stream` carries behind its
/// payload.
pub open spec fn carried_checksum(stream: Seq<u8>, at: int) -> u16 {
    be_u16(stream[at + 1 + SETTINGS_WIDTH], stream[at + 2 + SETTINGS_WIDTH])
}

/// A frame takes 682 bytes: the operation code, the payload and the
/// CRC-16/USB checksum of the payload as a big-endian number. An operation
/// code other than `0x03` is reported under the name `OpCode` before the
/// payload is read. The checksum is compared after the payload is decoded,
/// in either mode.
impl Decode for Frame {
    type Model = FrameModel;

    open spec fn model(&self) -> FrameModel {
        self@
    }

    open spec fn width() -> nat {
        FRAME_WIDTH as nat
    }

    open spec fn failure(stream: Seq<u8>, at: int, keep: bool) -> Option<Failure> {
        reserved(stream, at, 1).otherwise(
            fails_if(stream[at] != OP_SETTINGS, invalid("OpCode", stream[at] as int)),
        ).otherwise(Settings::failure(stream, at + 1, keep)).otherwise(
            reserved(stream, at + 1 + SETTINGS_WIDTH, 2),
        ).otherwise(
            fails_if(
                crc16_usb(payload(stream, at)) != carried_checksum(stream, at),
                Failure::ChecksumMismatch,
            ),
        )
    }

    open spec fn value(stream: Seq<u8>, at: int) -> FrameModel {
        FrameModel::Settings(Settings::value(stream, at + 1))
    }

    proof fn lemma_skip_parity(stream: Seq<u8>, at: int) {
        if Settings::failure(stream, at + 1, true) is None {
            Settings::lemma_skip_parity(stream, at + 1);
        }
    }

    fn decode<R: Reader>(reader: &mut R) -> (res: Result<GuardOutput<Self>, Error>) {
        let ghost stream = reader.cursor().stream;
        let ghost at = reader.cursor().at();
        let ghost marks = reader.cursor().marks;
        let op_code = reader.read_u8()?;
        let mut crc = CrcReader::new(*reader);
        let ret = match op_code {
            0x03 => {
                let ret = Settings::decode(&mut crc)?;
                match R::guard() {
                    Some(x) => GuardOutput::Value(Frame::Settings(x.extract(ret))),
                    None => GuardOutput::Skipped,
                }
            },
            op_code => {
                return Err(Error::InvalidValue("OpCode", op_code as usize));
            },
        };
        let crc_actual = crc.finalize();
        proof {
            assert(marks.push((at + 1) as nat).drop_last() =~= marks);
        }
        *reader = crc.into_inner();
        let crc_expected = reader.read_u16be()?;
        if crc_actual != crc_expected {
            return Err(Error::ChecksumMismatch);
        }
        Ok(ret)
    }
}

impl Frame {
    /// Decodes the frame that `bytes` begin with.
    ///
    /// Succeeds exactly where [`Decode::failure`] finds nothing to report in
    /// the mode that keeps values, and then hands back [`Decode::value`].
    /// Bytes behind the frame are not looked at.
    pub fn from_bytes(bytes: &[u8]) -> (res: Result<Frame, Error>)
        ensures
            match res {
                Ok(frame) => Frame::failure(bytes@, 0, true) is None && frame@ == Frame::value(
                    bytes@,
                    0,
                ),
                Err(e) => Frame::failure(bytes@, 0, true) == Some(e@),
            },
    {
        let mut reader = SliceReader::new(bytes);
        let out = Frame::decode(&mut reader)?;
        Ok(ValueGuard.extract(out))
    }
}

/// A frame that decodes is refused after one byte of its payload was changed.
/// Where the changed payload still decodes as settings, the frame is refused
/// for its checksum.
pub proof fn lemma_changed_payload_is_refused(
    stream: Seq<u8>,
    changed: Seq<u8>,
    at: int,
    i: int,
    keep: bool,
)
    requires
        0 <= at,
        changed.len() == stream.len(),
        at + 1 <= i < at + 1 + SETTINGS_WIDTH,
        stream[i] != changed[i],
        forall|j: int| 0 <= j < stream.len() && j != i ==> stream[j] == changed[j],
        Frame::failure(stream, at, keep) is None,
    ensures
        Frame::failure(changed, at, keep) is Some,
        Settings::failure(changed, at + 1, keep) is None ==> Frame::failure(changed, at, keep)
            == Some(Failure::ChecksumMismatch),
{
    let was = payload(stream, at);
    let now = payload(changed, at);
    assert forall|j: int| 0 <= j < was.len() && j != i - at - 1 implies was[j] == now[j] by {}
    lemma_crc_detects_one_byte(was, now, i - at - 1);
}

/// A frame with the operation code of the settings whose payload decodes as
/// settings and whose checksum is that of the payload decodes.
pub proof fn lemma_checksummed_frame_decodes(stream: Seq<u8>, at: int, keep: bool)
    requires
        0 <= at,
        at + FRAME_WIDTH <= stream.len(),
        stream[at] == OP_SETTINGS,
        Settings::failure(stream, at + 1, keep) is None,
        carried_checksum(stream, at) == crc16_usb(payload(stream, at)),
    ensures
        Frame::failure(stream, at, keep) is None,
{
}

/// A code that selects nothing is refused under the name of its field and
/// with its number, in either mode: the operation code of a frame, the
/// selector of an effect, and the codes of the fields that hold one of a set
/// of values. The selector of an effect is looked at after the head of its
/// controller was read, in which the data source comes first.
pub proof fn lemma_unknown_code_is_refused(stream: Seq<u8>, at: int, keep: bool)
    requires
        0 <= at,
    ensures
        at + 1 <= stream.len() && stream[at] != OP_SETTINGS ==> Frame::failure(stream, at, keep)
            == Some(invalid("OpCode", stream[at] as int)),
        at + 9 <= stream.len() && Option::<DataSource>::failure(stream, at + 5, keep) is None
            && stream[at + 2] != 0 && !selects_effect(stream[at + 2]) ==> Option::<
            Controller,
        >::failure(stream, at, keep) == Some(invalid("Effect", stream[at + 2] as int)),
        at + 1 <= stream.len() && temperature_unit_of(stream[at] as int) is None
            ==> TemperatureUnit::failure(stream, at, keep) == Some(
            invalid("TemperatureUnit", stream[at] as int),
        ),
        at + 1 <= stream.len() && flow_unit_of(stream[at] as int) is None ==> FlowUnit::failure(
            stream,
            at,
            keep,
        ) == Some(invalid("FlowUnit", stream[at] as int)),
        at + 1 <= stream.len() && display_brightness_of(stream[at] as int) is None
            ==> DisplayBrightness::failure(stream, at, keep) == Some(
            invalid("DisplayBrightness", stream[at] as int),
        ),
        at + 1 <= stream.len() && option_display_brightness_of(stream[at] as int) is None
            ==> Option::<DisplayBrightness>::failure(stream, at, keep) == Some(
            invalid("Option<DisplayBrightness>", stream[at] as int),
        ),
        at + 1 <= stream.len() && chart_source_of(stream[at] as int) is None
            ==> ChartSource::failure(stream, at, keep) == Some(
            invalid("ChartSource", stream[at] as int),
        ),
        at + 1 <= stream.len() && medium_of(stream[at] as int) is None ==> Medium::failure(
            stream,
            at,
            keep,
        ) == Some(invalid("Medium", stream[at] as int)),
        at + 1 <= stream.len() && connector_type_of(stream[at] as int) is None
            ==> ConnectorType::failure(stream, at, keep) == Some(
            invalid("ConnectorType", stream[at] as int),
        ),
        at + 1 <= stream.len() && output_signal_of(stream[at] as int) is None
            ==> OutputSignal::failure(stream, at, keep) == Some(
            invalid("OutputSignal", stream[at] as int),
        ),
        at + 2 <= stream.len() && data_source_of(be_u16(stream[at], stream[at + 1]) as int) is None
            ==> Option::<DataSource>::failure(stream, at, keep) == Some(
            invalid("DataSource", be_u16(stream[at], stream[at + 1]) as int),
        ),
        at + 2 <= stream.len() && sound_effect_of(be_u16(stream[at], stream[at + 1]) as int) is None
            ==> SoundEffect::failure(stream, at, keep) == Some(
            invalid("SoundEffect", be_u16(stream[at], stream[at + 1]) as int),
        ),
{
}

} // verus!
