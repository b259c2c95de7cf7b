//! The effects whose values hold lists of colors.

use arrayvec::ArrayVec;
use vstd::prelude::*;

use crate::misc::io::{be_u16, flag_set, has_flag, reserved, Checks};
use crate::misc::{Decode, Error, Failure, Guard, GuardOutput, Reader};

use super::body::EffectBody;
use super::lists::{
    collect_colors5, collect_colors6, collect_ranges4, collect_ranges6, collect_stops3, colors5,
    colors6, ranges4, ranges6, stops3,
};
use super::parts::{
    at_most, bit, colors_at, decode_colors, flag_bit, decode_numbers, numbers_at, skip_colors,
    source_control_at, take_colors, Color, EffectDelay, EffectPercent, EffectWidth, SourceControl,
};

verus! {

/// Colors that blink in front of a background.
#[derive(Debug, Clone, PartialEq, Eq)]
#[allow(clippy::struct_excessive_bools)]
pub struct EffectBlink {
    /// Color between the blinks.
    pub background: Color,
    /// Colors of the blinks.
    pub colors: ArrayVec<Color, 5>,
    /// Speed of the blinking.
    pub speed: EffectPercent,
    /// Whether a blink fades in.
    pub fade_in: bool,
    /// Whether a blink fades out.
    pub fade_out: bool,
    /// Whether the color of a blink is chosen at random.
    pub random_color: bool,
    /// Whether the colors slide in.
    pub slide_colors: bool,
    /// Mapping of the signal onto the speed, if there is one.
    pub source_control_speed: Option<SourceControl>,
    /// Mapping of the signal onto the brightness, if there is one.
    pub source_control_brightness: Option<SourceControl>,
}

/// The mathematical content of an [`EffectBlink`].
pub ghost struct EffectBlinkModel {
    /// See [`EffectBlink::background`].
    pub background: Color,
    /// See [`EffectBlink::colors`].
    pub colors: Seq<Color>,
    /// See [`EffectBlink::speed`].
    pub speed: EffectPercent,
    /// See [`EffectBlink::fade_in`].
    pub fade_in: bool,
    /// See [`EffectBlink::fade_out`].
    pub fade_out: bool,
    /// See [`EffectBlink::random_color`].
    pub random_color: bool,
    /// See [`EffectBlink::slide_colors`].
    pub slide_colors: bool,
    /// See [`EffectBlink::source_control_speed`].
    pub source_control_speed: Option<SourceControl>,
    /// See [`EffectBlink::source_control_brightness`].
    pub source_control_brightness: Option<SourceControl>,
}

impl View for EffectBlink {
    type V = EffectBlinkModel;

    open spec fn view(&self) -> EffectBlinkModel {
        EffectBlinkModel {
            background: self.background,
            colors: colors5(self.colors),
            speed: self.speed,
            fade_in: self.fade_in,
            fade_out: self.fade_out,
            random_color: self.random_color,
            slide_colors: self.slide_colors,
            source_control_speed: self.source_control_speed,
            source_control_brightness: self.source_control_brightness,
        }
    }
}

/// The body holds the two source controls, the speed, the number of colors,
/// 20 reserved bytes and six color slots: the background, then up to five
/// colors, of which the number of colors says how many are in use.
impl EffectBody for EffectBlink {
    type Model = EffectBlinkModel;

    open spec fn model(&self) -> EffectBlinkModel {
        self@
    }

    open spec fn failure(stream: Seq<u8>, at: int, flags: u16, keep: bool) -> Option<Failure> {
        reserved(stream, at, 12).otherwise(
            EffectPercent::failure(stream, at + 12, keep),
        ).otherwise(
            reserved(stream, at + 14, 46),
        )
    }

    open spec fn value(stream: Seq<u8>, at: int, flags: u16) -> EffectBlinkModel {
        EffectBlinkModel {
            background: Color::value(stream, at + 36),
            colors: colors_at(
                stream,
                at + 40,
                at_most(be_u16(stream[at + 14], stream[at + 15]) as int, 5),
            ),
            speed: EffectPercent::value(stream, at + 12),
            fade_in: has_flag(flags, 0x02),
            fade_out: has_flag(flags, 0x04),
            random_color: has_flag(flags, 0x08),
            slide_colors: has_flag(flags, 0x10),
            source_control_speed: source_control_at(stream, at, has_flag(flags, 0x4000)),
            source_control_brightness: source_control_at(stream, at + 6, has_flag(flags, 0x8000)),
        }
    }

    proof fn lemma_skip_parity(stream: Seq<u8>, at: int, flags: u16) {
    }

    fn decode<R: Reader>(reader: &mut R, flags: u16) -> (res: Result<GuardOutput<Self>, Error>) {
        let ghost stream = reader.cursor().stream;
        let ghost at = reader.cursor().at();
        let source_control_speed = SourceControl::decode_opt(reader, flag_set(flags, 0x4000))?;
        let source_control_brightness = SourceControl::decode_opt(reader, flag_set(flags, 0x8000))?;
        let speed = EffectPercent::decode(reader)?;
        let color_count = reader.read_u16be()? as usize;
        reader.skip::<20>()?;
        let colors = decode_colors::<R, 6>(reader)?;
        match R::guard() {
            Some(x) => {
                let colors = x.extract(colors);
                let used = take_colors(&colors, 1, color_count);
                let effect = EffectBlink {
                    background: colors[0],
                    colors: collect_colors5(used),
                    speed: x.extract(speed),
                    fade_in: flag_set(flags, 0x02),
                    fade_out: flag_set(flags, 0x04),
                    random_color: flag_set(flags, 0x08),
                    slide_colors: flag_set(flags, 0x10),
                    source_control_speed: x.extract(source_control_speed),
                    source_control_brightness: x.extract(source_control_brightness),
                };
                proof {
                    assert(used@ =~= Self::value(stream, at, flags).colors);
                }
                Ok(GuardOutput::Value(effect))
            },
            None => Ok(GuardOutput::Skipped),
        }
    }
}

/// Colors that follow one another.
#[derive(Debug, Clone, PartialEq, Eq)]
pub struct EffectColorChange {
    /// The colors, in the order in which they are shown.
    pub colors: ArrayVec<Color, 6>,
    /// Speed of the change.
    pub speed: EffectPercent,
    /// Whether a color fades into the next.
    pub fade: bool,
    /// Whether the next color is chosen at random.
    pub random_color: bool,
    /// Whether the colors slide in.
    pub slide_colors: bool,
    /// Mapping of the signal onto the speed, if there is one.
    pub source_control_speed: Option<SourceControl>,
    /// Mapping of the signal onto the brightness, if there is one.
    pub source_control_brightness: Option<SourceControl>,
}

/// The mathematical content of an [`EffectColorChange`].
pub ghost struct EffectColorChangeModel {
    /// See [`EffectColorChange::colors`].
    pub colors: Seq<Color>,
    /// See [`EffectColorChange::speed`].
    pub speed: EffectPercent,
    /// See [`EffectColorChange::fade`].
    pub fade: bool,
    /// See [`EffectColorChange::random_color`].
    pub random_color: bool,
    /// See [`EffectColorChange::slide_colors`].
    pub slide_colors: bool,
    /// See [`EffectColorChange::source_control_speed`].
    pub source_control_speed: Option<SourceControl>,
    /// See [`EffectColorChange::source_control_brightness`].
    pub source_control_brightness: Option<SourceControl>,
}

impl View for EffectColorChange {
    type V = EffectColorChangeModel;

    open spec fn view(&self) -> EffectColorChangeModel {
        EffectColorChangeModel {
            colors: colors6(self.colors),
            speed: self.speed,
            fade: self.fade,
            random_color: self.random_color,
            slide_colors: self.slide_colors,
            source_control_speed: self.source_control_speed,
            source_control_brightness: self.source_control_brightness,
        }
    }
}

/// The body holds the two source controls, the speed, the number of colors,
/// 20 reserved bytes and six color slots, of which the number of colors says
/// how many are in use.
impl EffectBody for EffectColorChange {
    type Model = EffectColorChangeModel;

    open spec fn model(&self) -> EffectColorChangeModel {
        self@
    }

    open spec fn failure(stream: Seq<u8>, at: int, flags: u16, keep: bool) -> Option<Failure> {
        reserved(stream, at, 12).otherwise(
            EffectPercent::failure(stream, at + 12, keep),
        ).otherwise(
            reserved(stream, at + 14, 46),
        )
    }

    open spec fn value(stream: Seq<u8>, at: int, flags: u16) -> EffectColorChangeModel {
        EffectColorChangeModel {
            colors: colors_at(
                stream,
                at + 36,
                at_most(be_u16(stream[at + 14], stream[at + 15]) as int, 6),
            ),
            speed: EffectPercent::value(stream, at + 12),
            fade: has_flag(flags, 0x04),
            random_color: has_flag(flags, 0x08),
            slide_colors: has_flag(flags, 0x10),
            source_control_speed: source_control_at(stream, at, has_flag(flags, 0x4000)),
            source_control_brightness: source_control_at(stream, at + 6, has_flag(flags, 0x8000)),
        }
    }

    proof fn lemma_skip_parity(stream: Seq<u8>, at: int, flags: u16) {
    }

    fn decode<R: Reader>(reader: &mut R, flags: u16) -> (res: Result<GuardOutput<Self>, Error>) {
        let ghost stream = reader.cursor().stream;
        let ghost at = reader.cursor().at();
        let source_control_speed = SourceControl::decode_opt(reader, flag_set(flags, 0x4000))?;
        let source_control_brightness = SourceControl::decode_opt(reader, flag_set(flags, 0x8000))?;
        let speed = EffectPercent::decode(reader)?;
        let color_count = reader.read_u16be()? as usize;
        reader.skip::<20>()?;
        let colors = decode_colors::<R, 6>(reader)?;
        match R::guard() {
            Some(x) => {
                let colors = x.extract(colors);
                let used = take_colors(&colors, 0, color_count);
                let effect = EffectColorChange {
                    colors: collect_colors6(used),
                    speed: x.extract(speed),
                    fade: flag_set(flags, 0x04),
                    random_color: flag_set(flags, 0x08),
                    slide_colors: flag_set(flags, 0x10),
                    source_control_speed: x.extract(source_control_speed),
                    source_control_brightness: x.extract(source_control_brightness),
                };
                proof {
                    assert(used@ =~= Self::value(stream, at, flags).colors);
                }
                Ok(GuardOutput::Value(effect))
            },
            None => Ok(GuardOutput::Skipped),
        }
    }
}

/// Colors that run over a background one after another.
#[derive(Debug, Clone, PartialEq, Eq)]
pub struct EffectSequence {
    /// Color behind the sequence.
    pub background: Color,
    /// Colors of the sequence.
    pub colors: ArrayVec<Color, 5>,
    /// Speed of the sequence.
    pub speed: EffectPercent,
    /// Softness of the change from color to color.
    pub smoothness: EffectPercent,
    /// Pause after the sequence.
    pub delay_after_sequence: EffectDelay,
    /// Pause before the sequence.
    pub delay_before_sequence: EffectDelay,
    /// Whether the sequence runs backwards.
    pub reverse_direction: bool,
    /// Whether a color fades into the next.
    pub fade: bool,
    /// Whether the colors are chosen at random.
    pub random_color: bool,
    /// Mapping of the signal onto the speed, if there is one.
    pub source_control_speed: Option<SourceControl>,
    /// Mapping of the signal onto the brightness, if there is one.
    pub source_control_brightness: Option<SourceControl>,
}

/// The mathematical content of an [`EffectSequence`].
pub ghost struct EffectSequenceModel {
    /// See [`EffectSequence::background`].
    pub background: Color,
    /// See [`EffectSequence::colors`].
    pub colors: Seq<Color>,
    /// See [`EffectSequence::speed`].
    pub speed: EffectPercent,
    /// See [`EffectSequence::smoothness`].
    pub smoothness: EffectPercent,
    /// See [`EffectSequence::delay_after_sequence`].
    pub delay_after_sequence: EffectDelay,
    /// See [`EffectSequence::delay_before_sequence`].
    pub delay_before_sequence: EffectDelay,
    /// See [`EffectSequence::reverse_direction`].
    pub reverse_direction: bool,
    /// See [`EffectSequence::fade`].
    pub fade: bool,
    /// See [`EffectSequence::random_color`].
    pub random_color: bool,
    /// See [`EffectSequence::source_control_speed`].
    pub source_control_speed: Option<SourceControl>,
    /// See [`EffectSequence::source_control_brightness`].
    pub source_control_brightness: Option<SourceControl>,
}

impl View for EffectSequence {
    type V = EffectSequenceModel;

    open spec fn view(&self) -> EffectSequenceModel {
        EffectSequenceModel {
            background: self.background,
            colors: colors5(self.colors),
            speed: self.speed,
            smoothness: self.smoothness,
            delay_after_sequence: self.delay_after_sequence,
            delay_before_sequence: self.delay_before_sequence,
            reverse_direction: self.reverse_direction,
            fade: self.fade,
            random_color: self.random_color,
            source_control_speed: self.source_control_speed,
            source_control_brightness: self.source_control_brightness,
        }
    }
}

/// The body holds the two source controls, the speed, the smoothness, the
/// number of colors, the two delays, 14 reserved bytes and six color slots:
/// the background, then up to five colors, of which the number of colors
/// says how many are in use.
impl EffectBody for EffectSequence {
    type Model = EffectSequenceModel;

    open spec fn model(&self) -> EffectSequenceModel {
        self@
    }

    open spec fn failure(stream: Seq<u8>, at: int, flags: u16, keep: bool) -> Option<Failure> {
        reserved(stream, at, 12).otherwise(
            EffectPercent::failure(stream, at + 12, keep),
        ).otherwise(
            EffectPercent::failure(stream, at + 14, keep),
        ).otherwise(
            reserved(stream, at + 16, 2),
        ).otherwise(
            EffectDelay::failure(stream, at + 18, keep),
        ).otherwise(
            EffectDelay::failure(stream, at + 20, keep),
        ).otherwise(
            reserved(stream, at + 22, 38),
        )
    }

    open spec fn value(stream: Seq<u8>, at: int, flags: u16) -> EffectSequenceModel {
        EffectSequenceModel {
            background: Color::value(stream, at + 36),
            colors: colors_at(
                stream,
                at + 40,
                at_most(be_u16(stream[at + 16], stream[at + 17]) as int, 5),
            ),
            speed: EffectPercent::value(stream, at + 12),
            smoothness: EffectPercent::value(stream, at + 14),
            delay_after_sequence: EffectDelay::value(stream, at + 18),
            delay_before_sequence: EffectDelay::value(stream, at + 20),
            reverse_direction: has_flag(flags, 0x02),
            fade: has_flag(flags, 0x04),
            random_color: has_flag(flags, 0x08),
            source_control_speed: source_control_at(stream, at, has_flag(flags, 0x4000)),
            source_control_brightness: source_control_at(stream, at + 6, has_flag(flags, 0x8000)),
        }
    }

    proof fn lemma_skip_parity(stream: Seq<u8>, at: int, flags: u16) {
    }

    fn decode<R: Reader>(reader: &mut R, flags: u16) -> (res: Result<GuardOutput<Self>, Error>) {
        let ghost stream = reader.cursor().stream;
        let ghost at = reader.cursor().at();
        let source_control_speed = SourceControl::decode_opt(reader, flag_set(flags, 0x4000))?;
        let source_control_brightness = SourceControl::decode_opt(reader, flag_set(flags, 0x8000))?;
        let speed = EffectPercent::decode(reader)?;
        let smoothness = EffectPercent::decode(reader)?;
        let color_count = reader.read_u16be()? as usize;
        let delay_after_sequence = EffectDelay::decode(reader)?;
        let delay_before_sequence = EffectDelay::decode(reader)?;
        reader.skip::<14>()?;
        let colors = decode_colors::<R, 6>(reader)?;
        match R::guard() {
            Some(x) => {
                let colors = x.extract(colors);
                let used = take_colors(&colors, 1, color_count);
                let effect = EffectSequence {
                    background: colors[0],
                    colors: collect_colors5(used),
                    speed: x.extract(speed),
                    smoothness: x.extract(smoothness),
                    delay_after_sequence: x.extract(delay_after_sequence),
                    delay_before_sequence: x.extract(delay_before_sequence),
                    reverse_direction: flag_set(flags, 0x02),
                    fade: flag_set(flags, 0x04),
                    random_color: flag_set(flags, 0x08),
                    source_control_speed: x.extract(source_control_speed),
                    source_control_brightness: x.extract(source_control_brightness),
                };
                proof {
                    assert(used@ =~= Self::value(stream, at, flags).colors);
                }
                Ok(GuardOutput::Value(effect))
            },
            None => Ok(GuardOutput::Skipped),
        }
    }
}

/// Waves of colors that move over a background.
#[derive(Debug, Clone, PartialEq, Eq)]
pub struct EffectWave {
    /// Color behind the waves.
    pub background: Color,
    /// Colors of the waves.
    pub colors: ArrayVec<Color, 5>,
    /// Speed of the waves.
    pub speed: EffectPercent,
    /// Softness of the change from color to color.
    pub smoothness: EffectPercent,
    /// Width of a wave.
    pub width: EffectWidth,
    /// Whether the waves move backwards.
    pub reverse_direction: bool,
    /// Whether the colors are chosen at random.
    pub random_color: bool,
    /// Whether the waves go round in a circle.
    pub circular: bool,
    /// Mapping of the signal onto the speed, if there is one.
    pub source_control_speed: Option<SourceControl>,
    /// Mapping of the signal onto the brightness, if there is one.
    pub source_control_brightness: Option<SourceControl>,
}

/// The mathematical content of an [`EffectWave`].
pub ghost struct EffectWaveModel {
    /// See [`EffectWave::background`].
    pub background: Color,
    /// See [`EffectWave::colors`].
    pub colors: Seq<Color>,
    /// See [`EffectWave::speed`].
    pub speed: EffectPercent,
    /// See [`EffectWave::smoothness`].
    pub smoothness: EffectPercent,
    /// See [`EffectWave::width`].
    pub width: EffectWidth,
    /// See [`EffectWave::reverse_direction`].
    pub reverse_direction: bool,
    /// See [`EffectWave::random_color`].
    pub random_color: bool,
    /// See [`EffectWave::circular`].
    pub circular: bool,
    /// See [`EffectWave::source_control_speed`].
    pub source_control_speed: Option<SourceControl>,
    /// See [`EffectWave::source_control_brightness`].
    pub source_control_brightness: Option<SourceControl>,
}

impl View for EffectWave {
    type V = EffectWaveModel;

    open spec fn view(&self) -> EffectWaveModel {
        EffectWaveModel {
            background: self.background,
            colors: colors5(self.colors),
            speed: self.speed,
            smoothness: self.smoothness,
            width: self.width,
            reverse_direction: self.reverse_direction,
            random_color: self.random_color,
            circular: self.circular,
            source_control_speed: self.source_control_speed,
            source_control_brightness: self.source_control_brightness,
        }
    }
}

/// The body holds the two source controls, the speed, the smoothness, the
/// width, the number of colors, 16 reserved bytes and six color slots: the
/// background, then up to five colors, of which the number of colors says
/// how many are in use.
impl EffectBody for EffectWave {
    type Model = EffectWaveModel;

    open spec fn model(&self) -> EffectWaveModel {
        self@
    }

    open spec fn failure(stream: Seq<u8>, at: int, flags: u16, keep: bool) -> Option<Failure> {
        reserved(stream, at, 12).otherwise(
            EffectPercent::failure(stream, at + 12, keep),
        ).otherwise(
            EffectPercent::failure(stream, at + 14, keep),
        ).otherwise(
            EffectWidth::failure(stream, at + 16, keep),
        ).otherwise(
            reserved(stream, at + 18, 42),
        )
    }

    open spec fn value(stream: Seq<u8>, at: int, flags: u16) -> EffectWaveModel {
        EffectWaveModel {
            background: Color::value(stream, at + 36),
            colors: colors_at(
                stream,
                at + 40,
                at_most(be_u16(stream[at + 18], stream[at + 19]) as int, 5),
            ),
            speed: EffectPercent::value(stream, at + 12),
            smoothness: EffectPercent::value(stream, at + 14),
            width: EffectWidth::value(stream, at + 16),
            reverse_direction: has_flag(flags, 0x02),
            random_color: has_flag(flags, 0x04),
            circular: has_flag(flags, 0x80),
            source_control_speed: source_control_at(stream, at, has_flag(flags, 0x4000)),
            source_control_brightness: source_control_at(stream, at + 6, has_flag(flags, 0x8000)),
        }
    }

    proof fn lemma_skip_parity(stream: Seq<u8>, at: int, flags: u16) {
    }

    fn decode<R: Reader>(reader: &mut R, flags: u16) -> (res: Result<GuardOutput<Self>, Error>) {
        let ghost stream = reader.cursor().stream;
        let ghost at = reader.cursor().at();
        let source_control_speed = SourceControl::decode_opt(reader, flag_set(flags, 0x4000))?;
        let source_control_brightness = SourceControl::decode_opt(reader, flag_set(flags, 0x8000))?;
        let speed = EffectPercent::decode(reader)?;
        let smoothness = EffectPercent::decode(reader)?;
        let width = EffectWidth::decode(reader)?;
        let color_count = reader.read_u16be()? as usize;
        reader.skip::<16>()?;
        let colors = decode_colors::<R, 6>(reader)?;
        match R::guard() {
            Some(x) => {
                let colors = x.extract(colors);
                let used = take_colors(&colors, 1, color_count);
                let effect = EffectWave {
                    background: colors[0],
                    colors: collect_colors5(used),
                    speed: x.extract(speed),
                    smoothness: x.extract(smoothness),
                    width: x.extract(width),
                    reverse_direction: flag_set(flags, 0x02),
                    random_color: flag_set(flags, 0x04),
                    circular: flag_set(flags, 0x80),
                    source_control_speed: x.extract(source_control_speed),
                    source_control_brightness: x.extract(source_control_brightness),
                };
                proof {
                    assert(used@ =~= Self::value(stream, at, flags).colors);
                }
                Ok(GuardOutput::Value(effect))
            },
            None => Ok(GuardOutput::Skipped),
        }
    }
}

/// Colors that move through the LEDs one after another.
#[derive(Debug, Clone, PartialEq, Eq)]
pub struct EffectColorSequence {
    /// The colors, in the order in which they are shown.
    pub colors: ArrayVec<Color, 6>,
    /// Speed of the movement.
    pub speed: EffectPercent,
    /// Softness of the change from color to color.
    pub smoothness: EffectPercent,
    /// Speed at which the colors change.
    pub color_change_speed: EffectWidth,
    /// Whether the colors move backwards.
    pub reverse_direction: bool,
    /// Whether the colors are chosen at random.
    pub random_color: bool,
    /// Mapping of the signal onto the speed, if there is one.
    pub source_control_speed: Option<SourceControl>,
    /// Mapping of the signal onto the brightness, if there is one.
    pub source_control_brightness: Option<SourceControl>,
}

/// The mathematical content of an [`EffectColorSequence`].
pub ghost struct EffectColorSequenceModel {
    /// See [`EffectColorSequence::colors`].
    pub colors: Seq<Color>,
    /// See [`EffectColorSequence::speed`].
    pub speed: EffectPercent,
    /// See [`EffectColorSequence::smoothness`].
    pub smoothness: EffectPercent,
    /// See [`EffectColorSequence::color_change_speed`].
    pub color_change_speed: EffectWidth,
    /// See [`EffectColorSequence::reverse_direction`].
    pub reverse_direction: bool,
    /// See [`EffectColorSequence::random_color`].
    pub random_color: bool,
    /// See [`EffectColorSequence::source_control_speed`].
    pub source_control_speed: Option<SourceControl>,
    /// See [`EffectColorSequence::source_control_brightness`].
    pub source_control_brightness: Option<SourceControl>,
}

impl View for EffectColorSequence {
    type V = EffectColorSequenceModel;

    open spec fn view(&self) -> EffectColorSequenceModel {
        EffectColorSequenceModel {
            colors: colors6(self.colors),
            speed: self.speed,
            smoothness: self.smoothness,
            color_change_speed: self.color_change_speed,
            reverse_direction: self.reverse_direction,
            random_color: self.random_color,
            source_control_speed: self.source_control_speed,
            source_control_brightness: self.source_control_brightness,
        }
    }
}

/// The body holds the two source controls, the speed, the smoothness, two
/// reserved bytes, the number of colors, the speed of the color change, 14
/// reserved bytes and six color slots, of which the number of colors says
/// how many are in use.
impl EffectBody for EffectColorSequence {
    type Model = EffectColorSequenceModel;

    open spec fn model(&self) -> EffectColorSequenceModel {
        self@
    }

    open spec fn failure(stream: Seq<u8>, at: int, flags: u16, keep: bool) -> Option<Failure> {
        reserved(stream, at, 12).otherwise(
            EffectPercent::failure(stream, at + 12, keep),
        ).otherwise(
            EffectPercent::failure(stream, at + 14, keep),
        ).otherwise(
            reserved(stream, at + 16, 4),
        ).otherwise(
            EffectWidth::failure(stream, at + 20, keep),
        ).otherwise(
            reserved(stream, at + 22, 38),
        )
    }

    open spec fn value(stream: Seq<u8>, at: int, flags: u16) -> EffectColorSequenceModel {
        EffectColorSequenceModel {
            colors: colors_at(
                stream,
                at + 36,
                at_most(be_u16(stream[at + 18], stream[at + 19]) as int, 6),
            ),
            speed: EffectPercent::value(stream, at + 12),
            smoothness: EffectPercent::value(stream, at + 14),
            color_change_speed: EffectWidth::value(stream, at + 20),
            reverse_direction: has_flag(flags, 0x02),
            random_color: has_flag(flags, 0x08),
            source_control_speed: source_control_at(stream, at, has_flag(flags, 0x4000)),
            source_control_brightness: source_control_at(stream, at + 6, has_flag(flags, 0x8000)),
        }
    }

    proof fn lemma_skip_parity(stream: Seq<u8>, at: int, flags: u16) {
    }

    fn decode<R: Reader>(reader: &mut R, flags: u16) -> (res: Result<GuardOutput<Self>, Error>) {
        let ghost stream = reader.cursor().stream;
        let ghost at = reader.cursor().at();
        let source_control_speed = SourceControl::decode_opt(reader, flag_set(flags, 0x4000))?;
        let source_control_brightness = SourceControl::decode_opt(reader, flag_set(flags, 0x8000))?;
        let speed = EffectPercent::decode(reader)?;
        let smoothness = EffectPercent::decode(reader)?;
        reader.skip::<2>()?;
        let color_count = reader.read_u16be()? as usize;
        let color_change_speed = EffectWidth::decode(reader)?;
        reader.skip::<14>()?;
        let colors = decode_colors::<R, 6>(reader)?;
        match R::guard() {
            Some(x) => {
                let colors = x.extract(colors);
                let used = take_colors(&colors, 0, color_count);
                let effect = EffectColorSequence {
                    colors: collect_colors6(used),
                    speed: x.extract(speed),
                    smoothness: x.extract(smoothness),
                    color_change_speed: x.extract(color_change_speed),
                    reverse_direction: flag_set(flags, 0x02),
                    random_color: flag_set(flags, 0x08),
                    source_control_speed: x.extract(source_control_speed),
                    source_control_brightness: x.extract(source_control_brightness),
                };
                proof {
                    assert(used@ =~= Self::value(stream, at, flags).colors);
                }
                Ok(GuardOutput::Value(effect))
            },
            None => Ok(GuardOutput::Skipped),
        }
    }
}

/// The ranges of a bar graph: `n` colors from index `colors` of `stream`, each
/// with the value at which its range begins and with its own flag. The first
/// range begins at `first`, the others at the numbers from index `values` on;
/// the flag of the first range is the bit `low` of `flags`, those of the
/// others are the bits above it.
pub open spec fn ranges_at(
    stream: Seq<u8>,
    colors: int,
    first: u16,
    values: int,
    flags: u16,
    low: int,
    n: int,
) -> Seq<(Color, u16, bool)> {
    Seq::new(
        n as nat,
        |i: int|
            (
                Color::value(stream, colors + 4 * i),
                if i == 0 {
                    first
                } else {
                    u16::value(stream, values + 2 * (i - 1))
                },
                has_flag(flags, bit(low + i)),
            ),
    )
}

/// A bar whose length shows a value. The sound bars effect has the same values.
#[derive(Debug, Clone, PartialEq, Eq)]
#[allow(clippy::struct_excessive_bools)]
pub struct EffectBarGraph {
    /// Color where the bar is not.
    pub background: Color,
    /// Color of the mark at the peak.
    pub peak_color: Color,
    /// The ranges of the bar: the color of each, the value at which it begins,
    /// and whether it blinks.
    pub colors: ArrayVec<(Color, u16, bool), 4>,
    /// The value at which the bar is full.
    pub end_value: u16,
    /// Speed at which the bar turns.
    pub rotation: EffectPercent,
    /// Time for which the peak stays marked.
    pub peak_hold_time: EffectPercent,
    /// Whether the bar grows backwards.
    pub reverse_direction: bool,
    /// Whether the peak is marked.
    pub show_peak: bool,
    /// Whether the bar is shown.
    pub show_bar: bool,
    /// Whether the ranges are shown.
    pub show_ranges: bool,
    /// Whether a range fades into the next.
    pub fade_ranges: bool,
    /// Mapping of the signal onto the rotation, if there is one.
    pub source_control_rotation: Option<SourceControl>,
}

/// The mathematical content of an [`EffectBarGraph`].
pub ghost struct EffectBarGraphModel {
    /// See [`EffectBarGraph::background`].
    pub background: Color,
    /// See [`EffectBarGraph::peak_color`].
    pub peak_color: Color,
    /// See [`EffectBarGraph::colors`].
    pub colors: Seq<(Color, u16, bool)>,
    /// See [`EffectBarGraph::end_value`].
    pub end_value: u16,
    /// See [`EffectBarGraph::rotation`].
    pub rotation: EffectPercent,
    /// See [`EffectBarGraph::peak_hold_time`].
    pub peak_hold_time: EffectPercent,
    /// See [`EffectBarGraph::reverse_direction`].
    pub reverse_direction: bool,
    /// See [`EffectBarGraph::show_peak`].
    pub show_peak: bool,
    /// See [`EffectBarGraph::show_bar`].
    pub show_bar: bool,
    /// See [`EffectBarGraph::show_ranges`].
    pub show_ranges: bool,
    /// See [`EffectBarGraph::fade_ranges`].
    pub fade_ranges: bool,
    /// See [`EffectBarGraph::source_control_rotation`].
    pub source_control_rotation: Option<SourceControl>,
}

impl View for EffectBarGraph {
    type V = EffectBarGraphModel;

    open spec fn view(&self) -> EffectBarGraphModel {
        EffectBarGraphModel {
            background: self.background,
            peak_color: self.peak_color,
            colors: ranges4(self.colors),
            end_value: self.end_value,
            rotation: self.rotation,
            peak_hold_time: self.peak_hold_time,
            reverse_direction: self.reverse_direction,
            show_peak: self.show_peak,
            show_bar: self.show_bar,
            show_ranges: self.show_ranges,
            fade_ranges: self.fade_ranges,
            source_control_rotation: self.source_control_rotation,
        }
    }
}

/// The body holds the source control of the rotation, an unused source
/// control, the start and the end value, the rotation, the number of colors,
/// three values at which a range begins, the peak hold time, eight reserved
/// bytes, the background, the peak color and four color slots. One range more
/// than the number of colors says is in use, and the bits 7 to 10 of the
/// flags say which ranges blink.
impl EffectBody for EffectBarGraph {
    type Model = EffectBarGraphModel;

    open spec fn model(&self) -> EffectBarGraphModel {
        self@
    }

    open spec fn failure(stream: Seq<u8>, at: int, flags: u16, keep: bool) -> Option<Failure> {
        reserved(stream, at, 16).otherwise(
            EffectPercent::failure(stream, at + 16, keep),
        ).otherwise(
            reserved(stream, at + 18, 8),
        ).otherwise(
            EffectPercent::failure(stream, at + 26, keep),
        ).otherwise(
            reserved(stream, at + 28, 32),
        )
    }

    open spec fn value(stream: Seq<u8>, at: int, flags: u16) -> EffectBarGraphModel {
        EffectBarGraphModel {
            background: Color::value(stream, at + 36),
            peak_color: Color::value(stream, at + 40),
            colors: ranges_at(
                stream,
                at + 44,
                be_u16(stream[at + 12], stream[at + 13]),
                at + 20,
                flags,
                7,
                at_most(be_u16(stream[at + 18], stream[at + 19]) + 1, 4),
            ),
            end_value: be_u16(stream[at + 14], stream[at + 15]),
            rotation: EffectPercent::value(stream, at + 16),
            peak_hold_time: EffectPercent::value(stream, at + 26),
            reverse_direction: has_flag(flags, 0x08),
            show_peak: has_flag(flags, 0x20),
            show_bar: has_flag(flags, 0x02),
            show_ranges: has_flag(flags, 0x04),
            fade_ranges: has_flag(flags, 0x01),
            source_control_rotation: source_control_at(stream, at, has_flag(flags, 0x4000)),
        }
    }

    proof fn lemma_skip_parity(stream: Seq<u8>, at: int, flags: u16) {
    }

    fn decode<R: Reader>(reader: &mut R, flags: u16) -> (res: Result<GuardOutput<Self>, Error>) {
        let ghost stream = reader.cursor().stream;
        let ghost at = reader.cursor().at();
        let source_control_rotation = SourceControl::decode_opt(reader, flag_set(flags, 0x4000))?;
        SourceControl::skip_bytes(reader)?;
        let start_value = reader.read_u16be()?;
        let end_value = reader.read_u16be()?;
        let rotation = EffectPercent::decode(reader)?;
        let color_count = reader.read_u16be()? as usize;
        let color_values = decode_numbers::<R, 3>(reader)?;
        let peak_hold_time = EffectPercent::decode(reader)?;
        reader.skip::<8>()?;
        let background = Color::decode(reader)?;
        let peak_color = Color::decode(reader)?;
        let colors = decode_colors::<R, 4>(reader)?;
        match R::guard() {
            Some(x) => {
                let colors = x.extract(colors);
                let color_values = x.extract(color_values);
                let mut ranges: Vec<(Color, u16, bool)> = Vec::new();
                let mut i: usize = 0;
                while i < 4 && i <= color_count
                    invariant
                        i <= 4,
                        i <= color_count + 1,
                        color_count <= 0xFFFF,
                        colors@ == colors_at(stream, at + 44, 4),
                        color_values@ == numbers_at(stream, at + 20, 3),
                        ranges@ == ranges_at(
                            stream,
                            at + 44,
                            start_value,
                            at + 20,
                            flags,
                            7,
                            i as int,
                        ),
                    decreases 4 - i,
                {
                    let value = if i == 0 {
                        start_value
                    } else {
                        color_values[i - 1]
                    };
                    ranges.push((colors[i], value, flag_set(flags, flag_bit(i + 7))));
                    i = i + 1;
                }
                let effect = EffectBarGraph {
                    background: x.extract(background),
                    peak_color: x.extract(peak_color),
                    colors: collect_ranges4(ranges),
                    end_value: end_value,
                    rotation: x.extract(rotation),
                    peak_hold_time: x.extract(peak_hold_time),
                    reverse_direction: flag_set(flags, 0x08),
                    show_peak: flag_set(flags, 0x20),
                    show_bar: flag_set(flags, 0x02),
                    show_ranges: flag_set(flags, 0x04),
                    fade_ranges: flag_set(flags, 0x01),
                    source_control_rotation: x.extract(source_control_rotation),
                };
                Ok(GuardOutput::Value(effect))
            },
            None => Ok(GuardOutput::Skipped),
        }
    }
}

/// The ranges of a color switch: `n` colors from index `colors` of `stream`,
/// each with the number at the same place from index `values` on, and with
/// its own flag: the bit `low` of `flags` for the first range, the bits above
/// it for the others.
pub open spec fn switches_at(
    stream: Seq<u8>,
    colors: int,
    values: int,
    flags: u16,
    low: int,
    n: int,
) -> Seq<(Color, u16, bool)> {
    Seq::new(
        n as nat,
        |i: int|
            (
                Color::value(stream, colors + 4 * i),
                u16::value(stream, values + 2 * i),
                has_flag(flags, bit(low + i)),
            ),
    )
}

/// A color that is chosen by a value.
#[derive(Debug, Clone, PartialEq, Eq)]
pub struct EffectColorSwitch {
    /// The ranges: the color of each, the value at which it begins, and
    /// whether it blinks.
    pub colors: ArrayVec<(Color, u16, bool), 6>,
    /// The value at which the last range ends.
    pub end_value: u16,
    /// Whether a range fades into the next.
    pub fade_ranges: bool,
    /// Mapping of the signal onto the brightness, if there is one.
    pub source_control_brightness: Option<SourceControl>,
}

/// The mathematical content of an [`EffectColorSwitch`].
pub ghost struct EffectColorSwitchModel {
    /// See [`EffectColorSwitch::colors`].
    pub colors: Seq<(Color, u16, bool)>,
    /// See [`EffectColorSwitch::end_value`].
    pub end_value: u16,
    /// See [`EffectColorSwitch::fade_ranges`].
    pub fade_ranges: bool,
    /// See [`EffectColorSwitch::source_control_brightness`].
    pub source_control_brightness: Option<SourceControl>,
}

impl View for EffectColorSwitch {
    type V = EffectColorSwitchModel;

    open spec fn view(&self) -> EffectColorSwitchModel {
        EffectColorSwitchModel {
            colors: ranges6(self.colors),
            end_value: self.end_value,
            fade_ranges: self.fade_ranges,
            source_control_brightness: self.source_control_brightness,
        }
    }
}

/// The body holds the source control of the brightness, which the flag
/// `0x8000` says to be present, an unused source control, the number of
/// colors, six values at which a range begins, the end value, eight reserved
/// bytes and six color slots. One range more than the number of colors says
/// is in use, and the bits 1 to 6 of the flags say which ranges blink.
impl EffectBody for EffectColorSwitch {
    type Model = EffectColorSwitchModel;

    open spec fn model(&self) -> EffectColorSwitchModel {
        self@
    }

    open spec fn failure(stream: Seq<u8>, at: int, flags: u16, keep: bool) -> Option<Failure> {
        reserved(stream, at, 60)
    }

    open spec fn value(stream: Seq<u8>, at: int, flags: u16) -> EffectColorSwitchModel {
        EffectColorSwitchModel {
            colors: switches_at(
                stream,
                at + 36,
                at + 14,
                flags,
                1,
                at_most(be_u16(stream[at + 12], stream[at + 13]) + 1, 6),
            ),
            end_value: be_u16(stream[at + 26], stream[at + 27]),
            fade_ranges: has_flag(flags, 0x01),
            source_control_brightness: source_control_at(stream, at, has_flag(flags, 0x8000)),
        }
    }

    proof fn lemma_skip_parity(stream: Seq<u8>, at: int, flags: u16) {
    }

    fn decode<R: Reader>(reader: &mut R, flags: u16) -> (res: Result<GuardOutput<Self>, Error>) {
        let ghost stream = reader.cursor().stream;
        let ghost at = reader.cursor().at();
        let source_control_brightness = SourceControl::decode_opt(reader, flag_set(flags, 0x8000))?;
        SourceControl::skip_bytes(reader)?;
        let color_count = reader.read_u16be()? as usize;
        let values = decode_numbers::<R, 6>(reader)?;
        let end_value = reader.read_u16be()?;
        reader.skip::<8>()?;
        let colors = decode_colors::<R, 6>(reader)?;
        match R::guard() {
            Some(x) => {
                let colors = x.extract(colors);
                let values = x.extract(values);
                let mut ranges: Vec<(Color, u16, bool)> = Vec::new();
                let mut i: usize = 0;
                while i < 6 && i <= color_count
                    invariant
                        i <= 6,
                        i <= color_count + 1,
                        color_count <= 0xFFFF,
                        colors@ == colors_at(stream, at + 36, 6),
                        values@ == numbers_at(stream, at + 14, 6),
                        ranges@ == switches_at(stream, at + 36, at + 14, flags, 1, i as int),
                    decreases 6 - i,
                {
                    ranges.push((colors[i], values[i], flag_set(flags, flag_bit(i + 1))));
                    i = i + 1;
                }
                let effect = EffectColorSwitch {
                    colors: collect_ranges6(ranges),
                    end_value: end_value,
                    fade_ranges: flag_set(flags, 0x01),
                    source_control_brightness: x.extract(source_control_brightness),
                };
                Ok(GuardOutput::Value(effect))
            },
            None => Ok(GuardOutput::Skipped),
        }
    }
}

/// The stops of a gradient: `n` colors from index `colors` of `stream`, each
/// with the number at the same place from index `values` on.
pub open spec fn stops_at(stream: Seq<u8>, colors: int, values: int, n: int) -> Seq<(Color, u16)> {
    Seq::new(
        n as nat,
        |i: int| (Color::value(stream, colors + 4 * i), u16::value(stream, values + 2 * i)),
    )
}

/// Colors that run into one another.
#[derive(Debug, Clone, PartialEq, Eq)]
pub struct EffectColorGradient {
    /// Color at the start of the gradient.
    pub start_color: Color,
    /// The stops after the start: the color of each and its place.
    pub colors: ArrayVec<(Color, u16), 3>,
    /// Speed at which the gradient turns.
    pub rotation: EffectPercent,
    /// Whether the gradient runs backwards.
    pub reverse_direction: bool,
    /// Whether the gradient turns backwards.
    pub reverse_rotation: bool,
    /// Mapping of the signal onto the rotation, if there is one.
    pub source_control_rotation: Option<SourceControl>,
}

/// The mathematical content of an [`EffectColorGradient`].
pub ghost struct EffectColorGradientModel {
    /// See [`EffectColorGradient::start_color`].
    pub start_color: Color,
    /// See [`EffectColorGradient::colors`].
    pub colors: Seq<(Color, u16)>,
    /// See [`EffectColorGradient::rotation`].
    pub rotation: EffectPercent,
    /// See [`EffectColorGradient::reverse_direction`].
    pub reverse_direction: bool,
    /// See [`EffectColorGradient::reverse_rotation`].
    pub reverse_rotation: bool,
    /// See [`EffectColorGradient::source_control_rotation`].
    pub source_control_rotation: Option<SourceControl>,
}

impl View for EffectColorGradient {
    type V = EffectColorGradientModel;

    open spec fn view(&self) -> EffectColorGradientModel {
        EffectColorGradientModel {
            start_color: self.start_color,
            colors: stops3(self.colors),
            rotation: self.rotation,
            reverse_direction: self.reverse_direction,
            reverse_rotation: self.reverse_rotation,
            source_control_rotation: self.source_control_rotation,
        }
    }
}

/// The body holds the source control of the rotation, an unused source
/// control, four reserved bytes, the rotation, the number of colors, three
/// places of stops, ten reserved bytes, two unused color slots, the start
/// color and three color slots, of which the number of colors says how many
/// are in use.
impl EffectBody for EffectColorGradient {
    type Model = EffectColorGradientModel;

    open spec fn model(&self) -> EffectColorGradientModel {
        self@
    }

    open spec fn failure(stream: Seq<u8>, at: int, flags: u16, keep: bool) -> Option<Failure> {
        reserved(stream, at, 16).otherwise(
            EffectPercent::failure(stream, at + 16, keep),
        ).otherwise(
            reserved(stream, at + 18, 42),
        )
    }

    open spec fn value(stream: Seq<u8>, at: int, flags: u16) -> EffectColorGradientModel {
        EffectColorGradientModel {
            start_color: Color::value(stream, at + 44),
            colors: stops_at(
                stream,
                at + 48,
                at + 20,
                at_most(be_u16(stream[at + 18], stream[at + 19]) as int, 3),
            ),
            rotation: EffectPercent::value(stream, at + 16),
            reverse_direction: has_flag(flags, 0x08),
            reverse_rotation: has_flag(flags, 0x10),
            source_control_rotation: source_control_at(stream, at, has_flag(flags, 0x4000)),
        }
    }

    proof fn lemma_skip_parity(stream: Seq<u8>, at: int, flags: u16) {
    }

    fn decode<R: Reader>(reader: &mut R, flags: u16) -> (res: Result<GuardOutput<Self>, Error>) {
        let ghost stream = reader.cursor().stream;
        let ghost at = reader.cursor().at();
        let source_control_rotation = SourceControl::decode_opt(reader, flag_set(flags, 0x4000))?;
        SourceControl::skip_bytes(reader)?;
        reader.skip::<4>()?;
        let rotation = EffectPercent::decode(reader)?;
        let color_count = reader.read_u16be()? as usize;
        let values = decode_numbers::<R, 3>(reader)?;
        reader.skip::<10>()?;
        skip_colors::<R, 2>(reader)?;
        let start_color = Color::decode(reader)?;
        let colors = decode_colors::<R, 3>(reader)?;
        match R::guard() {
            Some(x) => {
                let colors = x.extract(colors);
                let values = x.extract(values);
                let mut stops: Vec<(Color, u16)> = Vec::new();
                let mut i: usize = 0;
                while i < 3 && i < color_count
                    invariant
                        i <= 3,
                        i <= color_count,
                        colors@ == colors_at(stream, at + 48, 3),
                        values@ == numbers_at(stream, at + 20, 3),
                        stops@ == stops_at(stream, at + 48, at + 20, i as int),
                    decreases 3 - i,
                {
                    stops.push((colors[i], values[i]));
                    i = i + 1;
                }
                let effect = EffectColorGradient {
                    start_color: x.extract(start_color),
                    colors: collect_stops3(stops),
                    rotation: x.extract(rotation),
                    reverse_direction: flag_set(flags, 0x08),
                    reverse_rotation: flag_set(flags, 0x10),
                    source_control_rotation: x.extract(source_control_rotation),
                };
                Ok(GuardOutput::Value(effect))
            },
            None => Ok(GuardOutput::Skipped),
        }
    }
}

} // verus!
