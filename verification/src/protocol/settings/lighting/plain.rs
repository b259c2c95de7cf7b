//! The effects whose values hold no lists.

use vstd::prelude::*;

use crate::misc::io::{flag_set, has_flag, reserved, Checks};
use crate::misc::{Decode, Error, Failure, Guard, GuardOutput, Reader};

use super::body::EffectBody;
use super::parts::{
    colors_at, decode_colors, skip_colors, source_control_at, Color, EffectDelay, EffectPercent,
    EffectWidth, RainItems, SoundEffect, SoundEffectSpeed, SourceControl,
};

verus! {

/// One color that does not change.
#[derive(Debug, Clone, Copy, PartialEq, Eq)]
pub struct EffectStatic {
    /// The color.
    pub color: Color,
    /// Mapping of the signal onto the brightness, if there is one.
    pub source_control_brightness: Option<SourceControl>,
    /// Mapping of the signal onto the saturation, if there is one.
    pub source_control_saturation: Option<SourceControl>,
}

/// The body holds the two source controls, 24 reserved bytes, the color and
/// five unused color slots.
impl EffectBody for EffectStatic {
    type Model = EffectStatic;

    open spec fn model(&self) -> EffectStatic {
        *self
    }

    open spec fn failure(stream: Seq<u8>, at: int, flags: u16, keep: bool) -> Option<Failure> {
        reserved(stream, at, 60)
    }

    open spec fn value(stream: Seq<u8>, at: int, flags: u16) -> EffectStatic {
        EffectStatic {
            color: Color::value(stream, at + 36),
            source_control_brightness: source_control_at(stream, at, has_flag(flags, 0x4000)),
            source_control_saturation: source_control_at(stream, at + 6, has_flag(flags, 0x8000)),
        }
    }

    proof fn lemma_skip_parity(stream: Seq<u8>, at: int, flags: u16) {
    }

    fn decode<R: Reader>(reader: &mut R, flags: u16) -> (res: Result<GuardOutput<Self>, Error>) {
        let source_control_brightness = SourceControl::decode_opt(reader, flag_set(flags, 0x4000))?;
        let source_control_saturation = SourceControl::decode_opt(reader, flag_set(flags, 0x8000))?;
        reader.skip::<24>()?;
        let color = Color::decode(reader)?;
        skip_colors::<R, 5>(reader)?;
        match R::guard() {
            Some(x) => Ok(
                GuardOutput::Value(
                    EffectStatic {
                        color: x.extract(color),
                        source_control_brightness: x.extract(source_control_brightness),
                        source_control_saturation: x.extract(source_control_saturation),
                    },
                ),
            ),
            None => Ok(GuardOutput::Skipped),
        }
    }
}

/// One color that fades in and out.
#[derive(Debug, Clone, Copy, PartialEq, Eq)]
pub struct EffectBreathing {
    /// The color.
    pub color: Color,
    /// Speed of the breathing.
    pub speed: EffectPercent,
    /// How far the brightness falls.
    pub intensity: EffectPercent,
    /// Time spent at the highest brightness.
    pub delay_max_brightness: EffectDelay,
    /// Time spent at the lowest brightness.
    pub delay_min_brightness: EffectDelay,
    /// Mapping of the signal onto the speed, if there is one.
    pub source_control_speed: Option<SourceControl>,
    /// Mapping of the signal onto the intensity, if there is one.
    pub source_control_intensity: Option<SourceControl>,
}

/// The body holds the two source controls, the four parameters, 16 reserved
/// bytes, the color and five unused color slots.
impl EffectBody for EffectBreathing {
    type Model = EffectBreathing;

    open spec fn model(&self) -> EffectBreathing {
        *self
    }

    open spec fn failure(stream: Seq<u8>, at: int, flags: u16, keep: bool) -> Option<Failure> {
        reserved(stream, at, 12).otherwise(
            EffectPercent::failure(stream, at + 12, keep),
        ).otherwise(
            EffectPercent::failure(stream, at + 14, keep),
        ).otherwise(
            EffectDelay::failure(stream, at + 16, keep),
        ).otherwise(
            EffectDelay::failure(stream, at + 18, keep),
        ).otherwise(
            reserved(stream, at + 20, 40),
        )
    }

    open spec fn value(stream: Seq<u8>, at: int, flags: u16) -> EffectBreathing {
        EffectBreathing {
            color: Color::value(stream, at + 36),
            speed: EffectPercent::value(stream, at + 12),
            intensity: EffectPercent::value(stream, at + 14),
            delay_max_brightness: EffectDelay::value(stream, at + 16),
            delay_min_brightness: EffectDelay::value(stream, at + 18),
            source_control_speed: source_control_at(stream, at, has_flag(flags, 0x4000)),
            source_control_intensity: source_control_at(stream, at + 6, has_flag(flags, 0x8000)),
        }
    }

    proof fn lemma_skip_parity(stream: Seq<u8>, at: int, flags: u16) {
    }

    fn decode<R: Reader>(reader: &mut R, flags: u16) -> (res: Result<GuardOutput<Self>, Error>) {
        let source_control_speed = SourceControl::decode_opt(reader, flag_set(flags, 0x4000))?;
        let source_control_intensity = SourceControl::decode_opt(reader, flag_set(flags, 0x8000))?;
        let speed = EffectPercent::decode(reader)?;
        let intensity = EffectPercent::decode(reader)?;
        let delay_max_brightness = EffectDelay::decode(reader)?;
        let delay_min_brightness = EffectDelay::decode(reader)?;
        reader.skip::<16>()?;
        let color = Color::decode(reader)?;
        skip_colors::<R, 5>(reader)?;
        match R::guard() {
            Some(x) => Ok(
                GuardOutput::Value(
                    EffectBreathing {
                        color: x.extract(color),
                        speed: x.extract(speed),
                        intensity: x.extract(intensity),
                        delay_max_brightness: x.extract(delay_max_brightness),
                        delay_min_brightness: x.extract(delay_min_brightness),
                        source_control_speed: x.extract(source_control_speed),
                        source_control_intensity: x.extract(source_control_intensity),
                    },
                ),
            ),
            None => Ok(GuardOutput::Skipped),
        }
    }
}

/// The colors of the rainbow, one after another.
#[derive(Debug, Clone, Copy, PartialEq, Eq)]
pub struct EffectRainbow {
    /// The color from which the effect starts.
    pub color: Color,
    /// Speed at which the colors change.
    pub speed: EffectPercent,
    /// Share of the color circle that is shown.
    pub color_range: EffectPercent,
    /// Whether the colors run backwards.
    pub reverse_direction: bool,
    /// Mapping of the signal onto the speed, if there is one.
    pub source_control_speed: Option<SourceControl>,
    /// Mapping of the signal onto the brightness, if there is one.
    pub source_control_brightness: Option<SourceControl>,
}

/// The body holds the two source controls, the two parameters, 20 reserved
/// bytes, the color and five unused color slots.
impl EffectBody for EffectRainbow {
    type Model = EffectRainbow;

    open spec fn model(&self) -> EffectRainbow {
        *self
    }

    open spec fn failure(stream: Seq<u8>, at: int, flags: u16, keep: bool) -> Option<Failure> {
        reserved(stream, at, 12).otherwise(
            EffectPercent::failure(stream, at + 12, keep),
        ).otherwise(
            EffectPercent::failure(stream, at + 14, keep),
        ).otherwise(
            reserved(stream, at + 16, 44),
        )
    }

    open spec fn value(stream: Seq<u8>, at: int, flags: u16) -> EffectRainbow {
        EffectRainbow {
            color: Color::value(stream, at + 36),
            speed: EffectPercent::value(stream, at + 12),
            color_range: EffectPercent::value(stream, at + 14),
            reverse_direction: has_flag(flags, 0x02),
            source_control_speed: source_control_at(stream, at, has_flag(flags, 0x4000)),
            source_control_brightness: source_control_at(stream, at + 6, has_flag(flags, 0x8000)),
        }
    }

    proof fn lemma_skip_parity(stream: Seq<u8>, at: int, flags: u16) {
    }

    fn decode<R: Reader>(reader: &mut R, flags: u16) -> (res: Result<GuardOutput<Self>, Error>) {
        let source_control_speed = SourceControl::decode_opt(reader, flag_set(flags, 0x4000))?;
        let source_control_brightness = SourceControl::decode_opt(reader, flag_set(flags, 0x8000))?;
        let speed = EffectPercent::decode(reader)?;
        let color_range = EffectPercent::decode(reader)?;
        reader.skip::<20>()?;
        let color = Color::decode(reader)?;
        skip_colors::<R, 5>(reader)?;
        match R::guard() {
            Some(x) => Ok(
                GuardOutput::Value(
                    EffectRainbow {
                        color: x.extract(color),
                        speed: x.extract(speed),
                        color_range: x.extract(color_range),
                        reverse_direction: flag_set(flags, 0x02),
                        source_control_speed: x.extract(source_control_speed),
                        source_control_brightness: x.extract(source_control_brightness),
                    },
                ),
            ),
            None => Ok(GuardOutput::Skipped),
        }
    }
}

/// A beam that moves over the LEDs. The laser effect has the same values.
#[derive(Debug, Clone, Copy, PartialEq, Eq)]
#[allow(clippy::struct_excessive_bools)]
pub struct EffectScanner {
    /// Color behind the beam.
    pub background: Color,
    /// Color of the edges of the beam.
    pub outer_color: Color,
    /// Color of the middle of the beam.
    pub inner_color: Color,
    /// Speed of the beam.
    pub speed: EffectPercent,
    /// Softness of the edges of the beam.
    pub smoothness: EffectPercent,
    /// Width of the beam.
    pub width: EffectWidth,
    /// Whether the beam runs backwards.
    pub reverse_direction: bool,
    /// Whether the beam fades at its edges.
    pub fade: bool,
    /// Whether the colors of the beam are chosen at random.
    pub random_color: bool,
    /// Whether the second color mode is on.
    pub second_color_mode: bool,
    /// Whether the colors change while the beam moves.
    pub color_change: bool,
    /// Whether the beam goes round in a circle.
    pub circular: bool,
    /// Mapping of the signal onto the speed, if there is one.
    pub source_control_speed: Option<SourceControl>,
    /// Mapping of the signal onto the brightness, if there is one.
    pub source_control_brightness: Option<SourceControl>,
}

/// The body holds the two source controls, the three parameters, 18 reserved
/// bytes, the background, the outer and the inner color, and three unused
/// color slots.
impl EffectBody for EffectScanner {
    type Model = EffectScanner;

    open spec fn model(&self) -> EffectScanner {
        *self
    }

    open spec fn failure(stream: Seq<u8>, at: int, flags: u16, keep: bool) -> Option<Failure> {
        reserved(stream, at, 12).otherwise(
            EffectPercent::failure(stream, at + 12, keep),
        ).otherwise(
            EffectPercent::failure(stream, at + 14, keep),
        ).otherwise(
            EffectWidth::failure(stream, at + 16, keep),
        ).otherwise(
            reserved(stream, at + 18, 42),
        )
    }

    open spec fn value(stream: Seq<u8>, at: int, flags: u16) -> EffectScanner {
        EffectScanner {
            background: Color::value(stream, at + 36),
            outer_color: Color::value(stream, at + 40),
            inner_color: Color::value(stream, at + 44),
            speed: EffectPercent::value(stream, at + 12),
            smoothness: EffectPercent::value(stream, at + 14),
            width: EffectWidth::value(stream, at + 16),
            reverse_direction: has_flag(flags, 0x02),
            fade: has_flag(flags, 0x04),
            random_color: has_flag(flags, 0x08),
            second_color_mode: has_flag(flags, 0x20),
            color_change: has_flag(flags, 0x40),
            circular: has_flag(flags, 0x80),
            source_control_speed: source_control_at(stream, at, has_flag(flags, 0x4000)),
            source_control_brightness: source_control_at(stream, at + 6, has_flag(flags, 0x8000)),
        }
    }

    proof fn lemma_skip_parity(stream: Seq<u8>, at: int, flags: u16) {
    }

    fn decode<R: Reader>(reader: &mut R, flags: u16) -> (res: Result<GuardOutput<Self>, Error>) {
        let source_control_speed = SourceControl::decode_opt(reader, flag_set(flags, 0x4000))?;
        let source_control_brightness = SourceControl::decode_opt(reader, flag_set(flags, 0x8000))?;
        let speed = EffectPercent::decode(reader)?;
        let smoothness = EffectPercent::decode(reader)?;
        let width = EffectWidth::decode(reader)?;
        reader.skip::<18>()?;
        let background = Color::decode(reader)?;
        let outer_color = Color::decode(reader)?;
        let inner_color = Color::decode(reader)?;
        skip_colors::<R, 3>(reader)?;
        match R::guard() {
            Some(x) => Ok(
                GuardOutput::Value(
                    EffectScanner {
                        background: x.extract(background),
                        outer_color: x.extract(outer_color),
                        inner_color: x.extract(inner_color),
                        speed: x.extract(speed),
                        smoothness: x.extract(smoothness),
                        width: x.extract(width),
                        reverse_direction: flag_set(flags, 0x02),
                        fade: flag_set(flags, 0x04),
                        random_color: flag_set(flags, 0x08),
                        second_color_mode: flag_set(flags, 0x20),
                        color_change: flag_set(flags, 0x40),
                        circular: flag_set(flags, 0x80),
                        source_control_speed: x.extract(source_control_speed),
                        source_control_brightness: x.extract(source_control_brightness),
                    },
                ),
            ),
            None => Ok(GuardOutput::Skipped),
        }
    }
}

/// Colors that move over an area.
#[derive(Debug, Clone, Copy, PartialEq, Eq)]
pub struct EffectColorShift {
    /// The color from which the effect starts.
    pub color: Color,
    /// Speed of the movement.
    pub speed: EffectPercent,
    /// Share of the color circle that is shown.
    pub color_range: EffectPercent,
    /// Width of the area.
    pub total_area: EffectWidth,
    /// Whether the colors move backwards.
    pub reverse_direction: bool,
    /// Mapping of the signal onto the speed, if there is one.
    pub source_control_speed: Option<SourceControl>,
    /// Mapping of the signal onto the brightness, if there is one.
    pub source_control_brightness: Option<SourceControl>,
}

/// The body holds the two source controls, the three parameters, 18 reserved
/// bytes, the color and five unused color slots.
impl EffectBody for EffectColorShift {
    type Model = EffectColorShift;

    open spec fn model(&self) -> EffectColorShift {
        *self
    }

    open spec fn failure(stream: Seq<u8>, at: int, flags: u16, keep: bool) -> Option<Failure> {
        reserved(stream, at, 12).otherwise(
            EffectPercent::failure(stream, at + 12, keep),
        ).otherwise(
            EffectPercent::failure(stream, at + 14, keep),
        ).otherwise(
            EffectWidth::failure(stream, at + 16, keep),
        ).otherwise(
            reserved(stream, at + 18, 42),
        )
    }

    open spec fn value(stream: Seq<u8>, at: int, flags: u16) -> EffectColorShift {
        EffectColorShift {
            color: Color::value(stream, at + 36),
            speed: EffectPercent::value(stream, at + 12),
            color_range: EffectPercent::value(stream, at + 14),
            total_area: EffectWidth::value(stream, at + 16),
            reverse_direction: has_flag(flags, 0x02),
            source_control_speed: source_control_at(stream, at, has_flag(flags, 0x4000)),
            source_control_brightness: source_control_at(stream, at + 6, has_flag(flags, 0x8000)),
        }
    }

    proof fn lemma_skip_parity(stream: Seq<u8>, at: int, flags: u16) {
    }

    fn decode<R: Reader>(reader: &mut R, flags: u16) -> (res: Result<GuardOutput<Self>, Error>) {
        let source_control_speed = SourceControl::decode_opt(reader, flag_set(flags, 0x4000))?;
        let source_control_brightness = SourceControl::decode_opt(reader, flag_set(flags, 0x8000))?;
        let speed = EffectPercent::decode(reader)?;
        let color_range = EffectPercent::decode(reader)?;
        let total_area = EffectWidth::decode(reader)?;
        reader.skip::<18>()?;
        let color = Color::decode(reader)?;
        skip_colors::<R, 5>(reader)?;
        match R::guard() {
            Some(x) => Ok(
                GuardOutput::Value(
                    EffectColorShift {
                        color: x.extract(color),
                        speed: x.extract(speed),
                        color_range: x.extract(color_range),
                        total_area: x.extract(total_area),
                        reverse_direction: flag_set(flags, 0x02),
                        source_control_speed: x.extract(source_control_speed),
                        source_control_brightness: x.extract(source_control_brightness),
                    },
                ),
            ),
            None => Ok(GuardOutput::Skipped),
        }
    }
}

/// A flame that flickers.
#[derive(Debug, Clone, Copy, PartialEq, Eq)]
pub struct EffectFlame {
    /// Color behind the flame.
    pub background: Color,
    /// First color of the flame.
    pub color_primary: Color,
    /// Second color of the flame.
    pub color_secondary: Color,
    /// Strength of the flame.
    pub intensity: EffectWidth,
    /// Mapping of the signal onto the intensity, if there is one.
    pub source_control_intensity: Option<SourceControl>,
}

/// The body holds the source control of the intensity, an unused source
/// control, the intensity, 22 reserved bytes, the three colors and three
/// unused color slots.
impl EffectBody for EffectFlame {
    type Model = EffectFlame;

    open spec fn model(&self) -> EffectFlame {
        *self
    }

    open spec fn failure(stream: Seq<u8>, at: int, flags: u16, keep: bool) -> Option<Failure> {
        reserved(stream, at, 12).otherwise(
            EffectWidth::failure(stream, at + 12, keep),
        ).otherwise(
            reserved(stream, at + 14, 46),
        )
    }

    open spec fn value(stream: Seq<u8>, at: int, flags: u16) -> EffectFlame {
        EffectFlame {
            background: Color::value(stream, at + 36),
            color_primary: Color::value(stream, at + 40),
            color_secondary: Color::value(stream, at + 44),
            intensity: EffectWidth::value(stream, at + 12),
            source_control_intensity: source_control_at(stream, at, has_flag(flags, 0x4000)),
        }
    }

    proof fn lemma_skip_parity(stream: Seq<u8>, at: int, flags: u16) {
    }

    fn decode<R: Reader>(reader: &mut R, flags: u16) -> (res: Result<GuardOutput<Self>, Error>) {
        let source_control_intensity = SourceControl::decode_opt(reader, flag_set(flags, 0x4000))?;
        SourceControl::skip_bytes(reader)?;
        let intensity = EffectWidth::decode(reader)?;
        reader.skip::<22>()?;
        let background = Color::decode(reader)?;
        let color_primary = Color::decode(reader)?;
        let color_secondary = Color::decode(reader)?;
        skip_colors::<R, 3>(reader)?;
        match R::guard() {
            Some(x) => Ok(
                GuardOutput::Value(
                    EffectFlame {
                        background: x.extract(background),
                        color_primary: x.extract(color_primary),
                        color_secondary: x.extract(color_secondary),
                        intensity: x.extract(intensity),
                        source_control_intensity: x.extract(source_control_intensity),
                    },
                ),
            ),
            None => Ok(GuardOutput::Skipped),
        }
    }
}

/// Drops that fall. The snow and the stardust effect have the same values.
#[derive(Debug, Clone, Copy, PartialEq, Eq)]
pub struct EffectRain {
    /// Color behind the drops.
    pub background: Color,
    /// Color of the drops.
    pub color: Color,
    /// Speed of the drops.
    pub speed: EffectWidth,
    /// Number of drops.
    pub items: RainItems,
    /// Size of a drop.
    pub size: EffectWidth,
    /// Softness of the movement.
    pub smoothness: EffectWidth,
    /// Whether the drops fall backwards.
    pub reverse_direction: bool,
    /// Whether the colors of the drops are chosen at random.
    pub random_color: bool,
    /// Mapping of the signal onto the speed, if there is one.
    pub source_control_speed: Option<SourceControl>,
    /// Mapping of the signal onto the brightness, if there is one.
    pub source_control_brightness: Option<SourceControl>,
}

/// The body holds the two source controls, the four parameters, 16 reserved
/// bytes, the two colors and four unused color slots.
impl EffectBody for EffectRain {
    type Model = EffectRain;

    open spec fn model(&self) -> EffectRain {
        *self
    }

    open spec fn failure(stream: Seq<u8>, at: int, flags: u16, keep: bool) -> Option<Failure> {
        reserved(stream, at, 12).otherwise(
            EffectWidth::failure(stream, at + 12, keep),
        ).otherwise(
            RainItems::failure(stream, at + 14, keep),
        ).otherwise(
            EffectWidth::failure(stream, at + 16, keep),
        ).otherwise(
            EffectWidth::failure(stream, at + 18, keep),
        ).otherwise(
            reserved(stream, at + 20, 40),
        )
    }

    open spec fn value(stream: Seq<u8>, at: int, flags: u16) -> EffectRain {
        EffectRain {
            background: Color::value(stream, at + 36),
            color: Color::value(stream, at + 40),
            speed: EffectWidth::value(stream, at + 12),
            items: RainItems::value(stream, at + 14),
            size: EffectWidth::value(stream, at + 16),
            smoothness: EffectWidth::value(stream, at + 18),
            reverse_direction: has_flag(flags, 0x02),
            random_color: has_flag(flags, 0x08),
            source_control_speed: source_control_at(stream, at, has_flag(flags, 0x4000)),
            source_control_brightness: source_control_at(stream, at + 6, has_flag(flags, 0x8000)),
        }
    }

    proof fn lemma_skip_parity(stream: Seq<u8>, at: int, flags: u16) {
    }

    fn decode<R: Reader>(reader: &mut R, flags: u16) -> (res: Result<GuardOutput<Self>, Error>) {
        let source_control_speed = SourceControl::decode_opt(reader, flag_set(flags, 0x4000))?;
        let source_control_brightness = SourceControl::decode_opt(reader, flag_set(flags, 0x8000))?;
        let speed = EffectWidth::decode(reader)?;
        let items = RainItems::decode(reader)?;
        let size = EffectWidth::decode(reader)?;
        let smoothness = EffectWidth::decode(reader)?;
        reader.skip::<16>()?;
        let background = Color::decode(reader)?;
        let color = Color::decode(reader)?;
        skip_colors::<R, 4>(reader)?;
        match R::guard() {
            Some(x) => Ok(
                GuardOutput::Value(
                    EffectRain {
                        background: x.extract(background),
                        color: x.extract(color),
                        speed: x.extract(speed),
                        items: x.extract(items),
                        size: x.extract(size),
                        smoothness: x.extract(smoothness),
                        reverse_direction: flag_set(flags, 0x02),
                        random_color: flag_set(flags, 0x08),
                        source_control_speed: x.extract(source_control_speed),
                        source_control_brightness: x.extract(source_control_brightness),
                    },
                ),
            ),
            None => Ok(GuardOutput::Skipped),
        }
    }
}

/// A point that moves over a strip in the colors of the rainbow.
#[derive(Debug, Clone, Copy, PartialEq, Eq)]
pub struct EffectSwipingRainbow {
    /// Color of the point.
    pub point_color: Color,
    /// Color of the strip.
    pub strip_color: Color,
    /// Speed of the point.
    pub point_speed: EffectWidth,
    /// Softness of the edges of the point.
    pub point_smoothness: EffectWidth,
    /// Size of the point.
    pub point_size: EffectWidth,
    /// Speed at which the colors change.
    pub color_change_speed: EffectWidth,
    /// Share of the color circle that is shown.
    pub color_range: EffectWidth,
    /// Whether the point moves backwards.
    pub reverse_direction: bool,
    /// Mapping of the signal onto the speed, if there is one.
    pub source_control_speed: Option<SourceControl>,
    /// Mapping of the signal onto the brightness, if there is one.
    pub source_control_brightness: Option<SourceControl>,
}

/// The body holds the two source controls, the five parameters, 14 reserved
/// bytes, the two colors and four unused color slots.
impl EffectBody for EffectSwipingRainbow {
    type Model = EffectSwipingRainbow;

    open spec fn model(&self) -> EffectSwipingRainbow {
        *self
    }

    open spec fn failure(stream: Seq<u8>, at: int, flags: u16, keep: bool) -> Option<Failure> {
        reserved(stream, at, 12).otherwise(
            EffectWidth::failure(stream, at + 12, keep),
        ).otherwise(
            EffectWidth::failure(stream, at + 14, keep),
        ).otherwise(
            EffectWidth::failure(stream, at + 16, keep),
        ).otherwise(
            EffectWidth::failure(stream, at + 18, keep),
        ).otherwise(
            EffectWidth::failure(stream, at + 20, keep),
        ).otherwise(
            reserved(stream, at + 22, 38),
        )
    }

    open spec fn value(stream: Seq<u8>, at: int, flags: u16) -> EffectSwipingRainbow {
        EffectSwipingRainbow {
            point_color: Color::value(stream, at + 36),
            strip_color: Color::value(stream, at + 40),
            point_speed: EffectWidth::value(stream, at + 12),
            point_smoothness: EffectWidth::value(stream, at + 14),
            point_size: EffectWidth::value(stream, at + 16),
            color_change_speed: EffectWidth::value(stream, at + 18),
            color_range: EffectWidth::value(stream, at + 20),
            reverse_direction: has_flag(flags, 0x01),
            source_control_speed: source_control_at(stream, at, has_flag(flags, 0x4000)),
            source_control_brightness: source_control_at(stream, at + 6, has_flag(flags, 0x8000)),
        }
    }

    proof fn lemma_skip_parity(stream: Seq<u8>, at: int, flags: u16) {
    }

    fn decode<R: Reader>(reader: &mut R, flags: u16) -> (res: Result<GuardOutput<Self>, Error>) {
        let source_control_speed = SourceControl::decode_opt(reader, flag_set(flags, 0x4000))?;
        let source_control_brightness = SourceControl::decode_opt(reader, flag_set(flags, 0x8000))?;
        let point_speed = EffectWidth::decode(reader)?;
        let point_smoothness = EffectWidth::decode(reader)?;
        let point_size = EffectWidth::decode(reader)?;
        let color_change_speed = EffectWidth::decode(reader)?;
        let color_range = EffectWidth::decode(reader)?;
        reader.skip::<14>()?;
        let point_color = Color::decode(reader)?;
        let strip_color = Color::decode(reader)?;
        skip_colors::<R, 4>(reader)?;
        match R::guard() {
            Some(x) => Ok(
                GuardOutput::Value(
                    EffectSwipingRainbow {
                        point_color: x.extract(point_color),
                        strip_color: x.extract(strip_color),
                        point_speed: x.extract(point_speed),
                        point_smoothness: x.extract(point_smoothness),
                        point_size: x.extract(point_size),
                        color_change_speed: x.extract(color_change_speed),
                        color_range: x.extract(color_range),
                        reverse_direction: flag_set(flags, 0x01),
                        source_control_speed: x.extract(source_control_speed),
                        source_control_brightness: x.extract(source_control_brightness),
                    },
                ),
            ),
            None => Ok(GuardOutput::Skipped),
        }
    }
}

/// The color of the surroundings.
#[derive(Debug, Clone, Copy, PartialEq, Eq)]
pub struct EffectAmbient {
    /// The color where there is no signal.
    pub background: Color,
}

/// The body holds two unused source controls, 24 reserved bytes, the color
/// and five unused color slots.
impl EffectBody for EffectAmbient {
    type Model = EffectAmbient;

    open spec fn model(&self) -> EffectAmbient {
        *self
    }

    open spec fn failure(stream: Seq<u8>, at: int, flags: u16, keep: bool) -> Option<Failure> {
        reserved(stream, at, 60)
    }

    open spec fn value(stream: Seq<u8>, at: int, flags: u16) -> EffectAmbient {
        EffectAmbient {
            background: Color::value(stream, at + 36),
        }
    }

    proof fn lemma_skip_parity(stream: Seq<u8>, at: int, flags: u16) {
    }

    fn decode<R: Reader>(reader: &mut R, flags: u16) -> (res: Result<GuardOutput<Self>, Error>) {
        SourceControl::skip_bytes(reader)?;
        SourceControl::skip_bytes(reader)?;
        reader.skip::<24>()?;
        let background = Color::decode(reader)?;
        skip_colors::<R, 5>(reader)?;
        match R::guard() {
            Some(x) => Ok(
                GuardOutput::Value(
                    EffectAmbient {
                        background: x.extract(background),
                    },
                ),
            ),
            None => Ok(GuardOutput::Skipped),
        }
    }
}

/// Flashes that follow the sound.
#[derive(Debug, Clone, Copy, PartialEq, Eq)]
pub struct EffectSoundFlash {
    /// Color where there is no flash.
    pub background: Color,
    /// Colors of the flashes.
    pub colors: [Color; 4],
}

/// The body holds two unused source controls, 24 reserved bytes, the
/// background, the four colors and one unused color slot.
impl EffectBody for EffectSoundFlash {
    type Model = EffectSoundFlash;

    open spec fn model(&self) -> EffectSoundFlash {
        *self
    }

    open spec fn failure(stream: Seq<u8>, at: int, flags: u16, keep: bool) -> Option<Failure> {
        reserved(stream, at, 60)
    }

    open spec fn value(stream: Seq<u8>, at: int, flags: u16) -> EffectSoundFlash {
        EffectSoundFlash {
            background: Color::value(stream, at + 36),
            colors: [
                Color::value(stream, at + 40),
                Color::value(stream, at + 44),
                Color::value(stream, at + 48),
                Color::value(stream, at + 52),
            ],
        }
    }

    proof fn lemma_skip_parity(stream: Seq<u8>, at: int, flags: u16) {
    }

    fn decode<R: Reader>(reader: &mut R, flags: u16) -> (res: Result<GuardOutput<Self>, Error>) {
        let ghost stream = reader.cursor().stream;
        let ghost at = reader.cursor().at();
        SourceControl::skip_bytes(reader)?;
        SourceControl::skip_bytes(reader)?;
        reader.skip::<24>()?;
        let background = Color::decode(reader)?;
        let colors = decode_colors::<R, 4>(reader)?;
        Color::skip_bytes(reader)?;
        match R::guard() {
            Some(x) => {
                let colors = x.extract(colors);
                proof {
                    assert(colors =~= Self::value(stream, at, flags).colors);
                }
                Ok(
                    GuardOutput::Value(
                        EffectSoundFlash { background: x.extract(background), colors },
                    ),
                )
            },
            None => Ok(GuardOutput::Skipped),
        }
    }
}

/// Bars that slide with the sound.
#[derive(Debug, Clone, Copy, PartialEq, Eq)]
pub struct EffectSoundSlider {
    /// Color where there is no bar.
    pub background: Color,
    /// The four bars, each with its color, its direction and its speed.
    pub effects: [(Color, SoundEffect, SoundEffectSpeed); 4],
    /// Speed at which the colors rotate.
    pub rotate_color: EffectPercent,
}

/// The body holds two unused source controls, the four directions, the four
/// speeds, the rotation, six reserved bytes, the background, the four colors
/// and one unused color slot.
impl EffectBody for EffectSoundSlider {
    type Model = EffectSoundSlider;

    open spec fn model(&self) -> EffectSoundSlider {
        *self
    }

    open spec fn failure(stream: Seq<u8>, at: int, flags: u16, keep: bool) -> Option<Failure> {
        reserved(stream, at, 12).otherwise(
            <[SoundEffect; 4]>::failure(stream, at + 12, keep),
        ).otherwise(
            <[SoundEffectSpeed; 4]>::failure(stream, at + 20, keep),
        ).otherwise(
            EffectPercent::failure(stream, at + 28, keep),
        ).otherwise(
            reserved(stream, at + 30, 30),
        )
    }

    open spec fn value(stream: Seq<u8>, at: int, flags: u16) -> EffectSoundSlider {
        EffectSoundSlider {
            background: Color::value(stream, at + 36),
            effects: [
                (
                    Color::value(stream, at + 40),
                    SoundEffect::value(stream, at + 12),
                    SoundEffectSpeed::value(stream, at + 20),
                ),
                (
                    Color::value(stream, at + 44),
                    SoundEffect::value(stream, at + 14),
                    SoundEffectSpeed::value(stream, at + 22),
                ),
                (
                    Color::value(stream, at + 48),
                    SoundEffect::value(stream, at + 16),
                    SoundEffectSpeed::value(stream, at + 24),
                ),
                (
                    Color::value(stream, at + 52),
                    SoundEffect::value(stream, at + 18),
                    SoundEffectSpeed::value(stream, at + 26),
                ),
            ],
            rotate_color: EffectPercent::value(stream, at + 28),
        }
    }

    proof fn lemma_skip_parity(stream: Seq<u8>, at: int, flags: u16) {
        <[SoundEffect; 4]>::lemma_skip_parity(stream, at + 12);
        <[SoundEffectSpeed; 4]>::lemma_skip_parity(stream, at + 20);
    }

    fn decode<R: Reader>(reader: &mut R, flags: u16) -> (res: Result<GuardOutput<Self>, Error>) {
        let ghost stream = reader.cursor().stream;
        let ghost at = reader.cursor().at();
        SourceControl::skip_bytes(reader)?;
        SourceControl::skip_bytes(reader)?;
        let effects = <[SoundEffect; 4]>::decode(reader)?;
        let speeds = <[SoundEffectSpeed; 4]>::decode(reader)?;
        let rotate_color = EffectPercent::decode(reader)?;
        reader.skip::<6>()?;
        let background = Color::decode(reader)?;
        let colors = decode_colors::<R, 4>(reader)?;
        Color::skip_bytes(reader)?;
        match R::guard() {
            Some(x) => {
                let effects = x.extract(effects);
                let speeds = x.extract(speeds);
                let colors = x.extract(colors);
                let bars = [
                    (colors[0], effects[0], speeds[0]),
                    (colors[1], effects[1], speeds[1]),
                    (colors[2], effects[2], speeds[2]),
                    (colors[3], effects[3], speeds[3]),
                ];
                proof {
                    let directions = <[SoundEffect; 4]>::value(stream, at + 12);
                    let paces = <[SoundEffectSpeed; 4]>::value(stream, at + 20);
                    assert(effects.model()[0] == directions[0] && effects.model()[1]
                        == directions[1] && effects.model()[2] == directions[2]
                        && effects.model()[3] == directions[3]);
                    assert(speeds.model()[0] == paces[0] && speeds.model()[1] == paces[1]
                        && speeds.model()[2] == paces[2] && speeds.model()[3] == paces[3]);
                }
                Ok(
                    GuardOutput::Value(
                        EffectSoundSlider {
                            background: x.extract(background),
                            effects: bars,
                            rotate_color: x.extract(rotate_color),
                        },
                    ),
                )
            },
            None => Ok(GuardOutput::Skipped),
        }
    }
}

/// Colors that shift with the sound.
#[derive(Debug, Clone, Copy, PartialEq, Eq)]
pub struct EffectSoundShift {
    /// Color where nothing shifts.
    pub background: Color,
    /// The two shifts, each with its color, its speed, and whether its color
    /// is chosen at random.
    pub effects: [(Color, SoundEffectSpeed, bool); 2],
    /// Speed at which the colors rotate.
    pub rotate_color: EffectPercent,
    /// Speed while it is silent.
    pub idle_speed: EffectPercent,
    /// Speed while there is sound.
    pub activity_speed: EffectPercent,
    /// Whether the colors shift backwards.
    pub reverse_direction: bool,
}

/// The body holds two unused source controls, the rotation, the two speeds
/// of the shifts, the idle and the activity speed, 14 reserved bytes, the
/// background, the two colors and three unused color slots. The bits 1 and 2
/// of the flags say which of the two shifts has a random color.
impl EffectBody for EffectSoundShift {
    type Model = EffectSoundShift;

    open spec fn model(&self) -> EffectSoundShift {
        *self
    }

    open spec fn failure(stream: Seq<u8>, at: int, flags: u16, keep: bool) -> Option<Failure> {
        reserved(stream, at, 12).otherwise(
            EffectPercent::failure(stream, at + 12, keep),
        ).otherwise(
            <[SoundEffectSpeed; 2]>::failure(stream, at + 14, keep),
        ).otherwise(
            EffectPercent::failure(stream, at + 18, keep),
        ).otherwise(
            EffectPercent::failure(stream, at + 20, keep),
        ).otherwise(
            reserved(stream, at + 22, 38),
        )
    }

    open spec fn value(stream: Seq<u8>, at: int, flags: u16) -> EffectSoundShift {
        EffectSoundShift {
            background: Color::value(stream, at + 36),
            effects: [
                (
                    Color::value(stream, at + 40),
                    SoundEffectSpeed::value(stream, at + 14),
                    has_flag(flags, 0x02),
                ),
                (
                    Color::value(stream, at + 44),
                    SoundEffectSpeed::value(stream, at + 16),
                    has_flag(flags, 0x04),
                ),
            ],
            rotate_color: EffectPercent::value(stream, at + 12),
            idle_speed: EffectPercent::value(stream, at + 18),
            activity_speed: EffectPercent::value(stream, at + 20),
            reverse_direction: has_flag(flags, 0x01),
        }
    }

    proof fn lemma_skip_parity(stream: Seq<u8>, at: int, flags: u16) {
        <[SoundEffectSpeed; 2]>::lemma_skip_parity(stream, at + 14);
    }

    fn decode<R: Reader>(reader: &mut R, flags: u16) -> (res: Result<GuardOutput<Self>, Error>) {
        let ghost stream = reader.cursor().stream;
        let ghost at = reader.cursor().at();
        SourceControl::skip_bytes(reader)?;
        SourceControl::skip_bytes(reader)?;
        let rotate_color = EffectPercent::decode(reader)?;
        let speeds = <[SoundEffectSpeed; 2]>::decode(reader)?;
        let idle_speed = EffectPercent::decode(reader)?;
        let activity_speed = EffectPercent::decode(reader)?;
        reader.skip::<14>()?;
        let background = Color::decode(reader)?;
        let colors = decode_colors::<R, 2>(reader)?;
        skip_colors::<R, 3>(reader)?;
        match R::guard() {
            Some(x) => {
                let speeds = x.extract(speeds);
                let colors = x.extract(colors);
                let shifts = [
                    (colors[0], speeds[0], flag_set(flags, 0x02)),
                    (colors[1], speeds[1], flag_set(flags, 0x04)),
                ];
                proof {
                    let paces = <[SoundEffectSpeed; 2]>::value(stream, at + 14);
                    assert(speeds.model()[0] == paces[0] && speeds.model()[1] == paces[1]);
                }
                Ok(
                    GuardOutput::Value(
                        EffectSoundShift {
                            background: x.extract(background),
                            effects: shifts,
                            rotate_color: x.extract(rotate_color),
                            idle_speed: x.extract(idle_speed),
                            activity_speed: x.extract(activity_speed),
                            reverse_direction: flag_set(flags, 0x01),
                        },
                    ),
                )
            },
            None => Ok(GuardOutput::Skipped),
        }
    }
}

} // verus!
