//! Settings of the lighting of the device.

pub mod body;
pub mod listed;
pub mod lists;
pub mod parts;
pub mod plain;

use arrayvec::ArrayVec;
use vstd::prelude::*;

use crate::misc::io::decode::{
    lemma_run_failure_step, lemma_run_failure_stops, lemma_run_skip_parity, run_failure,
};
use crate::misc::io::{be_u16, invalid, keep, reserved, Checks};
use crate::misc::{Decode, Error, Failure, Guard, GuardOutput, Reader};

pub use self::body::{EffectBody, BODY_WIDTH};
pub use self::listed::{
    EffectBarGraph, EffectBarGraphModel, EffectBlink, EffectBlinkModel, EffectColorChange,
    EffectColorChangeModel, EffectColorGradient, EffectColorGradientModel, EffectColorSequence,
    EffectColorSequenceModel, EffectColorSwitch, EffectColorSwitchModel, EffectSequence,
    EffectSequenceModel, EffectWave, EffectWaveModel,
};
pub use self::parts::{
    Brightness, BrightnessTag, Color, DataSource, EffectDelay, EffectDelayTag, EffectPercent,
    EffectPercentTag, EffectWidth, EffectWidthTag, RainItems, RainItemsTag, SoundEffect,
    SoundEffectSpeed, SoundEffectSpeedTag, SourceControl,
};
pub use self::plain::{
    EffectAmbient, EffectBreathing, EffectColorShift, EffectFlame, EffectRain, EffectRainbow,
    EffectScanner, EffectSoundFlash, EffectSoundShift, EffectSoundSlider, EffectStatic,
    EffectSwipingRainbow,
};

use self::lists::{collect_controllers2, collect_controllers6, controllers2, controllers6};

verus! {

/// The number of bytes that a controller takes: nine bytes of head, the body
/// of the effect and one reserved byte.
pub const CONTROLLER_WIDTH: usize = 70;

/// An effect with its values.
#[derive(Debug, Clone, PartialEq, Eq)]
pub enum Effect {
    /// One color that does not change.
    Static(EffectStatic),
    /// One color that fades in and out.
    Breathing(EffectBreathing),
    /// The colors of the rainbow, one after another.
    Rainbow(EffectRainbow),
    /// Colors that blink in front of a background.
    Blink(EffectBlink),
    /// Colors that follow one another.
    ColorChange(EffectColorChange),
    /// Colors that run over a background one after another.
    Sequence(EffectSequence),
    /// A beam that moves over the LEDs.
    Scanner(EffectScanner),
    /// A beam as of a laser; it has the values of the scanner.
    Laser(EffectScanner),
    /// Waves of colors that move over a background.
    Wave(EffectWave),
    /// Colors that move through the LEDs one after another.
    ColorSequence(EffectColorSequence),
    /// Colors that move over an area.
    ColorShift(EffectColorShift),
    /// A bar whose length shows a value.
    BarGraph(EffectBarGraph),
    /// A flame that flickers.
    Flame(EffectFlame),
    /// Drops that fall.
    Rain(EffectRain),
    /// Flakes that fall; they have the values of the rain.
    Snow(EffectRain),
    /// Dust that falls; it has the values of the rain.
    Stardust(EffectRain),
    /// A color that is chosen by a value.
    ColorSwitch(EffectColorSwitch),
    /// A point that moves over a strip in the colors of the rainbow.
    SwipingRainbow(EffectSwipingRainbow),
    /// Flashes that follow the sound.
    SoundFlash(EffectSoundFlash),
    /// Bars that follow the sound; they have the values of the bar graph.
    SoundBars(EffectBarGraph),
    /// Bars that slide with the sound.
    SoundSlider(EffectSoundSlider),
    /// Colors that shift with the sound.
    SoundShift(EffectSoundShift),
    /// The color of the surroundings.
    Ambient(EffectAmbient),
    /// Colors that run into one another.
    ColorGradient(EffectColorGradient),
}

/// The mathematical content of an [`Effect`].
pub ghost enum EffectModel {
    /// See [`Effect::Static`].
    Static(EffectStatic),
    /// See [`Effect::Breathing`].
    Breathing(EffectBreathing),
    /// See [`Effect::Rainbow`].
    Rainbow(EffectRainbow),
    /// See [`Effect::Blink`].
    Blink(EffectBlinkModel),
    /// See [`Effect::ColorChange`].
    ColorChange(EffectColorChangeModel),
    /// See [`Effect::Sequence`].
    Sequence(EffectSequenceModel),
    /// See [`Effect::Scanner`].
    Scanner(EffectScanner),
    /// See [`Effect::Laser`].
    Laser(EffectScanner),
    /// See [`Effect::Wave`].
    Wave(EffectWaveModel),
    /// See [`Effect::ColorSequence`].
    ColorSequence(EffectColorSequenceModel),
    /// See [`Effect::ColorShift`].
    ColorShift(EffectColorShift),
    /// See [`Effect::BarGraph`].
    BarGraph(EffectBarGraphModel),
    /// See [`Effect::Flame`].
    Flame(EffectFlame),
    /// See [`Effect::Rain`].
    Rain(EffectRain),
    /// See [`Effect::Snow`].
    Snow(EffectRain),
    /// See [`Effect::Stardust`].
    Stardust(EffectRain),
    /// See [`Effect::ColorSwitch`].
    ColorSwitch(EffectColorSwitchModel),
    /// See [`Effect::SwipingRainbow`].
    SwipingRainbow(EffectSwipingRainbow),
    /// See [`Effect::SoundFlash`].
    SoundFlash(EffectSoundFlash),
    /// See [`Effect::SoundBars`].
    SoundBars(EffectBarGraphModel),
    /// See [`Effect::SoundSlider`].
    SoundSlider(EffectSoundSlider),
    /// See [`Effect::SoundShift`].
    SoundShift(EffectSoundShift),
    /// See [`Effect::Ambient`].
    Ambient(EffectAmbient),
    /// See [`Effect::ColorGradient`].
    ColorGradient(EffectColorGradientModel),
}

impl View for Effect {
    type V = EffectModel;

    open spec fn view(&self) -> EffectModel {
        match *self {
            Effect::Static(e) => EffectModel::Static(e),
            Effect::Breathing(e) => EffectModel::Breathing(e),
            Effect::Rainbow(e) => EffectModel::Rainbow(e),
            Effect::Blink(e) => EffectModel::Blink(e@),
            Effect::ColorChange(e) => EffectModel::ColorChange(e@),
            Effect::Sequence(e) => EffectModel::Sequence(e@),
            Effect::Scanner(e) => EffectModel::Scanner(e),
            Effect::Laser(e) => EffectModel::Laser(e),
            Effect::Wave(e) => EffectModel::Wave(e@),
            Effect::ColorSequence(e) => EffectModel::ColorSequence(e@),
            Effect::ColorShift(e) => EffectModel::ColorShift(e),
            Effect::BarGraph(e) => EffectModel::BarGraph(e@),
            Effect::Flame(e) => EffectModel::Flame(e),
            Effect::Rain(e) => EffectModel::Rain(e),
            Effect::Snow(e) => EffectModel::Snow(e),
            Effect::Stardust(e) => EffectModel::Stardust(e),
            Effect::ColorSwitch(e) => EffectModel::ColorSwitch(e@),
            Effect::SwipingRainbow(e) => EffectModel::SwipingRainbow(e),
            Effect::SoundFlash(e) => EffectModel::SoundFlash(e),
            Effect::SoundBars(e) => EffectModel::SoundBars(e@),
            Effect::SoundSlider(e) => EffectModel::SoundSlider(e),
            Effect::SoundShift(e) => EffectModel::SoundShift(e),
            Effect::Ambient(e) => EffectModel::Ambient(e),
            Effect::ColorGradient(e) => EffectModel::ColorGradient(e@),
        }
    }
}

/// Whether `selector` selects an effect.
pub open spec fn selects_effect(selector: u8) -> bool {
    0x01 <= selector <= 0x05 || 0x07 <= selector <= 0x18 || selector == 0x21
}

/// The failure of decoding the body at index `at` of `stream` as that of the
/// effect that `selector` selects. A selector that selects no effect is
/// reported under the name `Effect`, whatever the bytes of the body are.
pub open spec fn effect_failure(
    stream: Seq<u8>,
    at: int,
    selector: u8,
    flags: u16,
    keep: bool,
) -> Option<Failure> {
    if selector == 0x01 {
        EffectStatic::failure(stream, at, flags, keep)
    } else if selector == 0x02 {
        EffectBreathing::failure(stream, at, flags, keep)
    } else if selector == 0x03 {
        EffectRainbow::failure(stream, at, flags, keep)
    } else if selector == 0x04 {
        EffectBlink::failure(stream, at, flags, keep)
    } else if selector == 0x05 {
        EffectColorChange::failure(stream, at, flags, keep)
    } else if selector == 0x07 {
        EffectSequence::failure(stream, at, flags, keep)
    } else if selector == 0x08 || selector == 0x09 {
        EffectScanner::failure(stream, at, flags, keep)
    } else if selector == 0x0A {
        EffectWave::failure(stream, at, flags, keep)
    } else if selector == 0x0B {
        EffectColorSequence::failure(stream, at, flags, keep)
    } else if selector == 0x0C {
        EffectColorShift::failure(stream, at, flags, keep)
    } else if selector == 0x0D || selector == 0x15 {
        EffectBarGraph::failure(stream, at, flags, keep)
    } else if selector == 0x0E {
        EffectFlame::failure(stream, at, flags, keep)
    } else if selector == 0x0F || selector == 0x10 || selector == 0x11 {
        EffectRain::failure(stream, at, flags, keep)
    } else if selector == 0x12 {
        EffectColorSwitch::failure(stream, at, flags, keep)
    } else if selector == 0x13 {
        EffectSwipingRainbow::failure(stream, at, flags, keep)
    } else if selector == 0x14 {
        EffectSoundFlash::failure(stream, at, flags, keep)
    } else if selector == 0x16 {
        EffectSoundSlider::failure(stream, at, flags, keep)
    } else if selector == 0x17 {
        EffectSoundShift::failure(stream, at, flags, keep)
    } else if selector == 0x18 {
        EffectAmbient::failure(stream, at, flags, keep)
    } else if selector == 0x21 {
        EffectColorGradient::failure(stream, at, flags, keep)
    } else {
        Some(invalid("Effect", selector as int))
    }
}

/// The effect that the body at index `at` of `stream` stands for, where
/// `selector` selects an effect. The last of the cases is that of the selector
/// `0x21`.
pub open spec fn effect_value(stream: Seq<u8>, at: int, selector: u8, flags: u16) -> EffectModel {
    if selector == 0x01 {
        EffectModel::Static(EffectStatic::value(stream, at, flags))
    } else if selector == 0x02 {
        EffectModel::Breathing(EffectBreathing::value(stream, at, flags))
    } else if selector == 0x03 {
        EffectModel::Rainbow(EffectRainbow::value(stream, at, flags))
    } else if selector == 0x04 {
        EffectModel::Blink(EffectBlink::value(stream, at, flags))
    } else if selector == 0x05 {
        EffectModel::ColorChange(EffectColorChange::value(stream, at, flags))
    } else if selector == 0x07 {
        EffectModel::Sequence(EffectSequence::value(stream, at, flags))
    } else if selector == 0x08 {
        EffectModel::Scanner(EffectScanner::value(stream, at, flags))
    } else if selector == 0x09 {
        EffectModel::Laser(EffectScanner::value(stream, at, flags))
    } else if selector == 0x0A {
        EffectModel::Wave(EffectWave::value(stream, at, flags))
    } else if selector == 0x0B {
        EffectModel::ColorSequence(EffectColorSequence::value(stream, at, flags))
    } else if selector == 0x0C {
        EffectModel::ColorShift(EffectColorShift::value(stream, at, flags))
    } else if selector == 0x0D {
        EffectModel::BarGraph(EffectBarGraph::value(stream, at, flags))
    } else if selector == 0x0E {
        EffectModel::Flame(EffectFlame::value(stream, at, flags))
    } else if selector == 0x0F {
        EffectModel::Rain(EffectRain::value(stream, at, flags))
    } else if selector == 0x10 {
        EffectModel::Snow(EffectRain::value(stream, at, flags))
    } else if selector == 0x11 {
        EffectModel::Stardust(EffectRain::value(stream, at, flags))
    } else if selector == 0x12 {
        EffectModel::ColorSwitch(EffectColorSwitch::value(stream, at, flags))
    } else if selector == 0x13 {
        EffectModel::SwipingRainbow(EffectSwipingRainbow::value(stream, at, flags))
    } else if selector == 0x14 {
        EffectModel::SoundFlash(EffectSoundFlash::value(stream, at, flags))
    } else if selector == 0x15 {
        EffectModel::SoundBars(EffectBarGraph::value(stream, at, flags))
    } else if selector == 0x16 {
        EffectModel::SoundSlider(EffectSoundSlider::value(stream, at, flags))
    } else if selector == 0x17 {
        EffectModel::SoundShift(EffectSoundShift::value(stream, at, flags))
    } else if selector == 0x18 {
        EffectModel::Ambient(EffectAmbient::value(stream, at, flags))
    } else {
        EffectModel::ColorGradient(EffectColorGradient::value(stream, at, flags))
    }
}

/// The body of an effect that decodes in the mode that keeps values also
/// passes in the mode that skips.
pub proof fn lemma_effect_skip_parity(stream: Seq<u8>, at: int, selector: u8, flags: u16)
    requires
        effect_failure(stream, at, selector, flags, true) is None,
    ensures
        effect_failure(stream, at, selector, flags, false) is None,
{
    if selector == 0x01 {
        EffectStatic::lemma_skip_parity(stream, at, flags);
    } else if selector == 0x02 {
        EffectBreathing::lemma_skip_parity(stream, at, flags);
    } else if selector == 0x03 {
        EffectRainbow::lemma_skip_parity(stream, at, flags);
    } else if selector == 0x04 {
        EffectBlink::lemma_skip_parity(stream, at, flags);
    } else if selector == 0x05 {
        EffectColorChange::lemma_skip_parity(stream, at, flags);
    } else if selector == 0x07 {
        EffectSequence::lemma_skip_parity(stream, at, flags);
    } else if selector == 0x08 || selector == 0x09 {
        EffectScanner::lemma_skip_parity(stream, at, flags);
    } else if selector == 0x0A {
        EffectWave::lemma_skip_parity(stream, at, flags);
    } else if selector == 0x0B {
        EffectColorSequence::lemma_skip_parity(stream, at, flags);
    } else if selector == 0x0C {
        EffectColorShift::lemma_skip_parity(stream, at, flags);
    } else if selector == 0x0D || selector == 0x15 {
        EffectBarGraph::lemma_skip_parity(stream, at, flags);
    } else if selector == 0x0E {
        EffectFlame::lemma_skip_parity(stream, at, flags);
    } else if selector == 0x0F || selector == 0x10 || selector == 0x11 {
        EffectRain::lemma_skip_parity(stream, at, flags);
    } else if selector == 0x12 {
        EffectColorSwitch::lemma_skip_parity(stream, at, flags);
    } else if selector == 0x13 {
        EffectSwipingRainbow::lemma_skip_parity(stream, at, flags);
    } else if selector == 0x14 {
        EffectSoundFlash::lemma_skip_parity(stream, at, flags);
    } else if selector == 0x16 {
        EffectSoundSlider::lemma_skip_parity(stream, at, flags);
    } else if selector == 0x17 {
        EffectSoundShift::lemma_skip_parity(stream, at, flags);
    } else if selector == 0x18 {
        EffectAmbient::lemma_skip_parity(stream, at, flags);
    } else if selector == 0x21 {
        EffectColorGradient::lemma_skip_parity(stream, at, flags);
    }
}

/// Decodes the body of the effect that `selector` selects from the next 60
/// bytes of `reader`.
///
/// Succeeds exactly where [`effect_failure`] finds nothing to report. It then
/// has read 60 bytes, in either mode, and hands back [`effect_value`] in the
/// mode that keeps values. A selector that selects no effect is refused
/// before a byte is read.
pub fn decode_effect<R: Reader>(reader: &mut R, selector: u8, flags: u16) -> (res: Result<
    GuardOutput<Effect>,
    Error,
>)
    ensures
        match res {
            Ok(out) => {
                &&& effect_failure(
                    old(reader).cursor().stream,
                    old(reader).cursor().at(),
                    selector,
                    flags,
                    R::Guard::keeps(),
                ) is None
                &&& final(reader).cursor() == old(reader).cursor().advance(BODY_WIDTH as nat)
                &&& match out {
                    GuardOutput::Value(effect) => R::Guard::keeps() && effect@ == effect_value(
                        old(reader).cursor().stream,
                        old(reader).cursor().at(),
                        selector,
                        flags,
                    ),
                    GuardOutput::Skipped => !R::Guard::keeps(),
                }
            },
            Err(e) => effect_failure(
                old(reader).cursor().stream,
                old(reader).cursor().at(),
                selector,
                flags,
                R::Guard::keeps(),
            ) == Some(e@),
        },
{
    match selector {
        0x01 => {
            let body = EffectStatic::decode(reader, flags)?;
            match R::guard() {
                Some(x) => Ok(GuardOutput::Value(Effect::Static(x.extract(body)))),
                None => Ok(GuardOutput::Skipped),
            }
        },
        0x02 => {
            let body = EffectBreathing::decode(reader, flags)?;
            match R::guard() {
                Some(x) => Ok(GuardOutput::Value(Effect::Breathing(x.extract(body)))),
                None => Ok(GuardOutput::Skipped),
            }
        },
        0x03 => {
            let body = EffectRainbow::decode(reader, flags)?;
            match R::guard() {
                Some(x) => Ok(GuardOutput::Value(Effect::Rainbow(x.extract(body)))),
                None => Ok(GuardOutput::Skipped),
            }
        },
        0x04 => {
            let body = EffectBlink::decode(reader, flags)?;
            match R::guard() {
                Some(x) => Ok(GuardOutput::Value(Effect::Blink(x.extract(body)))),
                None => Ok(GuardOutput::Skipped),
            }
        },
        0x05 => {
            let body = EffectColorChange::decode(reader, flags)?;
            match R::guard() {
                Some(x) => Ok(GuardOutput::Value(Effect::ColorChange(x.extract(body)))),
                None => Ok(GuardOutput::Skipped),
            }
        },
        0x07 => {
            let body = EffectSequence::decode(reader, flags)?;
            match R::guard() {
                Some(x) => Ok(GuardOutput::Value(Effect::Sequence(x.extract(body)))),
                None => Ok(GuardOutput::Skipped),
            }
        },
        0x08 => {
            let body = EffectScanner::decode(reader, flags)?;
            match R::guard() {
                Some(x) => Ok(GuardOutput::Value(Effect::Scanner(x.extract(body)))),
                None => Ok(GuardOutput::Skipped),
            }
        },
        0x09 => {
            let body = EffectScanner::decode(reader, flags)?;
            match R::guard() {
                Some(x) => Ok(GuardOutput::Value(Effect::Laser(x.extract(body)))),
                None => Ok(GuardOutput::Skipped),
            }
        },
        0x0A => {
            let body = EffectWave::decode(reader, flags)?;
            match R::guard() {
                Some(x) => Ok(GuardOutput::Value(Effect::Wave(x.extract(body)))),
                None => Ok(GuardOutput::Skipped),
            }
        },
        0x0B => {
            let body = EffectColorSequence::decode(reader, flags)?;
            match R::guard() {
                Some(x) => Ok(GuardOutput::Value(Effect::ColorSequence(x.extract(body)))),
                None => Ok(GuardOutput::Skipped),
            }
        },
        0x0C => {
            let body = EffectColorShift::decode(reader, flags)?;
            match R::guard() {
                Some(x) => Ok(GuardOutput::Value(Effect::ColorShift(x.extract(body)))),
                None => Ok(GuardOutput::Skipped),
            }
        },
        0x0D => {
            let body = EffectBarGraph::decode(reader, flags)?;
            match R::guard() {
                Some(x) => Ok(GuardOutput::Value(Effect::BarGraph(x.extract(body)))),
                None => Ok(GuardOutput::Skipped),
            }
        },
        0x0E => {
            let body = EffectFlame::decode(reader, flags)?;
            match R::guard() {
                Some(x) => Ok(GuardOutput::Value(Effect::Flame(x.extract(body)))),
                None => Ok(GuardOutput::Skipped),
            }
        },
        0x0F => {
            let body = EffectRain::decode(reader, flags)?;
            match R::guard() {
                Some(x) => Ok(GuardOutput::Value(Effect::Rain(x.extract(body)))),
                None => Ok(GuardOutput::Skipped),
            }
        },
        0x10 => {
            let body = EffectRain::decode(reader, flags)?;
            match R::guard() {
                Some(x) => Ok(GuardOutput::Value(Effect::Snow(x.extract(body)))),
                None => Ok(GuardOutput::Skipped),
            }
        },
        0x11 => {
            let body = EffectRain::decode(reader, flags)?;
            match R::guard() {
                Some(x) => Ok(GuardOutput::Value(Effect::Stardust(x.extract(body)))),
                None => Ok(GuardOutput::Skipped),
            }
        },
        0x12 => {
            let body = EffectColorSwitch::decode(reader, flags)?;
            match R::guard() {
                Some(x) => Ok(GuardOutput::Value(Effect::ColorSwitch(x.extract(body)))),
                None => Ok(GuardOutput::Skipped),
            }
        },
        0x13 => {
            let body = EffectSwipingRainbow::decode(reader, flags)?;
            match R::guard() {
                Some(x) => Ok(GuardOutput::Value(Effect::SwipingRainbow(x.extract(body)))),
                None => Ok(GuardOutput::Skipped),
            }
        },
        0x14 => {
            let body = EffectSoundFlash::decode(reader, flags)?;
            match R::guard() {
                Some(x) => Ok(GuardOutput::Value(Effect::SoundFlash(x.extract(body)))),
                None => Ok(GuardOutput::Skipped),
            }
        },
        0x15 => {
            let body = EffectBarGraph::decode(reader, flags)?;
            match R::guard() {
                Some(x) => Ok(GuardOutput::Value(Effect::SoundBars(x.extract(body)))),
                None => Ok(GuardOutput::Skipped),
            }
        },
        0x16 => {
            let body = EffectSoundSlider::decode(reader, flags)?;
            match R::guard() {
                Some(x) => Ok(GuardOutput::Value(Effect::SoundSlider(x.extract(body)))),
                None => Ok(GuardOutput::Skipped),
            }
        },
        0x17 => {
            let body = EffectSoundShift::decode(reader, flags)?;
            match R::guard() {
                Some(x) => Ok(GuardOutput::Value(Effect::SoundShift(x.extract(body)))),
                None => Ok(GuardOutput::Skipped),
            }
        },
        0x18 => {
            let body = EffectAmbient::decode(reader, flags)?;
            match R::guard() {
                Some(x) => Ok(GuardOutput::Value(Effect::Ambient(x.extract(body)))),
                None => Ok(GuardOutput::Skipped),
            }
        },
        0x21 => {
            let body = EffectColorGradient::decode(reader, flags)?;
            match R::guard() {
                Some(x) => Ok(GuardOutput::Value(Effect::ColorGradient(x.extract(body)))),
                None => Ok(GuardOutput::Skipped),
            }
        },
        x => Err(Error::InvalidValue("Effect", x as usize)),
    }
}

/// One effect on one stretch of LEDs.
#[derive(Debug, Clone, PartialEq, Eq)]
pub struct Controller {
    /// Index of the first LED of the stretch.
    pub offset: u8,
    /// Number of LEDs of the stretch.
    pub length: u8,
    /// The effect that the stretch shows.
    pub effect: Effect,
    /// The signal that drives the effect, if one does.
    pub data_source: Option<DataSource>,
    /// Damping of the signal while it rises.
    pub sensor_attenuation_rising: u8,
    /// Damping of the signal while it falls.
    pub sensor_attenuation_falling: u8,
}

/// The mathematical content of a [`Controller`].
pub ghost struct ControllerModel {
    /// See [`Controller::offset`].
    pub offset: u8,
    /// See [`Controller::length`].
    pub length: u8,
    /// See [`Controller::effect`].
    pub effect: EffectModel,
    /// See [`Controller::data_source`].
    pub data_source: Option<DataSource>,
    /// See [`Controller::sensor_attenuation_rising`].
    pub sensor_attenuation_rising: u8,
    /// See [`Controller::sensor_attenuation_falling`].
    pub sensor_attenuation_falling: u8,
}

impl View for Controller {
    type V = ControllerModel;

    open spec fn view(&self) -> ControllerModel {
        ControllerModel {
            offset: self.offset,
            length: self.length,
            effect: self.effect@,
            data_source: self.data_source,
            sensor_attenuation_rising: self.sensor_attenuation_rising,
            sensor_attenuation_falling: self.sensor_attenuation_falling,
        }
    }
}

/// The mathematical content of a controller that may be absent.
pub open spec fn controller_model(slot: Option<Controller>) -> Option<ControllerModel> {
    match slot {
        Some(controller) => Some(controller@),
        None => None,
    }
}

/// A slot for a controller takes 70 bytes: offset, length, the selector of
/// the effect, the flags, the data source, the two attenuations, the body of
/// the effect and one reserved byte. With the selector zero the slot is empty:
/// its other bytes are read and there is no controller.
impl Decode for Option<Controller> {
    type Model = Option<ControllerModel>;

    open spec fn model(&self) -> Option<ControllerModel> {
        controller_model(*self)
    }

    open spec fn width() -> nat {
        CONTROLLER_WIDTH as nat
    }

    open spec fn failure(stream: Seq<u8>, at: int, keep: bool) -> Option<Failure> {
        let selector = stream[at + 2];
        let flags = be_u16(stream[at + 3], stream[at + 4]);
        reserved(stream, at, 5).otherwise(Option::<DataSource>::failure(stream, at + 5, keep))
            .otherwise(reserved(stream, at + 7, 2)).otherwise(
            if selector == 0 {
                reserved(stream, at + 9, 61)
            } else {
                effect_failure(stream, at + 9, selector, flags, keep).otherwise(
                    reserved(stream, at + 69, 1),
                )
            },
        )
    }

    open spec fn value(stream: Seq<u8>, at: int) -> Option<ControllerModel> {
        let selector = stream[at + 2];
        let flags = be_u16(stream[at + 3], stream[at + 4]);
        if selector == 0 {
            None
        } else {
            Some(
                ControllerModel {
                    offset: stream[at],
                    length: stream[at + 1],
                    effect: effect_value(stream, at + 9, selector, flags),
                    data_source: Option::<DataSource>::value(stream, at + 5),
                    sensor_attenuation_rising: stream[at + 7],
                    sensor_attenuation_falling: stream[at + 8],
                },
            )
        }
    }

    proof fn lemma_skip_parity(stream: Seq<u8>, at: int) {
        let selector = stream[at + 2];
        let flags = be_u16(stream[at + 3], stream[at + 4]);
        if selector != 0 && effect_failure(stream, at + 9, selector, flags, true) is None {
            lemma_effect_skip_parity(stream, at + 9, selector, flags);
        }
    }

    fn decode<R: Reader>(reader: &mut R) -> (res: Result<GuardOutput<Self>, Error>) {
        let offset = reader.read_u8()?;
        let length = reader.read_u8()?;
        let selector = reader.read_u8()?;
        let flags = reader.read_u16be()?;
        let data_source = Option::<DataSource>::decode(reader)?;
        let sensor_attenuation_rising = reader.read_u8()?;
        let sensor_attenuation_falling = reader.read_u8()?;
        if selector == 0x00 {
            reader.skip::<61>()?;
            return Ok(keep::<R, Option<Controller>>(None));
        }
        let effect = decode_effect(reader, selector, flags)?;
        reader.skip::<1>()?;
        match R::guard() {
            Some(x) => Ok(
                GuardOutput::Value(
                    Some(
                        Controller {
                            offset,
                            length,
                            effect: x.extract(effect),
                            data_source: x.extract(data_source),
                            sensor_attenuation_rising,
                            sensor_attenuation_falling,
                        },
                    ),
                ),
            ),
            None => Ok(GuardOutput::Skipped),
        }
    }
}

/// Lighting related settings.
#[derive(Debug, Clone, PartialEq, Eq)]
pub struct LightingSettings {
    /// Brightness of all effects.
    pub brightness: Brightness,
    /// The controllers of the LED strip at the external connector.
    pub strip_controllers: ArrayVec<Controller, 6>,
    /// The controllers of the LEDs of the sensor itself.
    pub sensor_controllers: ArrayVec<Controller, 2>,
}

/// The mathematical content of [`LightingSettings`].
pub ghost struct LightingModel {
    /// See [`LightingSettings::brightness`].
    pub brightness: Brightness,
    /// See [`LightingSettings::strip_controllers`].
    pub strip_controllers: Seq<ControllerModel>,
    /// See [`LightingSettings::sensor_controllers`].
    pub sensor_controllers: Seq<ControllerModel>,
}

/// The mathematical content of each of `controllers`.
pub open spec fn controller_models(controllers: Seq<Controller>) -> Seq<ControllerModel> {
    Seq::new(controllers.len(), |i: int| controllers[i]@)
}

impl View for LightingSettings {
    type V = LightingModel;

    open spec fn view(&self) -> LightingModel {
        LightingModel {
            brightness: self.brightness,
            strip_controllers: controller_models(controllers6(self.strip_controllers)),
            sensor_controllers: controller_models(controllers2(self.sensor_controllers)),
        }
    }
}

/// The mathematical content of lighting settings that may be absent.
pub open spec fn lighting_model(lighting: Option<LightingSettings>) -> Option<LightingModel> {
    match lighting {
        Some(settings) => Some(settings@),
        None => None,
    }
}

/// The controllers in the first `n` slots from index `at` of `stream` on, in
/// the order of the slots. Empty slots are left out.
pub open spec fn present_controllers(stream: Seq<u8>, at: int, n: nat) -> Seq<ControllerModel>
    decreases n,
{
    if n == 0 {
        Seq::empty()
    } else {
        let before = present_controllers(stream, at, (n - 1) as nat);
        match Option::<Controller>::value(stream, at + (n - 1) * CONTROLLER_WIDTH) {
            Some(controller) => before.push(controller),
            None => before,
        }
    }
}

/// Among `n` slots there are at most `n` controllers.
pub proof fn lemma_present_controllers_len(stream: Seq<u8>, at: int, n: nat)
    ensures
        present_controllers(stream, at, n).len() <= n,
    decreases n,
{
    if n > 0 {
        lemma_present_controllers_len(stream, at, (n - 1) as nat);
    }
}

/// Decodes `n` slots for controllers from `reader` and hands back the
/// controllers of the slots that are not empty, in the order of the slots.
pub fn decode_controllers<R: Reader>(reader: &mut R, n: usize) -> (res: Result<
    GuardOutput<Vec<Controller>>,
    Error,
>)
    ensures
        match res {
            Ok(out) => {
                &&& run_failure::<Option<Controller>>(
                    old(reader).cursor().stream,
                    old(reader).cursor().at(),
                    R::Guard::keeps(),
                    n as nat,
                ) is None
                &&& final(reader).cursor() == old(reader).cursor().advance(
                    (n * CONTROLLER_WIDTH) as nat,
                )
                &&& match out {
                    GuardOutput::Value(controllers) => R::Guard::keeps() && controller_models(
                        controllers@,
                    ) == present_controllers(
                        old(reader).cursor().stream,
                        old(reader).cursor().at(),
                        n as nat,
                    ),
                    GuardOutput::Skipped => !R::Guard::keeps(),
                }
            },
            Err(e) => run_failure::<Option<Controller>>(
                old(reader).cursor().stream,
                old(reader).cursor().at(),
                R::Guard::keeps(),
                n as nat,
            ) == Some(e@),
        },
{
    let ghost stream = reader.cursor().stream;
    let ghost at = reader.cursor().at();
    let ghost before = reader.cursor();
    let mut controllers: Vec<Controller> = Vec::new();
    let mut i: usize = 0;
    while i < n
        invariant
            i <= n,
            before == old(reader).cursor(),
            before.stream == stream,
            before.at() == at,
            reader.cursor() == before.advance((i * CONTROLLER_WIDTH) as nat),
            run_failure::<Option<Controller>>(stream, at, R::Guard::keeps(), i as nat) is None,
            R::Guard::keeps() ==> controller_models(controllers@) == present_controllers(
                stream,
                at,
                i as nat,
            ),
            !R::Guard::keeps() ==> controllers@.len() == 0,
        decreases n - i,
    {
        proof {
            lemma_run_failure_step::<Option<Controller>>(
                stream,
                at,
                R::Guard::keeps(),
                i as nat,
            );
        }
        let slot = match Option::<Controller>::decode(reader) {
            Ok(slot) => slot,
            Err(e) => {
                proof {
                    lemma_run_failure_stops::<Option<Controller>>(
                        stream,
                        at,
                        R::Guard::keeps(),
                        i as nat,
                        n as nat,
                    );
                }
                return Err(e);
            },
        };
        match slot {
            GuardOutput::Value(Some(controller)) => {
                controllers.push(controller);
            },
            _ => {},
        }
        i = i + 1;
    }
    match R::guard() {
        Some(_) => Ok(GuardOutput::Value(controllers)),
        None => Ok(GuardOutput::Skipped),
    }
}

/// The number of bytes that the lighting settings take: four bytes of head
/// and eight slots for controllers.
pub const LIGHTING_WIDTH: usize = 564;

/// The lighting settings take 564 bytes: the brightness, a reserved byte, a
/// byte of flags, a reserved byte, six slots for the controllers of the strip
/// and two slots for the controllers of the sensor. With the bit `0x02` of
/// the flags set the lighting is switched off: the eight slots are skipped
/// and there are no lighting settings.
impl Decode for Option<LightingSettings> {
    type Model = Option<LightingModel>;

    open spec fn model(&self) -> Option<LightingModel> {
        lighting_model(*self)
    }

    open spec fn width() -> nat {
        LIGHTING_WIDTH as nat
    }

    open spec fn failure(stream: Seq<u8>, at: int, keep: bool) -> Option<Failure> {
        Brightness::failure(stream, at, keep).otherwise(reserved(stream, at + 1, 3)).otherwise(
            if stream[at + 2] & 0x02 != 0 {
                run_failure::<Option<Controller>>(stream, at + 4, false, 8)
            } else {
                run_failure::<Option<Controller>>(stream, at + 4, keep, 6).otherwise(
                    run_failure::<Option<Controller>>(stream, at + 424, keep, 2),
                )
            },
        )
    }

    open spec fn value(stream: Seq<u8>, at: int) -> Option<LightingModel> {
        if stream[at + 2] & 0x02 != 0 {
            None
        } else {
            Some(
                LightingModel {
                    brightness: Brightness::value(stream, at),
                    strip_controllers: present_controllers(stream, at + 4, 6),
                    sensor_controllers: present_controllers(stream, at + 424, 2),
                },
            )
        }
    }

    proof fn lemma_skip_parity(stream: Seq<u8>, at: int) {
        if stream[at + 2] & 0x02 == 0 && reserved(stream, at, 4) is None {
            lemma_run_skip_parity::<Option<Controller>>(stream, at + 4, 6);
            if run_failure::<Option<Controller>>(stream, at + 4, true, 6) is None {
                lemma_run_skip_parity::<Option<Controller>>(stream, at + 424, 2);
            }
        }
    }

    fn decode<R: Reader>(reader: &mut R) -> (res: Result<GuardOutput<Self>, Error>) {
        let ghost stream = reader.cursor().stream;
        let ghost at = reader.cursor().at();
        let brightness = Brightness::decode(reader)?;
        reader.skip::<1>()?;
        let flags = reader.read_u8()?;
        reader.skip::<1>()?;
        if flags & 0x02 != 0 {
            <[Option<Controller>; 8]>::skip_bytes(reader)?;
            Ok(keep::<R, Option<LightingSettings>>(None))
        } else {
            let strip_controllers = decode_controllers(reader, 6)?;
            let sensor_controllers = decode_controllers(reader, 2)?;
            match R::guard() {
                Some(x) => {
                    let strip_controllers = x.extract(strip_controllers);
                    let sensor_controllers = x.extract(sensor_controllers);
                    proof {
                        lemma_present_controllers_len(stream, at + 4, 6);
                        lemma_present_controllers_len(stream, at + 424, 2);
                    }
                    Ok(
                        GuardOutput::Value(
                            Some(
                                LightingSettings {
                                    brightness: x.extract(brightness),
                                    strip_controllers: collect_controllers6(strip_controllers),
                                    sensor_controllers: collect_controllers2(sensor_controllers),
                                },
                            ),
                        ),
                    )
                },
                None => Ok(GuardOutput::Skipped),
            }
        }
    }
}

} // verus!
