//! The parts that the lighting effects are made of.

use vstd::prelude::*;

use crate::misc::io::decode::run_failure;
use crate::misc::io::{be_u16, fails_if, invalid, keep, reserved, Checks};
use crate::misc::wrapped::RangeError;
use crate::misc::{
    Decode, Error, Failure, Guard, GuardOutput, Ranged, Reader, ValueVerifier, Wrapped,
};

verus! {

/// A color as the device holds it: hue, saturation and value.
///
/// The hue counts steps of 60/255 degree, so that 255 steps make one of the
/// six sections of the color circle. Saturation and value count steps of
/// 1/255 of the full range.
#[derive(Debug, Clone, Copy, PartialEq, Eq, Structural)]
pub struct Color {
    /// Hue in steps of 60/255 degree.
    pub hue: u16,
    /// Saturation in steps of 1/255.
    pub saturation: u8,
    /// Value in steps of 1/255.
    pub value: u8,
}

impl Color {
    /// The color that the four bytes of the device stand for: the section of
    /// the hue, the place of the hue inside of the section, the saturation and
    /// the value.
    pub open spec fn from_device(section: u8, offset: u8, saturation: u8, value: u8) -> Color {
        Color { hue: (255 * section + offset) as u16, saturation, value }
    }

    /// The section of the color circle in which the hue lies, each of 60
    /// degree. A hue at the end of a section counts as the start of the next.
    pub fn hue_section(&self) -> (section: u16)
        ensures
            section == self.hue / 255,
    {
        self.hue / 255
    }

    /// The place of the hue inside of its section, in steps of 60/255 degree.
    pub fn hue_offset(&self) -> (offset: u16)
        ensures
            offset == self.hue % 255,
    {
        self.hue % 255
    }
}

/// A color takes four bytes: the section of the hue, the place of the hue
/// inside of the section, the saturation and the value.
impl Decode for Color {
    type Model = Color;

    open spec fn model(&self) -> Color {
        *self
    }

    open spec fn width() -> nat {
        4
    }

    open spec fn failure(stream: Seq<u8>, at: int, keep: bool) -> Option<Failure> {
        reserved(stream, at, 4)
    }

    open spec fn value(stream: Seq<u8>, at: int) -> Color {
        Color::from_device(stream[at], stream[at + 1], stream[at + 2], stream[at + 3])
    }

    proof fn lemma_skip_parity(stream: Seq<u8>, at: int) {
    }

    fn decode<R: Reader>(reader: &mut R) -> (res: Result<GuardOutput<Self>, Error>) {
        let section = reader.read_u8()? as u16;
        let offset = reader.read_u8()? as u16;
        let saturation = reader.read_u8()?;
        let value = reader.read_u8()?;
        Ok(keep::<R, Color>(Color { hue: 255 * section + offset, saturation, value }))
    }
}

/// The colors of `n` slots that follow one another from index `at` of
/// `stream`.
pub open spec fn colors_at(stream: Seq<u8>, at: int, n: int) -> Seq<Color> {
    Seq::new(n as nat, |i: int| Color::value(stream, at + 4 * i))
}

/// The smaller of `n` and `limit`.
pub open spec fn at_most(n: int, limit: int) -> int {
    if n < limit {
        n
    } else {
        limit
    }
}

/// Values that need nothing but their bytes fail as a run only for want of
/// bytes.
pub proof fn lemma_run_reserved<T: Decode>(stream: Seq<u8>, at: int, keep: bool, n: nat)
    requires
        at <= stream.len(),
        forall|a: int| #[trigger] T::failure(stream, a, keep) == reserved(stream, a, T::width()),
    ensures
        run_failure::<T>(stream, at, keep, n) == reserved(stream, at, n * T::width()),
    decreases n,
{
    if n == 0 {
        assert(n * T::width() == 0) by (nonlinear_arith)
            requires
                n == 0,
        ;
    } else {
        assert((n - 1) * T::width() + T::width() == n * T::width()) by (nonlinear_arith);
        assert((n - 1) * T::width() >= 0) by (nonlinear_arith)
            requires
                n >= 1,
        ;
        if at + T::width() <= stream.len() {
            lemma_run_reserved::<T>(stream, at + T::width(), keep, (n - 1) as nat);
        }
    }
}

/// Reads `N` colors.
pub fn decode_colors<R: Reader, const N: usize>(reader: &mut R) -> (res: Result<
    GuardOutput<[Color; N]>,
    Error,
>)
    ensures
        match res {
            Ok(out) => {
                &&& old(reader).cursor().available(4 * N as nat)
                &&& final(reader).cursor() == old(reader).cursor().advance(4 * N as nat)
                &&& match out {
                    GuardOutput::Value(colors) => R::Guard::keeps() && colors@ == colors_at(
                        old(reader).cursor().stream,
                        old(reader).cursor().at(),
                        N as int,
                    ),
                    GuardOutput::Skipped => !R::Guard::keeps(),
                }
            },
            Err(e) => !old(reader).cursor().available(4 * N as nat) && e@ == Failure::Io,
        },
{
    proof {
        reader.lemma_within();
        lemma_run_reserved::<Color>(
            reader.cursor().stream,
            reader.cursor().at(),
            R::Guard::keeps(),
            N as nat,
        );
    }
    let out = <[Color; N]>::decode(reader)?;
    proof {
        if let GuardOutput::Value(colors) = out {
            let stream = old(reader).cursor().stream;
            let at = old(reader).cursor().at();
            assert forall|i: int| 0 <= i < N implies colors@[i] == Color::value(
                stream,
                at + 4 * i,
            ) by {
                assert(<[Color; N]>::value(stream, at)[i] == Color::value(stream, at + i * 4));
            }
        }
    }
    Ok(out)
}

/// Reads `N` colors and keeps none of them.
pub fn skip_colors<R: Reader, const N: usize>(reader: &mut R) -> (res: Result<(), Error>)
    ensures
        match res {
            Ok(_) => {
                &&& old(reader).cursor().available(4 * N as nat)
                &&& final(reader).cursor() == old(reader).cursor().advance(4 * N as nat)
            },
            Err(e) => !old(reader).cursor().available(4 * N as nat) && e@ == Failure::Io,
        },
{
    proof {
        reader.lemma_within();
        lemma_run_reserved::<Color>(reader.cursor().stream, reader.cursor().at(), false, N as nat);
    }
    <[Color; N]>::skip_bytes(reader)
}

/// The flag whose only bit is the bit `n`.
pub open spec fn bit(n: int) -> u16 {
    1u16 << n
}

/// The flag whose only bit is the bit `n`.
pub fn flag_bit(n: usize) -> (flag: u16)
    requires
        n < 16,
    ensures
        flag == bit(n as int),
{
    1u16 << n
}

/// Copies the colors from slot `from` on: `count` of them, or all of them
/// where there are fewer.
pub fn take_colors<const N: usize>(colors: &[Color; N], from: usize, count: usize) -> (taken: Vec<
    Color,
>)
    requires
        from <= N,
    ensures
        taken@ == colors@.subrange(from as int, from + at_most(count as int, N - from)),
{
    let mut taken: Vec<Color> = Vec::new();
    let mut i: usize = 0;
    while i < count && i < N - from
        invariant
            from <= N,
            i <= count,
            i <= N - from,
            taken@ == colors@.subrange(from as int, from + i),
        decreases N - from - i,
    {
        taken.push(colors[from + i]);
        i = i + 1;
    }
    taken
}

/// The numbers of `n` slots that follow one another from index `at` of
/// `stream`.
pub open spec fn numbers_at(stream: Seq<u8>, at: int, n: int) -> Seq<u16> {
    Seq::new(n as nat, |i: int| u16::value(stream, at + 2 * i))
}

/// Reads `N` numbers.
pub fn decode_numbers<R: Reader, const N: usize>(reader: &mut R) -> (res: Result<
    GuardOutput<[u16; N]>,
    Error,
>)
    ensures
        match res {
            Ok(out) => {
                &&& old(reader).cursor().available(2 * N as nat)
                &&& final(reader).cursor() == old(reader).cursor().advance(2 * N as nat)
                &&& match out {
                    GuardOutput::Value(numbers) => R::Guard::keeps() && numbers@ == numbers_at(
                        old(reader).cursor().stream,
                        old(reader).cursor().at(),
                        N as int,
                    ),
                    GuardOutput::Skipped => !R::Guard::keeps(),
                }
            },
            Err(e) => !old(reader).cursor().available(2 * N as nat) && e@ == Failure::Io,
        },
{
    proof {
        reader.lemma_within();
        lemma_run_reserved::<u16>(
            reader.cursor().stream,
            reader.cursor().at(),
            R::Guard::keeps(),
            N as nat,
        );
    }
    let out = <[u16; N]>::decode(reader)?;
    proof {
        if let GuardOutput::Value(numbers) = out {
            let stream = old(reader).cursor().stream;
            let at = old(reader).cursor().at();
            assert forall|i: int| 0 <= i < N implies numbers@[i] == u16::value(
                stream,
                at + 2 * i,
            ) by {
                assert(<[u16; N]>::value(stream, at)[i] == u16::value(stream, at + i * 2));
            }
        }
    }
    Ok(out)
}

/// Maps a range of an input signal onto a range of a parameter of an effect.
#[derive(Debug, Clone, Copy, PartialEq, Eq, Structural)]
pub struct SourceControl {
    /// The input that maps onto `output_min`.
    pub input_min: u16,
    /// The input that maps onto `output_max`.
    pub input_max: u16,
    /// The smallest value of the parameter.
    pub output_min: u8,
    /// The largest value of the parameter.
    pub output_max: u8,
}

/// A source control takes six bytes: the two inputs and the two outputs.
impl Decode for SourceControl {
    type Model = SourceControl;

    open spec fn model(&self) -> SourceControl {
        *self
    }

    open spec fn width() -> nat {
        6
    }

    open spec fn failure(stream: Seq<u8>, at: int, keep: bool) -> Option<Failure> {
        reserved(stream, at, 6)
    }

    open spec fn value(stream: Seq<u8>, at: int) -> SourceControl {
        SourceControl {
            input_min: be_u16(stream[at], stream[at + 1]),
            input_max: be_u16(stream[at + 2], stream[at + 3]),
            output_min: stream[at + 4],
            output_max: stream[at + 5],
        }
    }

    proof fn lemma_skip_parity(stream: Seq<u8>, at: int) {
    }

    fn decode<R: Reader>(reader: &mut R) -> (res: Result<GuardOutput<Self>, Error>) {
        let input_min = reader.read_u16be()?;
        let input_max = reader.read_u16be()?;
        let output_min = reader.read_u8()?;
        let output_max = reader.read_u8()?;
        Ok(keep::<R, SourceControl>(SourceControl { input_min, input_max, output_min, output_max }))
    }
}

/// The source control at index `at` of `stream`, where `present` says that
/// there is one.
pub open spec fn source_control_at(stream: Seq<u8>, at: int, present: bool) -> Option<
    SourceControl,
> {
    if present {
        Some(SourceControl::value(stream, at))
    } else {
        None
    }
}

/// The signal that drives an effect.
#[derive(Debug, Clone, Copy, PartialEq, Eq, Structural)]
pub enum DataSource {
    /// The flow.
    Flow,
    /// The water temperature.
    WaterTemperature,
    /// The external temperature.
    ExternalTemperature,
    /// The conductivity of the coolant.
    Conductivity,
    /// The water quality.
    WaterQuality,
    /// The power.
    Power,
    /// The sound level.
    Sound,
    /// Software sensor 1.
    SoftwareSensor1,
    /// Software sensor 2.
    SoftwareSensor2,
    /// Software sensor 3.
    SoftwareSensor3,
    /// Software sensor 4.
    SoftwareSensor4,
    /// Software sensor 5.
    SoftwareSensor5,
    /// Software sensor 6.
    SoftwareSensor6,
    /// Software sensor 7.
    SoftwareSensor7,
    /// Software sensor 8.
    SoftwareSensor8,
}

/// The value that the code `code` selects, if it selects one.
pub open spec fn data_source_of(code: int) -> Option<Option<DataSource>> {
        if code == 0x0000 {
            Some(Some(DataSource::Flow))
        } else if code == 0x0001 {
            Some(Some(DataSource::WaterTemperature))
        } else if code == 0x0002 {
            Some(Some(DataSource::ExternalTemperature))
        } else if code == 0x0003 {
            Some(Some(DataSource::Conductivity))
        } else if code == 0x0004 {
            Some(Some(DataSource::WaterQuality))
        } else if code == 0x0005 {
            Some(Some(DataSource::Power))
        } else if code == 0x0006 {
            Some(Some(DataSource::SoftwareSensor1))
        } else if code == 0x0007 {
            Some(Some(DataSource::SoftwareSensor2))
        } else if code == 0x0008 {
            Some(Some(DataSource::SoftwareSensor3))
        } else if code == 0x0009 {
            Some(Some(DataSource::SoftwareSensor4))
        } else if code == 0x000A {
            Some(Some(DataSource::SoftwareSensor5))
        } else if code == 0x000B {
            Some(Some(DataSource::SoftwareSensor6))
        } else if code == 0x000C {
            Some(Some(DataSource::SoftwareSensor7))
        } else if code == 0x000D {
            Some(Some(DataSource::SoftwareSensor8))
        } else if code == 0x001C {
            Some(Some(DataSource::Sound))
        } else if code == 0xFFFF {
            Some(None)
        } else {
            None
        }
}

/// An optional value takes two bytes, and a code that selects nothing is
/// reported under the name `DataSource` in either mode.
impl Decode for Option<DataSource> {
    type Model = Option<DataSource>;

    open spec fn model(&self) -> Option<DataSource> {
        *self
    }

    open spec fn width() -> nat {
        2
    }

    open spec fn failure(stream: Seq<u8>, at: int, keep: bool) -> Option<Failure> {
        reserved(stream, at, 2).otherwise(
            fails_if(
                data_source_of(be_u16(stream[at], stream[at + 1]) as int) is None,
                invalid("DataSource", be_u16(stream[at], stream[at + 1]) as int),
            ),
        )
    }

    open spec fn value(stream: Seq<u8>, at: int) -> Option<DataSource> {
        data_source_of(be_u16(stream[at], stream[at + 1]) as int).unwrap()
    }

    proof fn lemma_skip_parity(stream: Seq<u8>, at: int) {
    }

    fn decode<R: Reader>(reader: &mut R) -> (res: Result<GuardOutput<Self>, Error>) {
        match reader.read_u16be()? {
            0x0000 => Ok(keep::<R, Option<DataSource>>(Some(DataSource::Flow))),
            0x0001 => Ok(keep::<R, Option<DataSource>>(Some(DataSource::WaterTemperature))),
            0x0002 => Ok(keep::<R, Option<DataSource>>(Some(DataSource::ExternalTemperature))),
            0x0003 => Ok(keep::<R, Option<DataSource>>(Some(DataSource::Conductivity))),
            0x0004 => Ok(keep::<R, Option<DataSource>>(Some(DataSource::WaterQuality))),
            0x0005 => Ok(keep::<R, Option<DataSource>>(Some(DataSource::Power))),
            0x0006 => Ok(keep::<R, Option<DataSource>>(Some(DataSource::SoftwareSensor1))),
            0x0007 => Ok(keep::<R, Option<DataSource>>(Some(DataSource::SoftwareSensor2))),
            0x0008 => Ok(keep::<R, Option<DataSource>>(Some(DataSource::SoftwareSensor3))),
            0x0009 => Ok(keep::<R, Option<DataSource>>(Some(DataSource::SoftwareSensor4))),
            0x000A => Ok(keep::<R, Option<DataSource>>(Some(DataSource::SoftwareSensor5))),
            0x000B => Ok(keep::<R, Option<DataSource>>(Some(DataSource::SoftwareSensor6))),
            0x000C => Ok(keep::<R, Option<DataSource>>(Some(DataSource::SoftwareSensor7))),
            0x000D => Ok(keep::<R, Option<DataSource>>(Some(DataSource::SoftwareSensor8))),
            0x001C => Ok(keep::<R, Option<DataSource>>(Some(DataSource::Sound))),
            0xFFFF => Ok(keep::<R, Option<DataSource>>(None)),
            x => Err(Error::InvalidValue("DataSource", x as usize)),
        }
    }
}

/// The direction in which an effect follows the sound.
#[derive(Debug, Clone, Copy, PartialEq, Eq, Structural)]
pub enum SoundEffect {
    /// From the center outwards.
    OutwardsFromCenter,
    /// Towards the center, in the pattern A.
    InwardsToCenterA,
    /// Towards the center, in the pattern B.
    InwardsToCenterB,
    /// From the left.
    FromLeft,
    /// From the right.
    FromRight,
    /// All LEDs at once.
    AllLEDs,
}

/// The value that the code `code` selects, if it selects one.
pub open spec fn sound_effect_of(code: int) -> Option<SoundEffect> {
        if code == 0x0000 {
            Some(SoundEffect::OutwardsFromCenter)
        } else if code == 0x0001 {
            Some(SoundEffect::InwardsToCenterA)
        } else if code == 0x0002 {
            Some(SoundEffect::InwardsToCenterB)
        } else if code == 0x0003 {
            Some(SoundEffect::FromLeft)
        } else if code == 0x0004 {
            Some(SoundEffect::FromRight)
        } else if code == 0x0005 {
            Some(SoundEffect::AllLEDs)
        } else {
            None
        }
}

/// The selector takes two bytes, and a code that selects nothing is
/// reported under the name `SoundEffect` in either mode.
impl Decode for SoundEffect {
    type Model = SoundEffect;

    open spec fn model(&self) -> SoundEffect {
        *self
    }

    open spec fn width() -> nat {
        2
    }

    open spec fn failure(stream: Seq<u8>, at: int, keep: bool) -> Option<Failure> {
        reserved(stream, at, 2).otherwise(
            fails_if(
                sound_effect_of(be_u16(stream[at], stream[at + 1]) as int) is None,
                invalid("SoundEffect", be_u16(stream[at], stream[at + 1]) as int),
            ),
        )
    }

    open spec fn value(stream: Seq<u8>, at: int) -> SoundEffect {
        sound_effect_of(be_u16(stream[at], stream[at + 1]) as int).unwrap()
    }

    proof fn lemma_skip_parity(stream: Seq<u8>, at: int) {
    }

    fn decode<R: Reader>(reader: &mut R) -> (res: Result<GuardOutput<Self>, Error>) {
        match reader.read_u16be()? {
            0x0000 => Ok(keep::<R, SoundEffect>(SoundEffect::OutwardsFromCenter)),
            0x0001 => Ok(keep::<R, SoundEffect>(SoundEffect::InwardsToCenterA)),
            0x0002 => Ok(keep::<R, SoundEffect>(SoundEffect::InwardsToCenterB)),
            0x0003 => Ok(keep::<R, SoundEffect>(SoundEffect::FromLeft)),
            0x0004 => Ok(keep::<R, SoundEffect>(SoundEffect::FromRight)),
            0x0005 => Ok(keep::<R, SoundEffect>(SoundEffect::AllLEDs)),
            x => Err(Error::InvalidValue("SoundEffect", x as usize)),
        }
    }
}

/// Brightness of all effects. Every `u8` is a brightness.
pub type Brightness = Wrapped<u8, BrightnessTag>;

/// The domain of [`Brightness`].
#[derive(Debug, Clone, Copy, PartialEq, Eq, PartialOrd, Ord)]
pub struct BrightnessTag;

impl ValueVerifier<u8> for BrightnessTag {
    open spec fn accepts(value: u8) -> bool {
        true
    }

    open spec fn refusal(value: u8) -> RangeError<u8> {
        RangeError { min: 0, max: 255, val: value }
    }

    fn verify(value: u8) -> (checked: Result<u8, RangeError<u8>>) {
        Ok(value)
    }
}

/// A share, as of the speed or the intensity of an effect.
///
/// Valid value range: 0..=100 in percent
pub type EffectPercent = Wrapped<u16, EffectPercentTag>;

/// The domain of [`EffectPercent`].
#[derive(Debug, Clone, Copy, PartialEq, Eq, PartialOrd, Ord)]
pub struct EffectPercentTag;

impl Ranged<u16> for EffectPercentTag {
    open spec fn lower() -> u16 {
        0
    }

    open spec fn upper() -> u16 {
        100
    }

    fn min_inclusive() -> (min: u16) {
        0
    }

    fn max_inclusive() -> (max: u16) {
        100
    }
}

/// A delay inside of an effect.
///
/// Valid value range: 0..=100
pub type EffectDelay = Wrapped<u16, EffectDelayTag>;

/// The domain of [`EffectDelay`].
#[derive(Debug, Clone, Copy, PartialEq, Eq, PartialOrd, Ord)]
pub struct EffectDelayTag;

impl Ranged<u16> for EffectDelayTag {
    open spec fn lower() -> u16 {
        0
    }

    open spec fn upper() -> u16 {
        100
    }

    fn min_inclusive() -> (min: u16) {
        0
    }

    fn max_inclusive() -> (max: u16) {
        100
    }
}

/// A width or a strength inside of an effect.
///
/// Valid value range: 1..=100
pub type EffectWidth = Wrapped<u16, EffectWidthTag>;

/// The domain of [`EffectWidth`].
#[derive(Debug, Clone, Copy, PartialEq, Eq, PartialOrd, Ord)]
pub struct EffectWidthTag;

impl Ranged<u16> for EffectWidthTag {
    open spec fn lower() -> u16 {
        1
    }

    open spec fn upper() -> u16 {
        100
    }

    fn min_inclusive() -> (min: u16) {
        1
    }

    fn max_inclusive() -> (max: u16) {
        100
    }
}

/// The number of drops of the rain effect.
///
/// Valid value range: 1..=4
pub type RainItems = Wrapped<u16, RainItemsTag>;

/// The domain of [`RainItems`].
#[derive(Debug, Clone, Copy, PartialEq, Eq, PartialOrd, Ord)]
pub struct RainItemsTag;

impl Ranged<u16> for RainItemsTag {
    open spec fn lower() -> u16 {
        1
    }

    open spec fn upper() -> u16 {
        4
    }

    fn min_inclusive() -> (min: u16) {
        1
    }

    fn max_inclusive() -> (max: u16) {
        4
    }
}

/// The speed of an effect that follows the sound.
///
/// Valid value range: 1..=10
pub type SoundEffectSpeed = Wrapped<u16, SoundEffectSpeedTag>;

/// The domain of [`SoundEffectSpeed`].
#[derive(Debug, Clone, Copy, PartialEq, Eq, PartialOrd, Ord)]
pub struct SoundEffectSpeedTag;

impl Ranged<u16> for SoundEffectSpeedTag {
    open spec fn lower() -> u16 {
        1
    }

    open spec fn upper() -> u16 {
        10
    }

    fn min_inclusive() -> (min: u16) {
        1
    }

    fn max_inclusive() -> (max: u16) {
        10
    }
}

} // verus!
