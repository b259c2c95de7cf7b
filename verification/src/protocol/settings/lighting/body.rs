//! The shape that all effects share.

use vstd::prelude::*;

use crate::misc::{Error, Failure, Guard, GuardOutput, Reader};

verus! {

/// The number of bytes that the body of an effect takes.
pub const BODY_WIDTH: usize = 60;

/// The values of one effect, which are decoded from the 60 bytes that follow
/// the head of a controller.
///
/// The flags of the head decide which of the two source controls at the start
/// of the body are present, and hold the switches of the effect.
pub trait EffectBody: Sized {
    /// The mathematical content of the values.
    type Model;

    /// The mathematical content of `self`.
    spec fn model(&self) -> Self::Model;

    /// The failure of decoding the body at index `at` of `stream`, if it does
    /// not decode: the first check to fail in the order of the bytes.
    spec fn failure(stream: Seq<u8>, at: int, flags: u16, keep: bool) -> Option<Failure>;

    /// The values that the body at index `at` of `stream` stands for under
    /// the flags `flags`, where it decodes.
    spec fn value(stream: Seq<u8>, at: int, flags: u16) -> Self::Model;

    /// A body that decodes in the mode that keeps values also passes in the
    /// mode that skips.
    proof fn lemma_skip_parity(stream: Seq<u8>, at: int, flags: u16)
        requires
            Self::failure(stream, at, flags, true) is None,
        ensures
            Self::failure(stream, at, flags, false) is None,
    ;

    /// Decodes the body of an effect from the next 60 bytes of `reader`.
    ///
    /// Succeeds exactly where [`EffectBody::failure`] finds nothing to
    /// report. It then has read 60 bytes, in either mode, and hands back
    /// [`EffectBody::value`] in the mode that keeps values.
    fn decode<R: Reader>(reader: &mut R, flags: u16) -> (res: Result<GuardOutput<Self>, Error>)
        ensures
            match res {
                Ok(out) => {
                    &&& Self::failure(
                        old(reader).cursor().stream,
                        old(reader).cursor().at(),
                        flags,
                        R::Guard::keeps(),
                    ) is None
                    &&& final(reader).cursor() == old(reader).cursor().advance(BODY_WIDTH as nat)
                    &&& match out {
                        GuardOutput::Value(v) => R::Guard::keeps() && v.model() == Self::value(
                            old(reader).cursor().stream,
                            old(reader).cursor().at(),
                            flags,
                        ),
                        GuardOutput::Skipped => !R::Guard::keeps(),
                    }
                },
                Err(e) => Self::failure(
                    old(reader).cursor().stream,
                    old(reader).cursor().at(),
                    flags,
                    R::Guard::keeps(),
                ) == Some(e@),
            },
    ;
}

} // verus!
