//! Decoding of values from a reader.

use vstd::prelude::*;

use super::error::{Error, Failure};
use super::reader::{be_i16, be_u16, Guard, GuardOutput, Reader, SkipReader};

verus! {

/// Chains the checks of the parts of a value in the order of their bytes.
pub trait Checks: Sized {
    /// The failure of `self`, and that of `next` where `self` has none.
    spec fn otherwise(self, next: Self) -> Self;
}

impl Checks for Option<Failure> {
    open spec fn otherwise(self, next: Option<Failure>) -> Option<Failure> {
        if self is Some {
            self
        } else {
            next
        }
    }
}

/// The failure `failure` where `failed` holds, and none where it does not.
pub open spec fn fails_if(failed: bool, failure: Failure) -> Option<Failure> {
    if failed {
        Some(failure)
    } else {
        None
    }
}

/// Whether one of the bits of `flag` is set in `flags`.
pub open spec fn has_flag(flags: u16, flag: u16) -> bool {
    flags & flag != 0
}

/// Tells whether one of the bits of `flag` is set in `flags`.
pub fn flag_set(flags: u16, flag: u16) -> (set: bool)
    ensures
        set == has_flag(flags, flag),
{
    flags & flag != 0
}

/// The failure of reading `n` bytes at index `at` of `stream`, whose values
/// do not matter.
pub open spec fn reserved(stream: Seq<u8>, at: int, n: nat) -> Option<Failure> {
    if at + n > stream.len() {
        Some(Failure::Io)
    } else {
        None
    }
}

/// The failure that reports `value` as none of the known values of the field
/// `name`.
pub open spec fn invalid(name: &str, value: int) -> Failure {
    Failure::InvalidValue { name: name@, value }
}

/// A type whose values are decoded from a fixed number of bytes.
///
/// The same rule serves both modes. In the mode that skips, a decoder reads
/// the same bytes and checks the selectors, but neither checks ranges nor keeps
/// anything.
pub trait Decode: Sized {
    /// The mathematical content of a value.
    type Model;

    /// The mathematical content of `self`.
    spec fn model(&self) -> Self::Model;

    /// The number of bytes that a value takes.
    spec fn width() -> nat;

    /// The failure of decoding the bytes at index `at` of `stream`, if they do
    /// not decode: the first check to fail in the order of the bytes, where
    /// running out of bytes counts at the place of the missing byte. With
    /// `keep` unset only the checks of the mode that skips are made.
    spec fn failure(stream: Seq<u8>, at: int, keep: bool) -> Option<Failure>;

    /// The value that the bytes at index `at` of `stream` stand for, where
    /// they decode.
    spec fn value(stream: Seq<u8>, at: int) -> Self::Model;

    /// Bytes that decode in the mode that keeps values also pass in the mode
    /// that skips.
    proof fn lemma_skip_parity(stream: Seq<u8>, at: int)
        requires
            Self::failure(stream, at, true) is None,
        ensures
            Self::failure(stream, at, false) is None,
    ;

    /// Decodes one value from the next bytes of `reader`.
    ///
    /// Succeeds exactly where [`Decode::failure`] finds nothing to report.
    /// It then has read [`Decode::width`] bytes, in either mode, and hands
    /// back [`Decode::value`] in the mode that keeps values. Where it fails,
    /// the reader stands at a place that is not determined.
    fn decode<R: Reader>(reader: &mut R) -> (res: Result<GuardOutput<Self>, Error>)
        ensures
            match res {
                Ok(out) => {
                    &&& Self::failure(
                        old(reader).cursor().stream,
                        old(reader).cursor().at(),
                        R::Guard::keeps(),
                    ) is None
                    &&& final(reader).cursor() == old(reader).cursor().advance(Self::width())
                    &&& match out {
                        GuardOutput::Value(v) => R::Guard::keeps() && v.model() == Self::value(
                            old(reader).cursor().stream,
                            old(reader).cursor().at(),
                        ),
                        GuardOutput::Skipped => !R::Guard::keeps(),
                    }
                },
                Err(e) => Self::failure(
                    old(reader).cursor().stream,
                    old(reader).cursor().at(),
                    R::Guard::keeps(),
                ) == Some(e@),
            },
    ;

    /// Decodes a value that is present only if `read` is set.
    ///
    /// With `read` set this is [`Decode::decode`]. With `read` unset the bytes
    /// of the value are skipped and the result is `None`: the same number of
    /// bytes is read either way.
    fn decode_opt<R: Reader>(reader: &mut R, read: bool) -> (res: Result<
        GuardOutput<Option<Self>>,
        Error,
    >)
        ensures
            match res {
                Ok(out) => {
                    &&& Self::failure(
                        old(reader).cursor().stream,
                        old(reader).cursor().at(),
                        read && R::Guard::keeps(),
                    ) is None
                    &&& final(reader).cursor() == old(reader).cursor().advance(Self::width())
                    &&& match out {
                        GuardOutput::Value(Some(v)) => R::Guard::keeps() && read && v.model()
                            == Self::value(old(reader).cursor().stream, old(reader).cursor().at()),
                        GuardOutput::Value(None) => R::Guard::keeps() && !read,
                        GuardOutput::Skipped => !R::Guard::keeps(),
                    }
                },
                Err(e) => Self::failure(
                    old(reader).cursor().stream,
                    old(reader).cursor().at(),
                    read && R::Guard::keeps(),
                ) == Some(e@),
            },
    {
        if read {
            let val = Self::decode(reader)?;
            match R::guard() {
                Some(x) => Ok(GuardOutput::Value(Some(x.extract(val)))),
                None => Ok(GuardOutput::Skipped),
            }
        } else {
            Self::skip_bytes(reader)?;
            match R::guard() {
                Some(_) => Ok(GuardOutput::Value(None)),
                None => Ok(GuardOutput::Skipped),
            }
        }
    }

    /// Reads the bytes of one value and keeps nothing: [`Decode::decode`] in
    /// the mode that skips.
    fn skip_bytes<R: Reader>(reader: &mut R) -> (res: Result<(), Error>)
        ensures
            match res {
                Ok(_) => {
                    &&& Self::failure(
                        old(reader).cursor().stream,
                        old(reader).cursor().at(),
                        false,
                    ) is None
                    &&& final(reader).cursor() == old(reader).cursor().advance(Self::width())
                },
                Err(e) => Self::failure(
                    old(reader).cursor().stream,
                    old(reader).cursor().at(),
                    false,
                ) == Some(e@),
            },
    {
        let mut skip = SkipReader(*reader);
        let res = Self::decode(&mut skip);
        *reader = skip.0;
        match res {
            Ok(_) => Ok(()),
            Err(e) => Err(e),
        }
    }
}

/// The output that holds `value` in the mode of `R`.
pub fn keep<R: Reader, T>(value: T) -> (out: GuardOutput<T>)
    ensures
        out == (if R::Guard::keeps() {
            GuardOutput::Value(value)
        } else {
            GuardOutput::Skipped
        }),
{
    match R::guard() {
        Some(_) => GuardOutput::Value(value),
        None => GuardOutput::Skipped,
    }
}

impl Decode for u8 {
    type Model = u8;

    open spec fn model(&self) -> u8 {
        *self
    }

    open spec fn width() -> nat {
        1
    }

    open spec fn failure(stream: Seq<u8>, at: int, keep: bool) -> Option<Failure> {
        reserved(stream, at, 1)
    }

    open spec fn value(stream: Seq<u8>, at: int) -> u8 {
        stream[at]
    }

    proof fn lemma_skip_parity(stream: Seq<u8>, at: int) {
    }

    fn decode<R: Reader>(reader: &mut R) -> (res: Result<GuardOutput<Self>, Error>) {
        let value = reader.read_u8()?;
        Ok(keep::<R, u8>(value))
    }
}

impl Decode for u16 {
    type Model = u16;

    open spec fn model(&self) -> u16 {
        *self
    }

    open spec fn width() -> nat {
        2
    }

    open spec fn failure(stream: Seq<u8>, at: int, keep: bool) -> Option<Failure> {
        reserved(stream, at, 2)
    }

    open spec fn value(stream: Seq<u8>, at: int) -> u16 {
        be_u16(stream[at], stream[at + 1])
    }

    proof fn lemma_skip_parity(stream: Seq<u8>, at: int) {
    }

    fn decode<R: Reader>(reader: &mut R) -> (res: Result<GuardOutput<Self>, Error>) {
        let value = reader.read_u16be()?;
        Ok(keep::<R, u16>(value))
    }
}

impl Decode for i16 {
    type Model = i16;

    open spec fn model(&self) -> i16 {
        *self
    }

    open spec fn width() -> nat {
        2
    }

    open spec fn failure(stream: Seq<u8>, at: int, keep: bool) -> Option<Failure> {
        reserved(stream, at, 2)
    }

    open spec fn value(stream: Seq<u8>, at: int) -> i16 {
        be_i16(stream[at], stream[at + 1])
    }

    proof fn lemma_skip_parity(stream: Seq<u8>, at: int) {
    }

    fn decode<R: Reader>(reader: &mut R) -> (res: Result<GuardOutput<Self>, Error>) {
        let value = reader.read_i16be()?;
        Ok(keep::<R, i16>(value))
    }
}

/// The first failure among `n` values of type `T` that follow one another
/// from index `at` of `stream`.
pub open spec fn run_failure<T: Decode>(stream: Seq<u8>, at: int, keep: bool, n: nat) -> Option<
    Failure,
>
    decreases n,
{
    if n == 0 {
        None
    } else {
        T::failure(stream, at, keep).otherwise(
            run_failure::<T>(stream, at + T::width(), keep, (n - 1) as nat),
        )
    }
}

/// The `n` values of type `T` that follow one another from index `at` of
/// `stream`.
pub open spec fn run_value<T: Decode>(stream: Seq<u8>, at: int, n: nat) -> Seq<T::Model> {
    Seq::new(n, |i: int| T::value(stream, at + i * T::width()))
}

/// A run fails where its first values pass and the value after them fails,
/// and passes as a whole where it has passed so far and the last value passes.
pub proof fn lemma_run_failure_step<T: Decode>(stream: Seq<u8>, at: int, keep: bool, n: nat)
    requires
        run_failure::<T>(stream, at, keep, n) is None,
    ensures
        run_failure::<T>(stream, at, keep, n + 1) == T::failure(
            stream,
            at + n * T::width(),
            keep,
        ),
    decreases n,
{
    if n == 0 {
        assert(run_failure::<T>(stream, at + T::width(), keep, 0) is None);
    } else {
        lemma_run_failure_step::<T>(stream, at + T::width(), keep, (n - 1) as nat);
        assert(at + T::width() + (n - 1) * T::width() == at + n * T::width()) by (nonlinear_arith);
    }
}

/// A run fails with the failure of the first of its values that fails.
pub proof fn lemma_run_failure_stops<T: Decode>(
    stream: Seq<u8>,
    at: int,
    keep: bool,
    i: nat,
    n: nat,
)
    requires
        i < n,
        run_failure::<T>(stream, at, keep, i) is None,
        T::failure(stream, at + i * T::width(), keep) is Some,
    ensures
        run_failure::<T>(stream, at, keep, n) == T::failure(stream, at + i * T::width(), keep),
    decreases i,
{
    if i == 0 {
        assert(at + 0 * T::width() == at);
    } else {
        assert(at + T::width() + (i - 1) * T::width() == at + i * T::width()) by (nonlinear_arith);
        lemma_run_failure_stops::<T>(
            stream,
            at + T::width(),
            keep,
            (i - 1) as nat,
            (n - 1) as nat,
        );
    }
}

/// A run that passes in the mode that keeps values passes in the mode that
/// skips.
pub proof fn lemma_run_skip_parity<T: Decode>(stream: Seq<u8>, at: int, n: nat)
    requires
        run_failure::<T>(stream, at, true, n) is None,
    ensures
        run_failure::<T>(stream, at, false, n) is None,
    decreases n,
{
    if n > 0 {
        T::lemma_skip_parity(stream, at);
        lemma_run_skip_parity::<T>(stream, at + T::width(), (n - 1) as nat);
    }
}

/// Calls `<[T; N]>::try_from` on a `Vec<T>`, which std documents to give the
/// elements of the vector as an array if the vector has exactly `N` of them.
#[verifier::external_body]
fn into_array<T, const N: usize>(items: Vec<T>) -> (array: [T; N])
    requires
        items@.len() == N,
    ensures
        array@ == items@,
{
    <[T; N]>::try_from(items).ok().unwrap()
}

/// An array of `N` values takes the bytes of `N` values, one after another.
impl<T: Decode, const N: usize> Decode for [T; N] {
    type Model = Seq<T::Model>;

    open spec fn model(&self) -> Seq<T::Model> {
        Seq::new(N as nat, |i: int| self@[i].model())
    }

    open spec fn width() -> nat {
        (N * T::width()) as nat
    }

    open spec fn failure(stream: Seq<u8>, at: int, keep: bool) -> Option<Failure> {
        run_failure::<T>(stream, at, keep, N as nat)
    }

    open spec fn value(stream: Seq<u8>, at: int) -> Seq<T::Model> {
        run_value::<T>(stream, at, N as nat)
    }

    proof fn lemma_skip_parity(stream: Seq<u8>, at: int) {
        lemma_run_skip_parity::<T>(stream, at, N as nat);
    }

    fn decode<R: Reader>(reader: &mut R) -> (res: Result<GuardOutput<Self>, Error>) {
        let ghost stream = reader.cursor().stream;
        let ghost at = reader.cursor().at();
        let ghost before = reader.cursor();
        let mut data: Vec<T> = Vec::new();
        let mut i: usize = 0;
        while i < N
            invariant
                i <= N,
                reader.cursor() == before.advance((i * T::width()) as nat),
                before == old(reader).cursor(),
                before.stream == stream,
                before.at() == at,
                run_failure::<T>(stream, at, R::Guard::keeps(), i as nat) is None,
                data@.len() == (if R::Guard::keeps() {
                    i
                } else {
                    0
                }),
                forall|k: int|
                    0 <= k < data@.len() ==> (#[trigger] data@[k]).model() == T::value(
                        stream,
                        at + k * T::width(),
                    ),
            decreases N - i,
        {
            proof {
                lemma_run_failure_step::<T>(stream, at, R::Guard::keeps(), i as nat);
                assert(i * T::width() + T::width() == (i + 1) * T::width()) by (nonlinear_arith);
            }
            let item = match T::decode(reader) {
                Ok(item) => item,
                Err(e) => {
                    proof {
                        lemma_run_failure_stops::<T>(
                            stream,
                            at,
                            R::Guard::keeps(),
                            i as nat,
                            N as nat,
                        );
                    }
                    return Err(e);
                },
            };
            match R::guard() {
                Some(x) => {
                    data.push(x.extract(item));
                },
                None => {},
            }
            i = i + 1;
        }
        match R::guard() {
            Some(_) => {
                let array: [T; N] = into_array(data);
                assert(array.model() =~= Self::value(stream, at));
                Ok(GuardOutput::Value(array))
            },
            None => Ok(GuardOutput::Skipped),
        }
    }
}

} // verus!
