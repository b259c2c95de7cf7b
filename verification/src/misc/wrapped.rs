//! Numbers that are known to lie in the range of their domain.

use core::marker::PhantomData;
use core::ops::Deref;
use vstd::prelude::*;
use vstd::string::StringExecFns;

use crate::misc::io::{
    be_i16, be_u16, fails_if, reserved, Checks, Decode, Error, Failure, GuardOutput, Reader,
};

verus! {

/// An integer as the device sends it: `u8`, `u16` or `i16`.
pub trait Scalar: Copy + Sized {
    /// The number that `self` stands for.
    spec fn as_int(self) -> int;

    /// The same number as an `i32`, which holds every value of the three types.
    fn widen(self) -> (wide: i32)
        ensures
            wide == self.as_int(),
    ;
}

impl Scalar for u8 {
    open spec fn as_int(self) -> int {
        self as int
    }

    fn widen(self) -> (wide: i32) {
        self as i32
    }
}

impl Scalar for u16 {
    open spec fn as_int(self) -> int {
        self as int
    }

    fn widen(self) -> (wide: i32) {
        self as i32
    }
}

impl Scalar for i16 {
    open spec fn as_int(self) -> int {
        self as int
    }

    fn widen(self) -> (wide: i32) {
        self as i32
    }
}

/// The decimal digit that stands for `d`, for `d` below ten.
pub open spec fn digit_char(d: nat) -> char {
    if d == 0 {
        '0'
    } else if d == 1 {
        '1'
    } else if d == 2 {
        '2'
    } else if d == 3 {
        '3'
    } else if d == 4 {
        '4'
    } else if d == 5 {
        '5'
    } else if d == 6 {
        '6'
    } else if d == 7 {
        '7'
    } else if d == 8 {
        '8'
    } else {
        '9'
    }
}

/// The decimal digits of `n`, most significant first, without leading zeros.
pub open spec fn decimal_digits(n: nat) -> Seq<char>
    decreases n,
{
    if n < 10 {
        seq![digit_char(n)]
    } else {
        decimal_digits(n / 10).push(digit_char(n % 10))
    }
}

/// The decimal text of `n`, with a minus sign in front of a negative number.
pub open spec fn decimal_text(n: int) -> Seq<char> {
    if n < 0 {
        seq!['-'] + decimal_digits((-n) as nat)
    } else {
        decimal_digits(n as nat)
    }
}

/// The text of one decimal digit.
fn digit_text(d: u32) -> (text: &'static str)
    requires
        d < 10,
    ensures
        text@ == seq![digit_char(d as nat)],
{
    proof {
        reveal_strlit("0");
        reveal_strlit("1");
        reveal_strlit("2");
        reveal_strlit("3");
        reveal_strlit("4");
        reveal_strlit("5");
        reveal_strlit("6");
        reveal_strlit("7");
        reveal_strlit("8");
        reveal_strlit("9");
    }
    let text = match d {
        0 => "0",
        1 => "1",
        2 => "2",
        3 => "3",
        4 => "4",
        5 => "5",
        6 => "6",
        7 => "7",
        8 => "8",
        _ => "9",
    };
    text
}

/// Writes the decimal digits of `n` behind `text`.
fn push_digits(text: &mut String, n: u32)
    ensures
        final(text)@ == old(text)@ + decimal_digits(n as nat),
    decreases n,
{
    if n >= 10 {
        push_digits(text, n / 10);
    }
    text.append(digit_text(n % 10));
}

/// The decimal text of `n`.
fn decimal(n: i32) -> (text: String)
    ensures
        text@ == decimal_text(n as int),
{
    let mut text = String::new();
    if n < 0 {
        proof {
            reveal_strlit("-");
        }
        text.append("-");
        let positive: u32 = (-(n as i64)) as u32;
        push_digits(&mut text, positive);
    } else {
        push_digits(&mut text, n as u32);
    }
    text
}

/// A value that lay outside of the range allowed for it.
#[derive(Debug, PartialEq, Eq)]
pub struct RangeError<T> {
    /// Smallest allowed value.
    pub min: T,
    /// Largest allowed value.
    pub max: T,
    /// The value that was refused.
    pub val: T,
}

impl<T: Scalar> RangeError<T> {
    /// The same error with its three numbers written out as decimal text.
    pub fn to_owned(&self) -> (owned: RangeError<String>)
        ensures
            owned.min@ == decimal_text(self.min.as_int()),
            owned.max@ == decimal_text(self.max.as_int()),
            owned.val@ == decimal_text(self.val.as_int()),
    {
        RangeError {
            min: decimal(self.min.widen()),
            max: decimal(self.max.widen()),
            val: decimal(self.val.widen()),
        }
    }
}

/// The failure that reports what `refused` holds.
pub open spec fn range_failure<T: Scalar>(refused: RangeError<T>) -> Failure {
    Failure::out_of_range(refused.min.as_int(), refused.max.as_int(), refused.val.as_int())
}

/// The inclusive bounds of a domain of numbers.
pub trait Ranged<T> {
    /// The smallest number of the domain.
    spec fn lower() -> T;

    /// The largest number of the domain.
    spec fn upper() -> T;

    /// Returns the smallest number of the domain.
    fn min_inclusive() -> (min: T)
        ensures
            min == Self::lower(),
    ;

    /// Returns the largest number of the domain.
    fn max_inclusive() -> (max: T)
        ensures
            max == Self::upper(),
    ;
}

/// The rule that decides which numbers belong to a domain.
pub trait ValueVerifier<T> {
    /// Whether `value` belongs to the domain.
    spec fn accepts(value: T) -> bool;

    /// The error that reports a `value` that does not belong to it.
    spec fn refusal(value: T) -> RangeError<T>;

    /// Hands `value` back if it belongs to the domain, and reports it if not.
    fn verify(value: T) -> (checked: Result<T, RangeError<T>>)
        ensures
            checked == (if Self::accepts(value) {
                Ok::<T, RangeError<T>>(value)
            } else {
                Err::<T, RangeError<T>>(Self::refusal(value))
            }),
    ;
}

/// A domain with bounds accepts the numbers from the lower bound to the upper
/// one, both included.
impl<T: Scalar, X: Ranged<T>> ValueVerifier<T> for X {
    open spec fn accepts(value: T) -> bool {
        X::lower().as_int() <= value.as_int() <= X::upper().as_int()
    }

    open spec fn refusal(value: T) -> RangeError<T> {
        RangeError { min: X::lower(), max: X::upper(), val: value }
    }

    fn verify(value: T) -> (checked: Result<T, RangeError<T>>) {
        let min = X::min_inclusive();
        let max = X::max_inclusive();
        if value.widen() < min.widen() || value.widen() > max.widen() {
            Err(RangeError { min, max, val: value })
        } else {
            Ok(value)
        }
    }
}

/// A domain with bounds accepts a number exactly if the number is not below
/// the lower and not above the upper bound, and reports a number that it
/// refuses together with the two bounds.
pub proof fn lemma_range_validation<T: Scalar, X: Ranged<T>>(value: T)
    ensures
        <X as ValueVerifier<T>>::accepts(value) <==> X::lower().as_int() <= value.as_int()
            <= X::upper().as_int(),
        <X as ValueVerifier<T>>::refusal(value) == (RangeError {
            min: X::lower(),
            max: X::upper(),
            val: value,
        }),
        range_failure(<X as ValueVerifier<T>>::refusal(value)) == Failure::out_of_range(
            X::lower().as_int(),
            X::upper().as_int(),
            value.as_int(),
        ),
{
}

/// A number of type `T` that the rule `X` has accepted.
#[derive(Debug, PartialEq, Eq, PartialOrd, Ord)]
pub struct Wrapped<T, X: ValueVerifier<T>> {
    value: T,
    tag: PhantomData<X>,
}

impl<T: Copy, X: ValueVerifier<T>> Clone for Wrapped<T, X> {
    fn clone(&self) -> (copy: Self)
        ensures
            copy == *self,
    {
        proof {
            use_type_invariant(self);
        }
        Wrapped { value: self.value, tag: PhantomData }
    }
}

impl<T: Copy, X: ValueVerifier<T>> Copy for Wrapped<T, X> {

}

impl<T, X: ValueVerifier<T>> View for Wrapped<T, X> {
    type V = T;

    closed spec fn view(&self) -> T {
        self.value
    }
}

impl<T, X: ValueVerifier<T>> Wrapped<T, X> {
    /// The wrapper that holds `value`.
    pub closed spec fn holding(value: T) -> Self {
        Wrapped { value, tag: PhantomData }
    }

    /// A wrapper is known by the number that it holds.
    pub broadcast proof fn lemma_holding(value: T)
        ensures
            (#[trigger] Self::holding(value))@ == value,
    {
    }

    /// Two wrappers that hold the same number are equal.
    pub proof fn lemma_equal(self, other: Self)
        requires
            self@ == other@,
        ensures
            self == other,
    {
    }
}

impl<T: Scalar, X: Ranged<T>> Wrapped<T, X> {
    /// Returns the smallest number that the wrapper can hold.
    pub fn min_inclusive() -> (min: T)
        ensures
            min == X::lower(),
    {
        X::min_inclusive()
    }

    /// Returns the largest number that the wrapper can hold.
    pub fn max_inclusive() -> (max: T)
        ensures
            max == X::upper(),
    {
        X::max_inclusive()
    }
}

impl<T, X: ValueVerifier<T>> Wrapped<T, X> {
    /// Every wrapper holds a number that its rule accepts.
    #[verifier::type_invariant]
    pub closed spec fn accepted(self) -> bool {
        X::accepts(self.value)
    }

    /// Wraps `val` if the rule accepts it, and reports it if not.
    pub fn from_value(val: T) -> (wrapped: Result<Self, RangeError<T>>)
        ensures
            wrapped == (if X::accepts(val) {
                Ok::<Self, RangeError<T>>(Self::holding(val))
            } else {
                Err::<Self, RangeError<T>>(X::refusal(val))
            }),
    {
        match X::verify(val) {
            Ok(val) => Ok(Wrapped { value: val, tag: PhantomData }),
            Err(e) => Err(e),
        }
    }
}

impl<T, X: ValueVerifier<T>> Deref for Wrapped<T, X> {
    type Target = T;

    fn deref(&self) -> (value: &T)
        ensures
            *value == self@,
            X::accepts(*value),
    {
        proof {
            use_type_invariant(self);
        }
        &self.value
    }
}

/// A wrapped `u8` takes the bytes of a `u8`. The rule is asked only in the
/// mode that keeps values.
impl<X: ValueVerifier<u8>> Decode for Wrapped<u8, X> {
    type Model = Self;

    open spec fn model(&self) -> Self {
        *self
    }

    open spec fn width() -> nat {
        1
    }

    open spec fn failure(stream: Seq<u8>, at: int, keep: bool) -> Option<Failure> {
        reserved(stream, at, 1).otherwise(
            fails_if(
                keep && !X::accepts(stream[at]),
                range_failure(X::refusal(stream[at])),
            ),
        )
    }

    open spec fn value(stream: Seq<u8>, at: int) -> Self {
        Self::holding(stream[at])
    }

    proof fn lemma_skip_parity(stream: Seq<u8>, at: int) {
    }

    fn decode<R: Reader>(reader: &mut R) -> (res: Result<GuardOutput<Self>, Error>) {
        let val = reader.read_u8()?;
        match R::guard() {
            Some(_) => match Self::from_value(val) {
                Ok(wrapped) => Ok(GuardOutput::Value(wrapped)),
                Err(e) => Err(Error::RangeError(e.to_owned())),
            },
            None => Ok(GuardOutput::Skipped),
        }
    }
}

/// A wrapped `u16` takes the bytes of a `u16`. The rule is asked only in the
/// mode that keeps values.
impl<X: ValueVerifier<u16>> Decode for Wrapped<u16, X> {
    type Model = Self;

    open spec fn model(&self) -> Self {
        *self
    }

    open spec fn width() -> nat {
        2
    }

    open spec fn failure(stream: Seq<u8>, at: int, keep: bool) -> Option<Failure> {
        reserved(stream, at, 2).otherwise(
            fails_if(
                keep && !X::accepts(be_u16(stream[at], stream[at + 1])),
                range_failure(X::refusal(be_u16(stream[at], stream[at + 1]))),
            ),
        )
    }

    open spec fn value(stream: Seq<u8>, at: int) -> Self {
        Self::holding(be_u16(stream[at], stream[at + 1]))
    }

    proof fn lemma_skip_parity(stream: Seq<u8>, at: int) {
    }

    fn decode<R: Reader>(reader: &mut R) -> (res: Result<GuardOutput<Self>, Error>) {
        let val = reader.read_u16be()?;
        match R::guard() {
            Some(_) => match Self::from_value(val) {
                Ok(wrapped) => Ok(GuardOutput::Value(wrapped)),
                Err(e) => Err(Error::RangeError(e.to_owned())),
            },
            None => Ok(GuardOutput::Skipped),
        }
    }
}

/// A wrapped `i16` takes the bytes of a `i16`. The rule is asked only in the
/// mode that keeps values.
impl<X: ValueVerifier<i16>> Decode for Wrapped<i16, X> {
    type Model = Self;

    open spec fn model(&self) -> Self {
        *self
    }

    open spec fn width() -> nat {
        2
    }

    open spec fn failure(stream: Seq<u8>, at: int, keep: bool) -> Option<Failure> {
        reserved(stream, at, 2).otherwise(
            fails_if(
                keep && !X::accepts(be_i16(stream[at], stream[at + 1])),
                range_failure(X::refusal(be_i16(stream[at], stream[at + 1]))),
            ),
        )
    }

    open spec fn value(stream: Seq<u8>, at: int) -> Self {
        Self::holding(be_i16(stream[at], stream[at + 1]))
    }

    proof fn lemma_skip_parity(stream: Seq<u8>, at: int) {
    }

    fn decode<R: Reader>(reader: &mut R) -> (res: Result<GuardOutput<Self>, Error>) {
        let val = reader.read_i16be()?;
        match R::guard() {
            Some(_) => match Self::from_value(val) {
                Ok(wrapped) => Ok(GuardOutput::Value(wrapped)),
                Err(e) => Err(Error::RangeError(e.to_owned())),
            },
            None => Ok(GuardOutput::Skipped),
        }
    }
}

} // verus!
