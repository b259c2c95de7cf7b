//! Readers of bytes, and the two modes in which values are decoded from them.

use vstd::prelude::*;

use super::error::Error;

verus! {

/// What decoding hands back: the value, or nothing where the mode skips.
#[derive(Debug, Clone, Copy, PartialEq, Eq)]
pub enum GuardOutput<T> {
    /// The decoded value.
    Value(T),
    /// The bytes were read and nothing was kept.
    Skipped,
}

impl<T> GuardOutput<T> {
    /// The value, if one was kept.
    pub fn value(self) -> (value: Option<T>)
        ensures
            value == (match self {
                GuardOutput::Value(v) => Some(v),
                GuardOutput::Skipped => None,
            }),
    {
        match self {
            GuardOutput::Value(v) => Some(v),
            GuardOutput::Skipped => None,
        }
    }
}

/// A mode of decoding: it says whether decoded values are kept, and gives
/// access to the values inside of a [`GuardOutput`].
///
/// An output that was decoded in the mode that skips holds nothing, so
/// nothing can be taken out of it.
pub trait Guard: Sized {
    /// Whether this mode keeps the decoded values.
    spec fn keeps() -> bool;

    /// Borrows the value inside of `value`.
    fn get<'a, T>(&self, value: &'a GuardOutput<T>) -> (inner: &'a T)
        requires
            value is Value,
        ensures
            *value == GuardOutput::Value(*inner),
    ;

    /// Borrows the value inside of `value` to change it.
    fn get_mut<'a, T>(&self, value: &'a mut GuardOutput<T>) -> (inner: &'a mut T)
        requires
            *old(value) is Value,
        ensures
            *old(value) == GuardOutput::Value(*inner),
            *final(value) == GuardOutput::Value(*final(inner)),
    ;

    /// Takes the value out of `value`.
    fn extract<T>(&self, value: GuardOutput<T>) -> (inner: T)
        requires
            value is Value,
        ensures
            value == GuardOutput::Value(inner),
    ;

    /// Moves a failure from inside of the output to the outside. In the mode
    /// that skips there is no failure to move.
    fn transpose_result<T, E>(res: GuardOutput<Result<T, E>>) -> (out: Result<GuardOutput<T>, E>)
        requires
            res is Value <==> Self::keeps(),
        ensures
            out == (match res {
                GuardOutput::Value(Ok(v)) => Ok::<GuardOutput<T>, E>(GuardOutput::Value(v)),
                GuardOutput::Value(Err(e)) => Err::<GuardOutput<T>, E>(e),
                GuardOutput::Skipped => Ok::<GuardOutput<T>, E>(GuardOutput::Skipped),
            }),
    ;
}

/// The mode that keeps every decoded value.
#[derive(Debug, Clone, Copy)]
pub struct ValueGuard;

/// The mode that reads the same bytes and keeps nothing.
#[derive(Debug, Clone, Copy)]
pub struct SkipGuard;

impl Guard for ValueGuard {
    open spec fn keeps() -> bool {
        true
    }

    fn get<'a, T>(&self, value: &'a GuardOutput<T>) -> (inner: &'a T) {
        match value {
            GuardOutput::Value(v) => v,
            GuardOutput::Skipped => vstd::pervasive::unreached(),
        }
    }

    fn get_mut<'a, T>(&self, value: &'a mut GuardOutput<T>) -> (inner: &'a mut T) {
        match value {
            GuardOutput::Value(v) => v,
            GuardOutput::Skipped => vstd::pervasive::unreached(),
        }
    }

    fn extract<T>(&self, value: GuardOutput<T>) -> (inner: T) {
        match value {
            GuardOutput::Value(v) => v,
            GuardOutput::Skipped => vstd::pervasive::unreached(),
        }
    }

    fn transpose_result<T, E>(res: GuardOutput<Result<T, E>>) -> (out: Result<GuardOutput<T>, E>) {
        match res {
            GuardOutput::Value(Ok(v)) => Ok(GuardOutput::Value(v)),
            GuardOutput::Value(Err(e)) => Err(e),
            GuardOutput::Skipped => Ok(GuardOutput::Skipped),
        }
    }
}

impl Guard for SkipGuard {
    open spec fn keeps() -> bool {
        false
    }

    fn get<'a, T>(&self, value: &'a GuardOutput<T>) -> (inner: &'a T) {
        match value {
            GuardOutput::Value(v) => v,
            GuardOutput::Skipped => vstd::pervasive::unreached(),
        }
    }

    fn get_mut<'a, T>(&self, value: &'a mut GuardOutput<T>) -> (inner: &'a mut T) {
        match value {
            GuardOutput::Value(v) => v,
            GuardOutput::Skipped => vstd::pervasive::unreached(),
        }
    }

    fn extract<T>(&self, value: GuardOutput<T>) -> (inner: T) {
        match value {
            GuardOutput::Value(v) => v,
            GuardOutput::Skipped => vstd::pervasive::unreached(),
        }
    }

    fn transpose_result<T, E>(res: GuardOutput<Result<T, E>>) -> (out: Result<GuardOutput<T>, E>) {
        Ok(GuardOutput::Skipped)
    }
}

/// The number that two bytes stand for as a big-endian `u16`.
pub open spec fn be_u16(hi: u8, lo: u8) -> u16 {
    (hi as int * 256 + lo as int) as u16
}

/// The number that two bytes stand for as a big-endian `i16` in two's
/// complement.
pub open spec fn be_i16(hi: u8, lo: u8) -> i16 {
    if hi < 128 {
        (hi as int * 256 + lo as int) as i16
    } else {
        (hi as int * 256 + lo as int - 65536) as i16
    }
}

/// The state of a reader: a fixed sequence of bytes and a place in it.
pub ghost struct Cursor {
    /// All bytes of the source, read or not.
    pub stream: Seq<u8>,
    /// The index in `stream` of the next byte, which counts the bytes read.
    pub pos: nat,
    /// The indices in `stream` at which the checksums that cover this reader
    /// began, the innermost last.
    pub marks: Seq<nat>,
}

impl Cursor {
    /// Whether `n` more bytes can be read.
    pub open spec fn available(self, n: nat) -> bool {
        self.pos + n <= self.stream.len()
    }

    /// The cursor after `n` more bytes were read.
    pub open spec fn advance(self, n: nat) -> Cursor {
        Cursor { stream: self.stream, pos: self.pos + n, marks: self.marks }
    }

    /// The next `n` bytes.
    pub open spec fn next(self, n: nat) -> Seq<u8> {
        self.stream.subrange(self.pos as int, self.pos as int + n)
    }

    /// The index of the next byte.
    pub open spec fn at(self) -> int {
        self.pos as int
    }
}

/// A reader of a sequence of bytes from front to back.
///
/// A reader is a view of its source and is copied freely: a copy reads on from
/// where the reader stood, and leaves the reader where it was.
pub trait Reader: Sized + Copy {
    /// The mode in which values are decoded from this reader.
    type Guard: Guard;

    /// The bytes of the source and the place at which this reader stands.
    spec fn cursor(&self) -> Cursor;

    /// A reader never stands behind the end of its source.
    proof fn lemma_within(&self)
        ensures
            self.cursor().pos <= self.cursor().stream.len(),
    ;

    /// The guard of this reader's mode, where that mode keeps values.
    fn guard() -> (guard: Option<Self::Guard>)
        ensures
            guard is Some <==> Self::Guard::keeps(),
    ;

    /// Fills `buf` with the next bytes. Fails with [`Error::IoError`], and
    /// reads nothing, if fewer bytes are left than `buf` holds.
    fn read_exact(&mut self, buf: &mut [u8]) -> (res: Result<(), Error>)
        ensures
            final(buf)@.len() == old(buf)@.len(),
            match res {
                Ok(_) => {
                    &&& old(self).cursor().available(old(buf)@.len())
                    &&& final(self).cursor() == old(self).cursor().advance(old(buf)@.len())
                    &&& final(buf)@ == old(self).cursor().next(old(buf)@.len())
                },
                Err(e) => {
                    &&& !old(self).cursor().available(old(buf)@.len())
                    &&& e is IoError
                    &&& *final(self) == *old(self)
                },
            },
    ;

    /// Reads `N` bytes and drops them.
    fn skip<const N: usize>(&mut self) -> (res: Result<(), Error>)
        ensures
            match res {
                Ok(_) => {
                    &&& old(self).cursor().available(N as nat)
                    &&& final(self).cursor() == old(self).cursor().advance(N as nat)
                },
                Err(e) => {
                    &&& !old(self).cursor().available(N as nat)
                    &&& e is IoError
                    &&& *final(self) == *old(self)
                },
            },
    {
        let mut buf = [0u8;N];
        self.read_exact(&mut buf)
    }

    /// Reads one byte.
    fn read_u8(&mut self) -> (res: Result<u8, Error>)
        ensures
            match res {
                Ok(byte) => {
                    &&& old(self).cursor().available(1)
                    &&& final(self).cursor() == old(self).cursor().advance(1)
                    &&& byte == old(self).cursor().stream[old(self).cursor().at()]
                },
                Err(e) => {
                    &&& !old(self).cursor().available(1)
                    &&& e is IoError
                    &&& *final(self) == *old(self)
                },
            },
    {
        let mut buf = [0u8;1];
        self.read_exact(&mut buf)?;
        Ok(buf[0])
    }

    /// Reads two bytes as a big-endian `u16`.
    fn read_u16be(&mut self) -> (res: Result<u16, Error>)
        ensures
            match res {
                Ok(number) => {
                    &&& old(self).cursor().available(2)
                    &&& final(self).cursor() == old(self).cursor().advance(2)
                    &&& number == be_u16(
                        old(self).cursor().stream[old(self).cursor().at()],
                        old(self).cursor().stream[old(self).cursor().at() + 1],
                    )
                },
                Err(e) => {
                    &&& !old(self).cursor().available(2)
                    &&& e is IoError
                    &&& *final(self) == *old(self)
                },
            },
    {
        let mut buf = [0u8;2];
        self.read_exact(&mut buf)?;
        let hi: u16 = buf[0] as u16;
        let lo: u16 = buf[1] as u16;
        Ok(hi * 256 + lo)
    }

    /// Reads two bytes as a big-endian `i16` in two's complement.
    fn read_i16be(&mut self) -> (res: Result<i16, Error>)
        ensures
            match res {
                Ok(number) => {
                    &&& old(self).cursor().available(2)
                    &&& final(self).cursor() == old(self).cursor().advance(2)
                    &&& number == be_i16(
                        old(self).cursor().stream[old(self).cursor().at()],
                        old(self).cursor().stream[old(self).cursor().at() + 1],
                    )
                },
                Err(e) => {
                    &&& !old(self).cursor().available(2)
                    &&& e is IoError
                    &&& *final(self) == *old(self)
                },
            },
    {
        let mut buf = [0u8;2];
        self.read_exact(&mut buf)?;
        let hi: i32 = buf[0] as i32;
        let lo: i32 = buf[1] as i32;
        if hi < 128 {
            Ok((hi * 256 + lo) as i16)
        } else {
            Ok((hi * 256 + lo - 65536) as i16)
        }
    }
}

/// A reader over bytes in memory, in the mode that keeps values.
#[derive(Debug, Clone, Copy)]
pub struct SliceReader<'a> {
    data: &'a [u8],
    at: usize,
}

impl<'a> SliceReader<'a> {
    #[verifier::type_invariant]
    spec fn within(self) -> bool {
        self.at <= self.data@.len()
    }

    /// A reader that stands in front of the first byte of `data`.
    pub fn new(data: &'a [u8]) -> (reader: Self)
        ensures
            reader.cursor() == (Cursor { stream: data@, pos: 0, marks: Seq::empty() }),
    {
        SliceReader { data, at: 0 }
    }

    /// The number of bytes read so far, which the length of the source bounds.
    pub fn position(&self) -> (at: usize)
        ensures
            at == self.cursor().pos,
            at <= self.cursor().stream.len(),
    {
        proof {
            use_type_invariant(self);
        }
        self.at
    }
}

impl<'a> Reader for SliceReader<'a> {
    type Guard = ValueGuard;

    closed spec fn cursor(&self) -> Cursor {
        Cursor {
            stream: self.data@,
            pos: if self.at <= self.data@.len() {
                self.at as nat
            } else {
                self.data@.len()
            },
            marks: Seq::empty(),
        }
    }

    proof fn lemma_within(&self) {
    }

    fn guard() -> (guard: Option<ValueGuard>) {
        Some(ValueGuard)
    }

    fn read_exact(&mut self, buf: &mut [u8]) -> (res: Result<(), Error>) {
        proof {
            use_type_invariant(&*self);
        }
        let n: usize = buf.len();
        let data = self.data;
        let at: usize = self.at;
        if n > data.len() - at {
            return Err(Error::IoError);
        }
        let mut i: usize = 0;
        while i < n
            invariant
                i <= n,
                n == buf@.len(),
                at + n <= data.len(),
                forall|k: int| 0 <= k < i ==> buf@[k] == data@[at + k],
            decreases n - i,
        {
            buf[i] = data[at + i];
            i = i + 1;
        }
        self.at = at + n;
        Ok(())
    }
}

/// A reader that reads from another one in the mode that keeps nothing.
#[derive(Debug, Clone, Copy)]
pub struct SkipReader<R: Reader>(pub R);

impl<R: Reader> Reader for SkipReader<R> {
    type Guard = SkipGuard;

    open spec fn cursor(&self) -> Cursor {
        self.0.cursor()
    }

    proof fn lemma_within(&self) {
        self.0.lemma_within();
    }

    fn guard() -> (guard: Option<SkipGuard>) {
        assert(!SkipGuard::keeps());
        None
    }

    fn read_exact(&mut self, buf: &mut [u8]) -> (res: Result<(), Error>) {
        self.0.read_exact(buf)
    }
}

} // verus!
