//! The CRC-16/USB checksum, and a reader and a writer that keep it.
//!
//! CRC-16/USB is the reflected CRC with polynomial `0x8005`, whose register
//! starts at `0xFFFF` and is inverted at the end.

use vstd::prelude::*;

use crate::misc::io::{Cursor, Error, Reader};

verus! {

/// The register after one bit was shifted out of it.
pub open spec fn crc_shift(state: u16) -> u16 {
    if state & 1 == 1 {
        (state >> 1) ^ 0xA001
    } else {
        state >> 1
    }
}

/// The register after `byte` went into it.
pub open spec fn crc_byte(state: u16, byte: u8) -> u16 {
    crc_shift(
        crc_shift(
            crc_shift(
                crc_shift(crc_shift(crc_shift(crc_shift(crc_shift(state ^ (byte as u16)))))),
            ),
        ),
    )
}

/// The register after all of `bytes` went into it, the first byte first.
pub open spec fn crc_fold(state: u16, bytes: Seq<u8>) -> u16
    decreases bytes.len(),
{
    if bytes.len() == 0 {
        state
    } else {
        crc_byte(crc_fold(state, bytes.drop_last()), bytes.last())
    }
}

/// The CRC-16/USB checksum of `bytes`.
pub open spec fn crc16_usb(bytes: Seq<u8>) -> u16 {
    crc_fold(0xFFFF, bytes) ^ 0xFFFF
}

/// Bytes that go into the register one after another go into it as one
/// sequence.
pub proof fn lemma_fold_concat(state: u16, first: Seq<u8>, second: Seq<u8>)
    ensures
        crc_fold(crc_fold(state, first), second) == crc_fold(state, first + second),
    decreases second.len(),
{
    if second.len() == 0 {
    } else {
        lemma_fold_concat(state, first, second.drop_last());
        assert((first + second).drop_last() =~= first + second.drop_last());
    }
}

proof fn lemma_shift_injective(a: u16, b: u16)
    requires
        crc_shift(a) == crc_shift(b),
    ensures
        a == b,
{
    assert(crc_shift(a) == crc_shift(b) ==> a == b) by (bit_vector);
}

proof fn lemma_byte_injective(a: u16, x: u8, b: u16, y: u8)
    requires
        crc_byte(a, x) == crc_byte(b, y),
    ensures
        a ^ (x as u16) == b ^ (y as u16),
{
    let left: u16 = a ^ (x as u16);
    let right: u16 = b ^ (y as u16);
    let left1 = crc_shift(left);
    let right1 = crc_shift(right);
    let left2 = crc_shift(left1);
    let right2 = crc_shift(right1);
    let left3 = crc_shift(left2);
    let right3 = crc_shift(right2);
    let left4 = crc_shift(left3);
    let right4 = crc_shift(right3);
    let left5 = crc_shift(left4);
    let right5 = crc_shift(right4);
    let left6 = crc_shift(left5);
    let right6 = crc_shift(right5);
    let left7 = crc_shift(left6);
    let right7 = crc_shift(right6);
    lemma_shift_injective(left7, right7);
    lemma_shift_injective(left6, right6);
    lemma_shift_injective(left5, right5);
    lemma_shift_injective(left4, right4);
    lemma_shift_injective(left3, right3);
    lemma_shift_injective(left2, right2);
    lemma_shift_injective(left1, right1);
    lemma_shift_injective(left, right);
}

/// Registers that differ still differ after the same byte went into both.
pub proof fn lemma_byte_keeps_difference(a: u16, b: u16, byte: u8)
    requires
        a != b,
    ensures
        crc_byte(a, byte) != crc_byte(b, byte),
{
    if crc_byte(a, byte) == crc_byte(b, byte) {
        lemma_byte_injective(a, byte, b, byte);
        let x: u16 = byte as u16;
        assert(a ^ x == b ^ x ==> a == b) by (bit_vector);
    }
}

/// Two different bytes take the same register to different registers.
pub proof fn lemma_byte_tells_bytes_apart(state: u16, x: u8, y: u8)
    requires
        x != y,
    ensures
        crc_byte(state, x) != crc_byte(state, y),
{
    if crc_byte(state, x) == crc_byte(state, y) {
        lemma_byte_injective(state, x, state, y);
        assert(state ^ (x as u16) == state ^ (y as u16) ==> x == y) by (bit_vector);
    }
}

/// The registers of two sequences of one length that differ in exactly one
/// byte differ.
pub proof fn lemma_fold_detects_one_byte(state: u16, a: Seq<u8>, b: Seq<u8>, i: int)
    requires
        a.len() == b.len(),
        0 <= i < a.len(),
        a[i] != b[i],
        forall|j: int| 0 <= j < a.len() && j != i ==> a[j] == b[j],
    ensures
        crc_fold(state, a) != crc_fold(state, b),
    decreases a.len(),
{
    if i == a.len() - 1 {
        assert(a.drop_last() =~= b.drop_last());
        lemma_byte_tells_bytes_apart(crc_fold(state, a.drop_last()), a.last(), b.last());
    } else {
        lemma_fold_detects_one_byte(state, a.drop_last(), b.drop_last(), i);
        lemma_byte_keeps_difference(
            crc_fold(state, a.drop_last()),
            crc_fold(state, b.drop_last()),
            a.last(),
        );
    }
}

/// A change of one byte changes the checksum: two sequences of one length
/// that differ in exactly one byte have different checksums.
pub proof fn lemma_crc_detects_one_byte(a: Seq<u8>, b: Seq<u8>, i: int)
    requires
        a.len() == b.len(),
        0 <= i < a.len(),
        a[i] != b[i],
        forall|j: int| 0 <= j < a.len() && j != i ==> a[j] == b[j],
    ensures
        crc16_usb(a) != crc16_usb(b),
{
    lemma_fold_detects_one_byte(0xFFFF, a, b, i);
    let x = crc_fold(0xFFFF, a);
    let y = crc_fold(0xFFFF, b);
    assert(x ^ 0xFFFFu16 == y ^ 0xFFFFu16 ==> x == y) by (bit_vector);
}

fn shift(state: u16) -> (next: u16)
    ensures
        next == crc_shift(state),
{
    if state & 1 == 1 {
        (state >> 1) ^ 0xA001
    } else {
        state >> 1
    }
}

fn step(state: u16, byte: u8) -> (next: u16)
    ensures
        next == crc_byte(state, byte),
{
    let s0: u16 = state ^ (byte as u16);
    let s1: u16 = shift(s0);
    let s2: u16 = shift(s1);
    let s3: u16 = shift(s2);
    let s4: u16 = shift(s3);
    let s5: u16 = shift(s4);
    let s6: u16 = shift(s5);
    let s7: u16 = shift(s6);
    shift(s7)
}

/// The register `state` after the bytes of `buf` went into it.
pub fn crc_update(state: u16, buf: &[u8]) -> (next: u16)
    ensures
        next == crc_fold(state, buf@),
{
    let mut acc: u16 = state;
    let mut i: usize = 0;
    while i < buf.len()
        invariant
            i <= buf@.len(),
            acc == crc_fold(state, buf@.take(i as int)),
        decreases buf@.len() - i,
    {
        proof {
            assert(buf@.take(i + 1).drop_last() =~= buf@.take(i as int));
        }
        acc = step(acc, buf[i]);
        i = i + 1;
    }
    assert(buf@.take(i as int) =~= buf@);
    acc
}

/// Computes the CRC-16/USB checksum of `buf`.
pub fn checksum(buf: &[u8]) -> (crc: u16)
    ensures
        crc == crc16_usb(buf@),
{
    crc_update(0xFFFF, buf) ^ 0xFFFF
}

/// A running CRC-16/USB checksum.
#[derive(Clone, Copy)]
struct Digest {
    register: u16,
    bytes: Ghost<Seq<u8>>,
}

impl Digest {
    #[verifier::type_invariant]
    spec fn covers(self) -> bool {
        self.register == crc_fold(0xFFFF, self.bytes@)
    }

    /// The bytes that went into the checksum.
    closed spec fn seen(self) -> Seq<u8> {
        self.bytes@
    }

    /// The checksum of no bytes.
    fn new() -> (digest: Self)
        ensures
            digest.seen() == Seq::<u8>::empty(),
    {
        Digest { register: 0xFFFF, bytes: Ghost(Seq::empty()) }
    }

    /// The checksum after the bytes of `buf` went into it.
    fn update(self, buf: &[u8]) -> (digest: Self)
        ensures
            digest.seen() == self.seen() + buf@,
    {
        proof {
            use_type_invariant(&self);
            lemma_fold_concat(0xFFFF, self.bytes@, buf@);
        }
        Digest { register: crc_update(self.register, buf), bytes: Ghost(self.bytes@ + buf@) }
    }

    /// The checksum as it is transmitted.
    fn finalize(self) -> (crc: u16)
        ensures
            crc == crc16_usb(self.seen()),
    {
        proof {
            use_type_invariant(&self);
        }
        self.register ^ 0xFFFF
    }
}

/// A reader that reads from another one and keeps the checksum of the bytes
/// that went through it.
pub struct CrcReader<R: Reader> {
    reader: R,
    digest: Digest,
    origin: Ghost<nat>,
}

impl<R: Reader> Clone for CrcReader<R> {
    fn clone(&self) -> (copy: Self)
        ensures
            copy == *self,
    {
        proof {
            use_type_invariant(self);
        }
        CrcReader { reader: self.reader, digest: self.digest, origin: self.origin }
    }
}

impl<R: Reader> Copy for CrcReader<R> {

}

impl<R: Reader> CrcReader<R> {
    #[verifier::type_invariant]
    spec fn covers(self) -> bool {
        let inner = self.reader.cursor();
        &&& self.origin@ <= inner.pos <= inner.stream.len()
        &&& self.digest.seen() == inner.stream.subrange(self.origin@ as int, inner.pos as int)
    }

    /// The bytes that went through this reader.
    pub open spec fn seen(&self) -> Seq<u8> {
        self.cursor().stream.subrange(self.cursor().marks.last() as int, self.cursor().at())
    }

    /// Wraps `reader`. The checksum begins with the next byte.
    pub fn new(reader: R) -> (crc: Self)
        ensures
            crc.cursor() == (Cursor {
                stream: reader.cursor().stream,
                pos: reader.cursor().pos,
                marks: reader.cursor().marks.push(reader.cursor().pos),
            }),
    {
        let digest = Digest::new();
        proof {
            reader.lemma_within();
            let at = reader.cursor().pos as int;
            assert(reader.cursor().stream.subrange(at, at) =~= Seq::<u8>::empty());
        }
        CrcReader { reader, digest, origin: Ghost(reader.cursor().pos) }
    }

    /// The checksum of the bytes that went through this reader.
    #[must_use]
    pub fn finalize(self) -> (crc: u16)
        ensures
            crc == crc16_usb(self.seen()),
    {
        proof {
            use_type_invariant(&self);
        }
        self.digest.finalize()
    }

    /// The reader that was wrapped, at the place up to which this one has
    /// read.
    pub fn into_inner(self) -> (reader: R)
        ensures
            reader.cursor() == (Cursor {
                stream: self.cursor().stream,
                pos: self.cursor().pos,
                marks: self.cursor().marks.drop_last(),
            }),
    {
        proof {
            assert(self.reader.cursor().marks.push(self.origin@).drop_last()
                =~= self.reader.cursor().marks);
        }
        self.reader
    }
}

impl<R: Reader> Reader for CrcReader<R> {
    type Guard = R::Guard;

    closed spec fn cursor(&self) -> Cursor {
        Cursor {
            stream: self.reader.cursor().stream,
            pos: self.reader.cursor().pos,
            marks: self.reader.cursor().marks.push(self.origin@),
        }
    }

    proof fn lemma_within(&self) {
        self.reader.lemma_within();
    }

    fn guard() -> (guard: Option<R::Guard>) {
        R::guard()
    }

    fn read_exact(&mut self, buf: &mut [u8]) -> (res: Result<(), Error>) {
        proof {
            use_type_invariant(&*self);
        }
        let mut inner = self.reader;
        inner.read_exact(buf)?;
        let digest = self.digest.update(buf);
        proof {
            let stream = inner.cursor().stream;
            let from = self.origin@ as int;
            let mid = self.reader.cursor().pos as int;
            let to = inner.cursor().pos as int;
            assert(stream.subrange(from, mid) + stream.subrange(mid, to) =~= stream.subrange(
                from,
                to,
            ));
        }
        *self = CrcReader { reader: inner, digest, origin: self.origin };
        Ok(())
    }
}

/// A writer that keeps the checksum of the bytes that are written to it.
pub struct CrcWriter<W> {
    writer: W,
    digest: Digest,
}

impl<W> CrcWriter<W> {
    /// The bytes that were accounted for so far.
    pub closed spec fn seen(&self) -> Seq<u8> {
        self.digest.seen()
    }

    /// The writer that was wrapped.
    pub closed spec fn inner(&self) -> W {
        self.writer
    }

    /// Wraps `writer`. Nothing is accounted for yet.
    pub fn new(writer: W) -> (crc: Self)
        ensures
            crc.seen() == Seq::<u8>::empty(),
            crc.inner() == writer,
    {
        CrcWriter { writer, digest: Digest::new() }
    }

    /// Accounts for the bytes of `buf`, which the caller hands to the writer.
    pub fn update(&mut self, buf: &[u8])
        ensures
            final(self).seen() == old(self).seen() + buf@,
            final(self).inner() == old(self).inner(),
    {
        self.digest = self.digest.update(buf);
    }

    /// The writer that was wrapped.
    pub fn get_ref(&self) -> (writer: &W)
        ensures
            *writer == self.inner(),
    {
        &self.writer
    }

    /// The writer that was wrapped, to write to.
    pub fn get_mut(&mut self) -> (writer: &mut W)
        ensures
            *writer == old(self).inner(),
            final(self).inner() == *final(writer),
            final(self).seen() == old(self).seen(),
    {
        &mut self.writer
    }

    /// Hands back the writer, and the checksum of the bytes accounted for.
    pub fn finalize(self) -> (done: (W, u16))
        ensures
            done.0 == self.inner(),
            done.1 == crc16_usb(self.seen()),
    {
        let crc: u16 = self.digest.finalize();
        (self.writer, crc)
    }
}

} // verus!
