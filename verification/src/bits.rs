//! The bit-level model of a demo stream and the primitive reads over it.
//!
//! A stream is modelled as the sequence of its unread bits, in the order in
//! which a little-endian bit reader hands them out: each byte from its least
//! significant bit to its most significant one.  Every decoder of the crate is
//! specified by a function from such a sequence to a [`Step`].
use vstd::prelude::*;
use vstd::arithmetic::power2::*;
use std::io::Cursor;
use bitstream_io::{BitRead, BitReader, LittleEndian};
use crate::error::{DemError, ParseFail};

verus! {

pub type Bits = Seq<bool>;

pub open spec fn bit_val(b: bool) -> nat {
    if b { 1 } else { 0 }
}

/// The unsigned value of `s`, its first bit being the least significant.
pub open spec fn bits_to_nat(s: Seq<bool>) -> nat
    decreases s.len(),
{
    if s.len() == 0 {
        0
    } else {
        bit_val(s[0]) + 2 * bits_to_nat(s.drop_first())
    }
}

/// The two's-complement value of `s`: its last bit is the sign.
pub open spec fn bits_to_int(s: Seq<bool>) -> int {
    if s.len() > 0 && s.last() {
        bits_to_nat(s) - pow2(s.len())
    } else {
        bits_to_nat(s) as int
    }
}

/// The bits of a byte, least significant first.
pub open spec fn byte_bits(b: u8) -> Seq<bool> {
    Seq::new(8, |i: int| (b >> (i as u8)) & 1u8 == 1u8)
}

/// The bits of a byte sequence, byte after byte.
pub open spec fn bytes_to_bits(s: Seq<u8>) -> Seq<bool> {
    Seq::new(s.len() * 8, |i: int| byte_bits(s[i / 8])[i % 8])
}

/// The `n` bytes that the first `8 * n` bits of `s` spell, eight bits to a byte.
pub open spec fn bits_to_bytes(s: Seq<bool>, n: nat) -> Seq<u8> {
    Seq::new(n, |i: int| bits_to_nat(s.subrange(8 * i, 8 * i + 8)) as u8)
}

/// The unsigned value of the first `n` bits, as a `u32`.
pub open spec fn uval(s: Seq<bool>, n: nat) -> u32 {
    bits_to_nat(s.take(n as int)) as u32
}

/// The two's-complement value of the first `n` bits, as an `i32`.
pub open spec fn ival(s: Seq<bool>, n: nat) -> i32 {
    bits_to_int(s.take(n as int)) as i32
}

/// The outcome of decoding a prefix of a bit sequence: the value and the bits
/// left after it, the error that the decoder reports, or `Abort` where the
/// decoding rules have no answer.
pub enum Step<T> {
    Done(T, Seq<bool>),
    Failed(DemError),
    Abort,
}

impl<T> Step<T> {
    /// Decodes what follows with `f` when this step succeeded.
    pub open spec fn and_then<U>(self, f: spec_fn(T, Seq<bool>) -> Step<U>) -> Step<U> {
        match self {
            Step::Done(v, rest) => f(v, rest),
            Step::Failed(e) => Step::Failed(e),
            Step::Abort => Step::Abort,
        }
    }

    pub open spec fn map<U>(self, f: spec_fn(T) -> U) -> Step<U> {
        match self {
            Step::Done(v, rest) => Step::Done(f(v), rest),
            Step::Failed(e) => Step::Failed(e),
            Step::Abort => Step::Abort,
        }
    }

    pub open spec fn is_done(self) -> bool {
        self is Done
    }
}

/// `res`, from a stream at `before` left at `after`, is what the step `s`
/// describes, values compared through `view`; a success never lengthens the
/// stream.
pub open spec fn step_matches_with<T, V>(
    res: Result<T, ParseFail>,
    before: Seq<bool>,
    after: Seq<bool>,
    s: Step<V>,
    view: spec_fn(T) -> V,
) -> bool {
    &&& res is Ok ==> after.len() <= before.len()
    &&& match s {
        Step::Done(v, rest) => match res {
            Ok(x) => view(x) == v && after == rest,
            Err(_) => false,
        },
        Step::Failed(e) => res == Err::<T, ParseFail>(ParseFail::Error(e)),
        Step::Abort => res == Err::<T, ParseFail>(ParseFail::Abort),
    }
}

/// `step_matches_with`, values compared by their deep views.
pub open spec fn step_matches<T: DeepView>(
    res: Result<T, ParseFail>,
    before: Seq<bool>,
    after: Seq<bool>,
    s: Step<T::V>,
) -> bool {
    step_matches_with(res, before, after, s, |x: T| x.deep_view())
}

pub open spec fn eof<T>() -> Step<T> {
    Step::Failed(DemError::Eof)
}

/// One bit.
pub open spec fn sp_bit(b: Bits) -> Step<bool> {
    if b.len() >= 1 { Step::Done(b[0], b.drop_first()) } else { eof() }
}

/// An unsigned value of `n` bits.
pub open spec fn sp_u32(b: Bits, n: nat) -> Step<u32> {
    if b.len() >= n { Step::Done(uval(b, n), b.skip(n as int)) } else { eof() }
}

/// An unsigned value of `n` bits, narrowed to a `u16`.
pub open spec fn sp_u16(b: Bits, n: nat) -> Step<u16> {
    sp_u32(b, n).map(|v: u32| v as u16)
}

/// An unsigned value of `n` bits, narrowed to a `u8`.
pub open spec fn sp_u8(b: Bits, n: nat) -> Step<u8> {
    sp_u32(b, n).map(|v: u32| v as u8)
}

/// A two's-complement value of `n` bits.
pub open spec fn sp_i32(b: Bits, n: nat) -> Step<i32> {
    if b.len() >= n { Step::Done(ival(b, n), b.skip(n as int)) } else { eof() }
}

/// A two's-complement value of `n` bits, narrowed to an `i16`.
pub open spec fn sp_i16(b: Bits, n: nat) -> Step<i16> {
    sp_i32(b, n).map(|v: i32| v as i16)
}

/// Thirty-two bits read unsigned and kept as the `i32` of the same bits.
pub open spec fn sp_u32_as_i32(b: Bits) -> Step<i32> {
    sp_u32(b, 32).map(|v: u32| v as i32)
}

/// `n` bits passed over.
pub open spec fn sp_skip(b: Bits, n: nat) -> Step<()> {
    if b.len() >= n { Step::Done((), b.skip(n as int)) } else { eof() }
}

/// `n` whole bytes.
pub open spec fn sp_bytes(b: Bits, n: nat) -> Step<Seq<u8>> {
    if b.len() >= 8 * n { Step::Done(bits_to_bytes(b, n), b.skip(8 * n as int)) } else { eof() }
}

/// The bits left once the unread part of the current byte is dropped.
pub open spec fn sp_align(b: Bits) -> Bits {
    b.skip((b.len() % 8) as int)
}

/// A presence bit, then, when it is set, an unsigned value of `n` bits.
pub open spec fn sp_opt_u32(b: Bits, n: nat) -> Step<Option<u32>> {
    sp_bit(b).and_then(
        |present: bool, r: Bits|
            if present { sp_u32(r, n).map(|v: u32| Some(v)) } else { Step::Done(None, r) },
    )
}

/// A presence bit, then, when it is set, a two's-complement value of `n` bits.
pub open spec fn sp_opt_i32(b: Bits, n: nat) -> Step<Option<i32>> {
    sp_bit(b).and_then(
        |present: bool, r: Bits|
            if present { sp_i32(r, n).map(|v: i32| Some(v)) } else { Step::Done(None, r) },
    )
}

pub proof fn lemma_bits_to_nat_bound(s: Seq<bool>)
    ensures
        bits_to_nat(s) < pow2(s.len()),
    decreases s.len(),
{
    if s.len() == 0 {
        lemma2_to64();
    } else {
        lemma_bits_to_nat_bound(s.drop_first());
        lemma_pow2_unfold(s.len());
    }
}

/// A stream of bits read from an in-memory byte buffer, least significant bit
/// of each byte first.
#[verifier::external_body]
pub struct BitStream {
    inner: BitReader<Cursor<Vec<u8>>, LittleEndian>,
}

/// The unread bits of a stream.
pub uninterp spec fn stream_bits(s: BitStream) -> Seq<bool>;

impl View for BitStream {
    type V = Seq<bool>;

    open spec fn view(&self) -> Seq<bool> {
        stream_bits(*self)
    }
}

#[verifier::external_type_specification]
#[verifier::external_body]
pub struct ExIoError(std::io::Error);

/// `BitReader::new` over a `Cursor` of the buffer: the unread bits are all the
/// bits of the buffer, each byte least significant bit first.
#[verifier::external_body]
fn reader_new(bytes: Vec<u8>) -> (s: BitStream)
    ensures
        stream_bits(s) == bytes_to_bits(bytes@),
{
    BitStream { inner: BitReader::new(Cursor::new(bytes)) }
}

/// `BitRead::read_bit`: the first unread bit, an error when none is left.
#[verifier::external_body]
fn reader_read_bit(s: &mut BitStream) -> (res: Result<bool, std::io::Error>)
    ensures
        stream_bits(*old(s)).len() >= 1 ==> (res matches Ok(v) && v == stream_bits(*old(s))[0]
            && stream_bits(*final(s)) == stream_bits(*old(s)).drop_first()),
        stream_bits(*old(s)).len() < 1 ==> res is Err,
{
    s.inner.read_bit()
}

/// `BitRead::read::<u32>`: the unsigned value of the next `n` bits, an error
/// when fewer are left.
#[verifier::external_body]
fn reader_read_u32(s: &mut BitStream, n: u32) -> (res: Result<u32, std::io::Error>)
    requires
        1 <= n <= 32,
    ensures
        stream_bits(*old(s)).len() >= n ==> (res matches Ok(v) && v == uval(stream_bits(*old(s)), n as nat)
            && stream_bits(*final(s)) == stream_bits(*old(s)).skip(n as int)),
        stream_bits(*old(s)).len() < n ==> res is Err,
{
    s.inner.read::<u32>(n)
}

/// `BitRead::read_signed::<i32>`: the two's-complement value of the next `n`
/// bits, an error when fewer are left.
#[verifier::external_body]
fn reader_read_signed_i32(s: &mut BitStream, n: u32) -> (res: Result<i32, std::io::Error>)
    requires
        1 <= n <= 32,
    ensures
        stream_bits(*old(s)).len() >= n ==> (res matches Ok(v) && v == ival(stream_bits(*old(s)), n as nat)
            && stream_bits(*final(s)) == stream_bits(*old(s)).skip(n as int)),
        stream_bits(*old(s)).len() < n ==> res is Err,
{
    s.inner.read_signed::<i32>(n)
}

/// `BitRead::skip`: drops the next `n` bits, an error when fewer are left.
#[verifier::external_body]
fn reader_skip(s: &mut BitStream, n: u32) -> (res: Result<(), std::io::Error>)
    ensures
        stream_bits(*old(s)).len() >= n ==> res is Ok && stream_bits(*final(s)) == stream_bits(
            *old(s),
        ).skip(n as int),
        stream_bits(*old(s)).len() < n ==> res is Err,
{
    s.inner.skip(n)
}

/// `BitRead::byte_align`: drops the unread bits of the current byte.  The
/// buffer holds whole bytes, so these are the unread bits beyond a multiple of
/// eight.
#[verifier::external_body]
fn reader_byte_align(s: &mut BitStream)
    ensures
        stream_bits(*final(s)) == sp_align(stream_bits(*old(s))),
{
    s.inner.byte_align()
}

/// `BitRead::read_to_vec`: the next `n` whole bytes, an error when fewer bits
/// are left.
#[verifier::external_body]
fn reader_read_to_vec(s: &mut BitStream, n: usize) -> (res: Result<Vec<u8>, std::io::Error>)
    ensures
        stream_bits(*old(s)).len() >= 8 * n ==> (res matches Ok(v) && v@ == bits_to_bytes(
            stream_bits(*old(s)),
            n as nat,
        ) && stream_bits(*final(s)) == stream_bits(*old(s)).skip(8 * n as int)),
        stream_bits(*old(s)).len() < 8 * n ==> res is Err,
{
    s.inner.read_to_vec(n)
}

impl BitStream {
    /// A stream over the bits of `bytes`.
    pub fn from_bytes(bytes: Vec<u8>) -> (s: Self)
        ensures
            s@ == bytes_to_bits(bytes@),
    {
        reader_new(bytes)
    }

    pub fn read_bit(&mut self) -> (res: Result<bool, ParseFail>)
        ensures
            step_matches(res, old(self)@, final(self)@, sp_bit(old(self)@)),
    {
        match reader_read_bit(self) {
            Ok(v) => Ok(v),
            Err(_) => Err(ParseFail::Error(DemError::Eof)),
        }
    }

    pub fn read_u32(&mut self, n: u32) -> (res: Result<u32, ParseFail>)
        requires
            1 <= n <= 32,
        ensures
            step_matches(res, old(self)@, final(self)@, sp_u32(old(self)@, n as nat)),
    {
        match reader_read_u32(self, n) {
            Ok(v) => Ok(v),
            Err(_) => Err(ParseFail::Error(DemError::Eof)),
        }
    }

    pub fn read_u16(&mut self, n: u32) -> (res: Result<u16, ParseFail>)
        requires
            1 <= n <= 16,
        ensures
            step_matches(res, old(self)@, final(self)@, sp_u16(old(self)@, n as nat)),
    {
        let v = self.read_u32(n)?;
        Ok(v as u16)
    }

    pub fn read_u8(&mut self, n: u32) -> (res: Result<u8, ParseFail>)
        requires
            1 <= n <= 8,
        ensures
            step_matches(res, old(self)@, final(self)@, sp_u8(old(self)@, n as nat)),
    {
        let v = self.read_u32(n)?;
        Ok(v as u8)
    }

    pub fn read_i32(&mut self, n: u32) -> (res: Result<i32, ParseFail>)
        requires
            1 <= n <= 32,
        ensures
            step_matches(res, old(self)@, final(self)@, sp_i32(old(self)@, n as nat)),
    {
        match reader_read_signed_i32(self, n) {
            Ok(v) => Ok(v),
            Err(_) => Err(ParseFail::Error(DemError::Eof)),
        }
    }

    pub fn read_i16(&mut self, n: u32) -> (res: Result<i16, ParseFail>)
        requires
            1 <= n <= 16,
        ensures
            step_matches(res, old(self)@, final(self)@, sp_i16(old(self)@, n as nat)),
    {
        let v = self.read_i32(n)?;
        Ok(v as i16)
    }

    /// Thirty-two bits read unsigned into an `i32`.
    pub fn read_u32_as_i32(&mut self) -> (res: Result<i32, ParseFail>)
        ensures
            step_matches(res, old(self)@, final(self)@, sp_u32_as_i32(old(self)@)),
    {
        let v = self.read_u32(32)?;
        Ok(v as i32)
    }

    /// `read_float`: four bytes holding an `f32`, kept as its bits.
    pub fn read_float_bits(&mut self) -> (res: Result<u32, ParseFail>)
        ensures
            step_matches(res, old(self)@, final(self)@, sp_u32(old(self)@, 32)),
    {
        self.read_u32(32)
    }

    pub fn skip(&mut self, n: u32) -> (res: Result<(), ParseFail>)
        ensures
            step_matches(res, old(self)@, final(self)@, sp_skip(old(self)@, n as nat)),
    {
        match reader_skip(self, n) {
            Ok(()) => Ok(()),
            Err(_) => Err(ParseFail::Error(DemError::Eof)),
        }
    }

    pub fn byte_align(&mut self)
        ensures
            final(self)@ == sp_align(old(self)@),
            final(self)@.len() <= old(self)@.len(),
    {
        reader_byte_align(self)
    }

    pub fn read_to_vec(&mut self, n: usize) -> (res: Result<Vec<u8>, ParseFail>)
        ensures
            step_matches(res, old(self)@, final(self)@, sp_bytes(old(self)@, n as nat)),
    {
        match reader_read_to_vec(self, n) {
            Ok(v) => {
                assert(v.deep_view() =~= v@);
                Ok(v)
            },
            Err(_) => Err(ParseFail::Error(DemError::Eof)),
        }
    }

    pub fn read_option_u32(&mut self, n: u32) -> (res: Result<Option<u32>, ParseFail>)
        requires
            1 <= n <= 32,
        ensures
            step_matches(res, old(self)@, final(self)@, sp_opt_u32(old(self)@, n as nat)),
    {
        if self.read_bit()? {
            Ok(Some(self.read_u32(n)?))
        } else {
            Ok(None)
        }
    }

    pub fn read_option_i32(&mut self, n: u32) -> (res: Result<Option<i32>, ParseFail>)
        requires
            1 <= n <= 32,
        ensures
            step_matches(res, old(self)@, final(self)@, sp_opt_i32(old(self)@, n as nat)),
    {
        if self.read_bit()? {
            Ok(Some(self.read_i32(n)?))
        } else {
            Ok(None)
        }
    }
}

} // verus!
