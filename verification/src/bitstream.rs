//! The boundary to the external bit buffer. The buffer and its read cursor
//! live in one opaque handle; its unread contents are named as a bit
//! sequence, and each read the library performs goes through one small
//! trusted wrapper whose contract states, over that name, what the buffer's
//! own code does.

use crate::bits::bits_to_bytes;
use crate::bits::bits_to_uint;
use crate::bits::bytes_to_bits;
use bitbuffer::BigEndian;
use bitbuffer::BitReadBuffer;
use bitbuffer::BitReadStream;
use vstd::prelude::*;

verus! {

/// An owned bit buffer together with its read cursor, most significant bit
/// of each byte first. Opaque to the verifier: everything known about it is
/// said through `stream_bits` and `stream_total_bits` by the wrappers below.
#[verifier::external_body]
pub struct RawBitStream {
    stream: BitReadStream<'static, BigEndian>,
}

/// The bits a stream has not read yet.
pub uninterp spec fn stream_bits(s: RawBitStream) -> Seq<bool>;

/// The total bit length of the stream's underlying buffer, which no read
/// changes.
pub uninterp spec fn stream_total_bits(s: RawBitStream) -> nat;

/// Relies on BitReadBuffer::new_owned and BitReadStream::new: the stream
/// holds all bits of the given bytes with nothing read yet.
#[verifier::external_body]
pub(crate) fn stream_from_bytes(bytes: Vec<u8>) -> (s: RawBitStream)
    requires
        8 * bytes@.len() + 64 <= usize::MAX,
    ensures
        stream_bits(s) == bytes_to_bits(bytes@),
        stream_total_bits(s) == bytes_to_bits(bytes@).len(),
{
    RawBitStream { stream: BitReadStream::new(BitReadBuffer::new_owned(bytes, BigEndian)) }
}

/// Relies on BitReadStream::bits_left: the number of unread bits.
#[verifier::external_body]
pub(crate) fn stream_bits_left(s: &RawBitStream) -> (n: usize)
    ensures
        n as nat == stream_bits(*s).len(),
{
    s.stream.bits_left()
}

/// Relies on BitReadStream::read_bool: with at least one bit left, it
/// returns that bit and advances exactly past it.
#[verifier::external_body]
pub(crate) fn stream_read_bool(s: &mut RawBitStream) -> (b: bool)
    requires
        stream_bits(*old(s)).len() >= 1,
    ensures
        b == stream_bits(*old(s))[0],
        stream_bits(*final(s)) == stream_bits(*old(s)).skip(1),
        stream_total_bits(*final(s)) == stream_total_bits(*old(s)),
    no_unwind
{
    s.stream.read_bool().unwrap()
}

/// Relies on BitReadStream::read_int::<u8>: with `count` between one and
/// eight and enough bits left, it returns the value of the first `count`
/// unread bits, first bit most significant, and advances exactly past them.
/// A zero-width read is excluded: on it the buffer's shift arithmetic
/// overflows.
#[verifier::external_body]
pub(crate) fn stream_read_int_u8(s: &mut RawBitStream, count: usize) -> (v: u8)
    requires
        stream_bits(*old(s)).len() <= stream_total_bits(*old(s)),
        stream_total_bits(*old(s)) + 64 <= usize::MAX,
        1 <= count <= 8,
        count <= stream_bits(*old(s)).len(),
    ensures
        v as nat == bits_to_uint(stream_bits(*old(s)).take(count as int)),
        stream_bits(*final(s)) == stream_bits(*old(s)).skip(count as int),
        stream_total_bits(*final(s)) == stream_total_bits(*old(s)),
    no_unwind
{
    s.stream.read_int::<u8>(count).unwrap()
}

/// Relies on BitReadStream::read_int::<u16>: as for the eight-bit variant,
/// with `count` between one and sixteen.
#[verifier::external_body]
pub(crate) fn stream_read_int_u16(s: &mut RawBitStream, count: usize) -> (v: u16)
    requires
        stream_bits(*old(s)).len() <= stream_total_bits(*old(s)),
        stream_total_bits(*old(s)) + 64 <= usize::MAX,
        1 <= count <= 16,
        count <= stream_bits(*old(s)).len(),
    ensures
        v as nat == bits_to_uint(stream_bits(*old(s)).take(count as int)),
        stream_bits(*final(s)) == stream_bits(*old(s)).skip(count as int),
        stream_total_bits(*final(s)) == stream_total_bits(*old(s)),
    no_unwind
{
    s.stream.read_int::<u16>(count).unwrap()
}

/// Relies on BitReadStream::read_int::<u32>: as for the eight-bit variant,
/// with `count` between one and thirty-two.
#[verifier::external_body]
pub(crate) fn stream_read_int_u32(s: &mut RawBitStream, count: usize) -> (v: u32)
    requires
        stream_bits(*old(s)).len() <= stream_total_bits(*old(s)),
        stream_total_bits(*old(s)) + 64 <= usize::MAX,
        1 <= count <= 32,
        count <= stream_bits(*old(s)).len(),
    ensures
        v as nat == bits_to_uint(stream_bits(*old(s)).take(count as int)),
        stream_bits(*final(s)) == stream_bits(*old(s)).skip(count as int),
        stream_total_bits(*final(s)) == stream_total_bits(*old(s)),
    no_unwind
{
    s.stream.read_int::<u32>(count).unwrap()
}

/// Relies on BitReadStream::read_bytes: with enough bits left, it returns
/// the next `byte_count` bytes' worth of bits, regrouped eight at a time,
/// and advances exactly past them.
#[verifier::external_body]
pub(crate) fn stream_read_bytes(s: &mut RawBitStream, byte_count: usize) -> (v: Vec<u8>)
    requires
        stream_bits(*old(s)).len() <= stream_total_bits(*old(s)),
        stream_total_bits(*old(s)) + 64 <= usize::MAX,
        8 * byte_count <= stream_bits(*old(s)).len(),
    ensures
        v@ == bits_to_bytes(stream_bits(*old(s)).take(8 * byte_count as int)),
        stream_bits(*final(s)) == stream_bits(*old(s)).skip(8 * byte_count as int),
        stream_total_bits(*final(s)) == stream_total_bits(*old(s)),
    no_unwind
{
    s.stream.read_bytes(byte_count).unwrap().into_owned()
}

} // verus!
