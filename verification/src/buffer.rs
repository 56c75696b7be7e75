//! The byte buffers of the `bytes` crate as this library sees them: two opaque
//! types, the byte sequence that each holds, and one contract per method that
//! the library calls. Nothing in this file is proved; every contract restates
//! what the method's documentation and source say.

use bytes::{Buf, BufMut, Bytes, BytesMut};
use vstd::prelude::*;

use crate::endian::{
    be_bytes_u16, be_bytes_u32, be_bytes_u64, be_value_u16, be_value_u32, be_value_u64,
};

verus! {

/// `bytes::Bytes`: an immutable run of bytes, opaque but for what it holds.
#[verifier::external_type_specification]
#[verifier::external_body]
pub struct ExBytes(bytes::Bytes);

/// `bytes::BytesMut`: a growable run of bytes, opaque but for what it holds.
#[verifier::external_type_specification]
#[verifier::external_body]
pub struct ExBytesMut(bytes::BytesMut);

/// The bytes that a `Bytes` holds, first to last.
pub uninterp spec fn bytes_contents(b: Bytes) -> Seq<u8>;

/// The bytes that a `BytesMut` holds, first to last.
pub uninterp spec fn buf_contents(b: BytesMut) -> Seq<u8>;

/// `BytesMut::with_capacity`: a new buffer that holds no bytes. The allocation
/// panics on a capacity above `isize::MAX`, which the precondition leaves out.
#[verifier::external_body]
pub(crate) fn buf_with_capacity(capacity: usize) -> (buf: BytesMut)
    requires
        capacity <= isize::MAX,
    ensures
        buf_contents(buf) == Seq::<u8>::empty(),
{
    BytesMut::with_capacity(capacity)
}

/// `BytesMut::len`: the number of bytes held.
#[verifier::external_body]
pub(crate) fn buf_len(buf: &BytesMut) -> (n: usize)
    ensures
        n == buf_contents(*buf).len(),
{
    buf.len()
}

/// `BufMut::put_u8` on a `BytesMut`: appends the byte, growing the buffer as
/// needed.
#[verifier::external_body]
pub(crate) fn buf_put_u8(buf: &mut BytesMut, n: u8)
    requires
        buf_contents(*old(buf)).len() + 1 <= isize::MAX,
    ensures
        buf_contents(*final(buf)) == buf_contents(*old(buf)).push(n),
{
    buf.put_u8(n)
}

/// `BufMut::put_u16` on a `BytesMut`: appends the two bytes of `n` in
/// big-endian order.
#[verifier::external_body]
pub(crate) fn buf_put_u16(buf: &mut BytesMut, n: u16)
    requires
        buf_contents(*old(buf)).len() + 2 <= isize::MAX,
    ensures
        buf_contents(*final(buf)) == buf_contents(*old(buf)) + be_bytes_u16(n),
{
    buf.put_u16(n)
}

/// `BufMut::put_u32` on a `BytesMut`: appends the four bytes of `n` in
/// big-endian order.
#[verifier::external_body]
pub(crate) fn buf_put_u32(buf: &mut BytesMut, n: u32)
    requires
        buf_contents(*old(buf)).len() + 4 <= isize::MAX,
    ensures
        buf_contents(*final(buf)) == buf_contents(*old(buf)) + be_bytes_u32(n),
{
    buf.put_u32(n)
}

/// `BufMut::put_u64` on a `BytesMut`: appends the eight bytes of `n` in
/// big-endian order.
#[verifier::external_body]
pub(crate) fn buf_put_u64(buf: &mut BytesMut, n: u64)
    requires
        buf_contents(*old(buf)).len() + 8 <= isize::MAX,
    ensures
        buf_contents(*final(buf)) == buf_contents(*old(buf)) + be_bytes_u64(n),
{
    buf.put_u64(n)
}

/// `BytesMut::extend_from_slice`: appends the slice, growing the buffer as
/// needed.
#[verifier::external_body]
pub(crate) fn buf_extend_from_slice(buf: &mut BytesMut, extend: &[u8])
    requires
        buf_contents(*old(buf)).len() + extend@.len() <= isize::MAX,
    ensures
        buf_contents(*final(buf)) == buf_contents(*old(buf)) + extend@,
{
    buf.extend_from_slice(extend)
}

/// `Deref` of a `BytesMut`: the held bytes as a slice.
#[verifier::external_body]
pub(crate) fn buf_as_slice(buf: &BytesMut) -> (s: &[u8])
    ensures
        s@ == buf_contents(*buf),
{
    &buf[..]
}

/// `BytesMut::split_to`: hands out the first `at` bytes and keeps the rest.
/// It panics when `at` is past the end, which the precondition leaves out.
#[verifier::external_body]
pub(crate) fn buf_split_to(buf: &mut BytesMut, at: usize) -> (front: BytesMut)
    requires
        at <= buf_contents(*old(buf)).len(),
    ensures
        buf_contents(front) == buf_contents(*old(buf)).take(at as int),
        buf_contents(*final(buf)) == buf_contents(*old(buf)).skip(at as int),
{
    buf.split_to(at)
}

/// `BytesMut::freeze`: the same bytes, now immutable.
#[verifier::external_body]
pub(crate) fn buf_freeze(buf: BytesMut) -> (b: Bytes)
    ensures
        bytes_contents(b) == buf_contents(buf),
{
    buf.freeze()
}

/// `Clone` for `Bytes`: another handle on the same bytes.
pub assume_specification[ <Bytes as Clone>::clone ](b: &Bytes) -> (c: Bytes)
    ensures
        bytes_contents(c) == bytes_contents(*b),
;

/// `Bytes::copy_from_slice`: a `Bytes` holding a copy of the slice.
#[verifier::external_body]
pub(crate) fn bytes_copy_from_slice(data: &[u8]) -> (b: Bytes)
    ensures
        bytes_contents(b) == data@,
{
    Bytes::copy_from_slice(data)
}

/// `Bytes::from` for a `Vec<u8>`: a `Bytes` holding the vector's bytes.
#[verifier::external_body]
pub(crate) fn bytes_from_vec(data: Vec<u8>) -> (b: Bytes)
    ensures
        bytes_contents(b) == data@,
{
    Bytes::from(data)
}

/// `Deref` of a `Bytes`: the held bytes as a slice.
#[verifier::external_body]
pub(crate) fn bytes_as_slice(b: &Bytes) -> (s: &[u8])
    ensures
        s@ == bytes_contents(*b),
{
    &b[..]
}

/// `Buf::remaining` on a `Bytes`: the number of bytes not yet read, which is
/// all that it holds.
#[verifier::external_body]
pub(crate) fn bytes_remaining(b: &Bytes) -> (n: usize)
    ensures
        n == bytes_contents(*b).len(),
{
    b.remaining()
}

/// `Buf::get_u8` on a `Bytes`: takes the first byte off the front. It panics
/// on an empty buffer, which the precondition leaves out.
#[verifier::external_body]
pub(crate) fn bytes_get_u8(b: &mut Bytes) -> (v: u8)
    requires
        bytes_contents(*old(b)).len() >= 1,
    ensures
        v == bytes_contents(*old(b))[0],
        bytes_contents(*final(b)) == bytes_contents(*old(b)).skip(1),
{
    b.get_u8()
}

/// `Buf::get_u16` on a `Bytes`: takes two bytes off the front and reads them
/// in big-endian order. It panics on fewer than two bytes.
#[verifier::external_body]
pub(crate) fn bytes_get_u16(b: &mut Bytes) -> (v: u16)
    requires
        bytes_contents(*old(b)).len() >= 2,
    ensures
        v == be_value_u16(bytes_contents(*old(b)).take(2)),
        bytes_contents(*final(b)) == bytes_contents(*old(b)).skip(2),
{
    b.get_u16()
}

/// `Buf::get_u32` on a `Bytes`: takes four bytes off the front and reads them
/// in big-endian order. It panics on fewer than four bytes.
#[verifier::external_body]
pub(crate) fn bytes_get_u32(b: &mut Bytes) -> (v: u32)
    requires
        bytes_contents(*old(b)).len() >= 4,
    ensures
        v == be_value_u32(bytes_contents(*old(b)).take(4)),
        bytes_contents(*final(b)) == bytes_contents(*old(b)).skip(4),
{
    b.get_u32()
}

/// `Buf::get_u64` on a `Bytes`: takes eight bytes off the front and reads them
/// in big-endian order. It panics on fewer than eight bytes.
#[verifier::external_body]
pub(crate) fn bytes_get_u64(b: &mut Bytes) -> (v: u64)
    requires
        bytes_contents(*old(b)).len() >= 8,
    ensures
        v == be_value_u64(bytes_contents(*old(b)).take(8)),
        bytes_contents(*final(b)) == bytes_contents(*old(b)).skip(8),
{
    b.get_u64()
}

/// `Bytes::split_to`: hands out the first `at` bytes and keeps the rest. It
/// panics when `at` is past the end, which the precondition leaves out.
#[verifier::external_body]
pub(crate) fn bytes_split_to(b: &mut Bytes, at: usize) -> (front: Bytes)
    requires
        at <= bytes_contents(*old(b)).len(),
    ensures
        bytes_contents(front) == bytes_contents(*old(b)).take(at as int),
        bytes_contents(*final(b)) == bytes_contents(*old(b)).skip(at as int),
{
    b.split_to(at)
}

} // verus!
