//! Byte buffers of the `bytes` crate, as far as packets need them.
//!
//! The contracts in this file are taken from the documentation of `bytes`
//! and are not proved: they state what each call does to the bytes held.

use bytes::{BufMut, Bytes, BytesMut};
use vstd::prelude::*;

verus! {

/// `bytes::Bytes`: an immutable byte buffer. What it holds is spoken of
/// through `bytes_contents` only.
#[verifier::external_type_specification]
#[verifier::external_body]
pub struct ExBytes(Bytes);

/// The bytes that a `bytes::Bytes` holds, in order.
pub uninterp spec fn bytes_contents(buffer: Bytes) -> Seq<u8>;

/// `Bytes::len`: the number of bytes held.
#[verifier::external_body]
pub(crate) fn bytes_len(buffer: &Bytes) -> (len: usize)
    ensures
        len == bytes_contents(*buffer).len(),
{
    buffer.len()
}

/// Indexing a `Bytes` through its `Deref` to a slice: the byte at `index`.
/// It panics past the end, which the contract excludes.
#[verifier::external_body]
pub(crate) fn bytes_at(buffer: &Bytes, index: usize) -> (byte: u8)
    requires
        index < bytes_contents(*buffer).len(),
    ensures
        byte == bytes_contents(*buffer)[index as int],
{
    buffer[index]
}

/// `Bytes::split_off`: afterwards the buffer holds the bytes before `at` and
/// the result those from `at` on. It panics when `at` lies past the end,
/// which the contract excludes.
#[verifier::external_body]
pub(crate) fn bytes_split_off(buffer: &mut Bytes, at: usize) -> (tail: Bytes)
    requires
        at <= bytes_contents(*old(buffer)).len(),
    ensures
        bytes_contents(*final(buffer)) == bytes_contents(*old(buffer)).subrange(0, at as int),
        bytes_contents(tail) == bytes_contents(*old(buffer)).subrange(
            at as int,
            bytes_contents(*old(buffer)).len() as int,
        ),
{
    buffer.split_off(at)
}

/// `bytes::BytesMut`: a growable byte buffer. What it holds is spoken of
/// through `bytes_mut_contents` only.
#[verifier::external_type_specification]
#[verifier::external_body]
pub struct ExBytesMut(BytesMut);

/// The bytes that a `bytes::BytesMut` holds, in order.
pub uninterp spec fn bytes_mut_contents(buffer: BytesMut) -> Seq<u8>;

/// The longest buffer that can be allocated.
pub open spec fn max_buffer_len() -> int {
    isize::MAX as int
}

/// `BytesMut::with_capacity`: an empty buffer. The capacity is a hint for
/// the allocation; one beyond the longest buffer panics, which the contract
/// excludes.
#[verifier::external_body]
pub(crate) fn bytes_mut_with_capacity(capacity: usize) -> (buffer: BytesMut)
    requires
        capacity <= max_buffer_len(),
    ensures
        bytes_mut_contents(buffer) == Seq::<u8>::empty(),
{
    BytesMut::with_capacity(capacity)
}

/// `BufMut::put_u8` on a `BytesMut`: appends one byte. The buffer grows as
/// needed, up to the longest buffer.
#[verifier::external_body]
pub(crate) fn bytes_mut_put_u8(buffer: &mut BytesMut, byte: u8)
    requires
        bytes_mut_contents(*old(buffer)).len() < max_buffer_len(),
    ensures
        bytes_mut_contents(*final(buffer)) == bytes_mut_contents(*old(buffer)).push(byte),
{
    buffer.put_u8(byte);
}

/// `BufMut::put` on a `BytesMut`, from a `Bytes`: appends every byte of
/// `source`. The buffer grows as needed, up to the longest buffer.
#[verifier::external_body]
pub(crate) fn bytes_mut_put(buffer: &mut BytesMut, source: Bytes)
    requires
        bytes_mut_contents(*old(buffer)).len() + bytes_contents(source).len() <= max_buffer_len(),
    ensures
        bytes_mut_contents(*final(buffer)) == bytes_mut_contents(*old(buffer)) + bytes_contents(
            source,
        ),
{
    buffer.put(source);
}

/// `BytesMut::freeze`: the same bytes, from now on immutable.
#[verifier::external_body]
pub(crate) fn bytes_mut_freeze(buffer: BytesMut) -> (frozen: Bytes)
    ensures
        bytes_contents(frozen) == bytes_mut_contents(buffer),
{
    buffer.freeze()
}

} // verus!
