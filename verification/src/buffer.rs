//! The byte buffers of the `bytes` crate, with the contracts that the rest of the
//! library relies on. Everything in this file is believed, not proved.

use bytes::{Bytes, BytesMut};
use vstd::prelude::*;

verus! {

/// `bytes::BytesMut`, a growable byte buffer.
#[verifier::external_type_specification]
#[verifier::external_body]
pub struct ExBytesMut(bytes::BytesMut);

/// `bytes::Bytes`, a shared immutable byte buffer.
#[verifier::external_type_specification]
#[verifier::external_body]
pub struct ExBytes(bytes::Bytes);

/// The bytes that a `BytesMut` holds, from its first to its last.
pub uninterp spec fn bytes_mut_contents(buf: BytesMut) -> Seq<u8>;

/// The bytes that a `Bytes` holds, from its first to its last.
pub uninterp spec fn bytes_contents(buf: Bytes) -> Seq<u8>;

/// How many bytes a `BytesMut` was made to hold without growing: the capacity that was asked
/// for, whatever the allocator gave on top of it.
pub uninterp spec fn bytes_mut_room(buf: BytesMut) -> nat;

/// A sequence of `n` zero bytes.
pub open spec fn zeros(n: nat) -> Seq<u8> {
    Seq::new(n, |i: int| 0u8)
}

/// The length that any buffer can be grown to, whatever became of it before.
///
/// Growing goes through the allocator, which panics when asked for more than `isize::MAX`
/// bytes. A buffer may ask it for room for the bytes that were already consumed at its
/// front as well, and for twice the room that it has. Neither passes `isize::MAX` as long as
/// the length stays below a quarter of it: consumed room beyond what is held is used again.
pub open spec fn growth_limit() -> int {
    isize::MAX / 4
}

/// `BytesMut::with_capacity`: the buffer starts empty and can hold `capacity` bytes without
/// growing. A capacity beyond `isize::MAX` panics in the allocator.
#[verifier::external_body]
pub(crate) fn bytes_mut_with_capacity(capacity: usize) -> (buf: BytesMut)
    requires
        capacity <= isize::MAX,
    ensures
        bytes_mut_contents(buf) == Seq::<u8>::empty(),
        bytes_mut_room(buf) == capacity,
{
    BytesMut::with_capacity(capacity)
}

/// `BytesMut::len`: the number of bytes held.
#[verifier::external_body]
pub(crate) fn bytes_mut_len(buf: &BytesMut) -> (len: usize)
    ensures
        len == bytes_mut_contents(*buf).len(),
{
    buf.len()
}

/// `BytesMut::resize`: cuts the buffer to `new_len` bytes, or fills it up with `value`. The
/// room that the buffer was made with stays, and is used before the buffer grows.
#[verifier::external_body]
pub(crate) fn bytes_mut_resize(buf: &mut BytesMut, new_len: usize, value: u8)
    requires
        new_len <= growth_limit() || new_len <= bytes_mut_room(*old(buf)),
    ensures
        bytes_mut_room(*final(buf)) == bytes_mut_room(*old(buf)),
        bytes_mut_contents(*final(buf)) == (if new_len <= bytes_mut_contents(*old(buf)).len() {
            bytes_mut_contents(*old(buf)).take(new_len as int)
        } else {
            bytes_mut_contents(*old(buf)) + Seq::new(
                (new_len - bytes_mut_contents(*old(buf)).len()) as nat,
                |i: int| value,
            )
        }),
{
    buf.resize(new_len, value)
}

/// `BytesMut::extend_from_slice`: appends the slice. The room that the buffer was made with
/// is used before the buffer grows.
#[verifier::external_body]
pub(crate) fn bytes_mut_extend_from_slice(buf: &mut BytesMut, extend: &[u8])
    requires
        bytes_mut_contents(*old(buf)).len() + extend@.len() <= growth_limit() || bytes_mut_contents(
            *old(buf),
        ).len() + extend@.len() <= bytes_mut_room(*old(buf)),
    ensures
        bytes_mut_contents(*final(buf)) == bytes_mut_contents(*old(buf)) + extend@,
{
    buf.extend_from_slice(extend)
}

/// `<BytesMut as AsRef<[u8]>>::as_ref`: the bytes held, as a slice.
#[verifier::external_body]
pub(crate) fn bytes_mut_as_slice(buf: &BytesMut) -> (slice: &[u8])
    ensures
        slice@ == bytes_mut_contents(*buf),
{
    buf.as_ref()
}

/// `<BytesMut as AsMut<[u8]>>::as_mut`: the bytes held, as a mutable slice. What is
/// written through the slice is what the buffer then holds.
#[verifier::external_body]
pub(crate) fn bytes_mut_as_mut_slice(buf: &mut BytesMut) -> (slice: &mut [u8])
    ensures
        slice@ == bytes_mut_contents(*old(buf)),
        bytes_mut_contents(*final(buf)) == final(slice)@,
{
    buf.as_mut()
}

/// `<BytesMut as Clone>::clone`: a buffer that holds the same bytes.
#[verifier::external_body]
pub(crate) fn bytes_mut_clone(buf: &BytesMut) -> (copy: BytesMut)
    ensures
        bytes_mut_contents(copy) == bytes_mut_contents(*buf),
{
    buf.clone()
}

/// `BytesMut::freeze`: the same bytes, no longer mutable.
#[verifier::external_body]
pub(crate) fn bytes_mut_freeze(buf: BytesMut) -> (frozen: Bytes)
    ensures
        bytes_contents(frozen) == bytes_mut_contents(buf),
{
    buf.freeze()
}

/// `Bytes::new`: an empty buffer.
#[verifier::external_body]
pub(crate) fn bytes_new() -> (buf: Bytes)
    ensures
        bytes_contents(buf) == Seq::<u8>::empty(),
{
    Bytes::new()
}

/// `<Bytes as From<Vec<u8>>>::from`: a buffer that holds the bytes of the vector.
#[verifier::external_body]
pub(crate) fn bytes_from_vec(vec: Vec<u8>) -> (buf: Bytes)
    ensures
        bytes_contents(buf) == vec@,
{
    Bytes::from(vec)
}

/// `<Bytes as AsRef<[u8]>>::as_ref`: the bytes held, as a slice.
#[verifier::external_body]
pub(crate) fn bytes_as_slice(buf: &Bytes) -> (slice: &[u8])
    ensures
        slice@ == bytes_contents(*buf),
{
    buf.as_ref()
}

/// `<Bytes as Clone>::clone`: a buffer that holds the same bytes.
#[verifier::external_body]
pub(crate) fn bytes_clone(buf: &Bytes) -> (copy: Bytes)
    ensures
        bytes_contents(copy) == bytes_contents(*buf),
{
    buf.clone()
}

} // verus!
