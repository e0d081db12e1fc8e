//! The growable byte buffer of the `bytes` crate, as this library uses it.
//!
//! Every item here is trusted: its contract is read from the `bytes` source.

use vstd::prelude::*;
use bytes::BufMut;
use bytes::BytesMut;
use crate::wire::{be16, be32, be64};

verus! {

#[verifier::external_type_specification]
#[verifier::external_body]
pub struct ExBytesMut(bytes::BytesMut);

/// The bytes a `BytesMut` holds, in order.
pub uninterp spec fn bytes_mut_contents(b: BytesMut) -> Seq<u8>;

/// `BytesMut::with_capacity`: an empty buffer (it holds no bytes, whatever
/// capacity it reserved).
#[verifier::external_body]
pub(crate) fn bm_with_capacity(capacity: usize) -> (b: BytesMut)
    requires
        capacity <= isize::MAX,
    ensures
        bytes_mut_contents(b) == Seq::<u8>::empty(),
{
    BytesMut::with_capacity(capacity)
}

/// `BytesMut::new`: an empty buffer.
#[verifier::external_body]
pub(crate) fn bm_new() -> (b: BytesMut)
    ensures
        bytes_mut_contents(b) == Seq::<u8>::empty(),
{
    BytesMut::new()
}

/// `BytesMut::len`: the number of bytes held.
#[verifier::external_body]
pub(crate) fn bm_len(b: &BytesMut) -> (n: usize)
    ensures
        n == bytes_mut_contents(*b).len(),
{
    b.len()
}

/// `BytesMut::is_empty`: whether no byte is held.
#[verifier::external_body]
pub(crate) fn bm_is_empty(b: &BytesMut) -> (e: bool)
    ensures
        e == (bytes_mut_contents(*b).len() == 0),
{
    b.is_empty()
}

/// `BytesMut::clear`: drops every byte held.
#[verifier::external_body]
pub(crate) fn bm_clear(b: &mut BytesMut)
    ensures
        bytes_mut_contents(*final(b)) == Seq::<u8>::empty(),
{
    b.clear()
}

/// `[u8]::to_vec` on the bytes of a `BytesMut` (through its `Deref`): a copy
/// of the bytes held.
#[verifier::external_body]
pub(crate) fn bm_to_vec(b: &BytesMut) -> (v: Vec<u8>)
    ensures
        v@ == bytes_mut_contents(*b),
{
    b.to_vec()
}

/// The bytes of a `BytesMut` as a slice (its `Deref` to `[u8]`).
#[verifier::external_body]
pub(crate) fn bm_as_slice(b: &BytesMut) -> (s: &[u8])
    ensures
        s@ == bytes_mut_contents(*b),
{
    &b[..]
}

/// `BufMut::put_u8` on `BytesMut`: appends the octet.
#[verifier::external_body]
pub(crate) fn bm_put_u8(b: &mut BytesMut, n: u8)
    requires
        bytes_mut_contents(*old(b)).len() + 1 <= isize::MAX,
    ensures
        bytes_mut_contents(*final(b)) == bytes_mut_contents(*old(b)).push(n),
{
    b.put_u8(n)
}

/// `BufMut::put_u16` on `BytesMut`: appends the two big-endian octets.
#[verifier::external_body]
pub(crate) fn bm_put_u16(b: &mut BytesMut, n: u16)
    requires
        bytes_mut_contents(*old(b)).len() + 2 <= isize::MAX,
    ensures
        bytes_mut_contents(*final(b)) == bytes_mut_contents(*old(b)) + be16(n),
{
    b.put_u16(n)
}

/// `BufMut::put_u32` on `BytesMut`: appends the four big-endian octets.
#[verifier::external_body]
pub(crate) fn bm_put_u32(b: &mut BytesMut, n: u32)
    requires
        bytes_mut_contents(*old(b)).len() + 4 <= isize::MAX,
    ensures
        bytes_mut_contents(*final(b)) == bytes_mut_contents(*old(b)) + be32(n),
{
    b.put_u32(n)
}

/// `BufMut::put_u64` on `BytesMut`: appends the eight big-endian octets.
#[verifier::external_body]
pub(crate) fn bm_put_u64(b: &mut BytesMut, n: u64)
    requires
        bytes_mut_contents(*old(b)).len() + 8 <= isize::MAX,
    ensures
        bytes_mut_contents(*final(b)) == bytes_mut_contents(*old(b)) + be64(n),
{
    b.put_u64(n)
}

/// `BufMut::put_slice` on `BytesMut`: appends the slice.
#[verifier::external_body]
pub(crate) fn bm_put_slice(b: &mut BytesMut, src: &[u8])
    requires
        bytes_mut_contents(*old(b)).len() + src@.len() <= isize::MAX,
    ensures
        bytes_mut_contents(*final(b)) == bytes_mut_contents(*old(b)) + src@,
{
    b.put_slice(src)
}

} // verus!
