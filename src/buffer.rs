//! The stream buffer: `bytes::BytesMut`, seen through what it holds.
use vstd::prelude::*;

use bytes::{Buf, BufMut, BytesMut};

use crate::wire::{be_encode, be_value};

verus! {

#[verifier::external_type_specification]
#[verifier::external_body]
pub struct ExBytesMut(bytes::BytesMut);

/// The bytes that a `BytesMut` holds, in order.
pub uninterp spec fn buf_contents(b: BytesMut) -> Seq<u8>;

/// Relies on `BytesMut::len`: the number of bytes held.
#[verifier::external_body]
pub(crate) fn buf_len(b: &BytesMut) -> (r: usize)
    ensures
        r == buf_contents(*b).len(),
{
    b.len()
}

/// The number of bytes that `b` holds.
pub fn buffer_len(b: &BytesMut) -> (r: usize)
    ensures
        r == buf_contents(*b).len(),
{
    buf_len(b)
}

/// Relies on `Buf::get_u16` of `&[u8]` (over `BytesMut`'s deref to `[u8]`): the
/// big-endian integer of the two bytes at `at`.
#[verifier::external_body]
pub(crate) fn buf_get_u16(b: &BytesMut, at: usize) -> (r: u16)
    requires
        at + 2 <= buf_contents(*b).len(),
    ensures
        r as nat == be_value(buf_contents(*b).subrange(at as int, at + 2)),
{
    let mut s: &[u8] = &b[at..];
    s.get_u16()
}

/// Relies on `Buf::get_u32` of `&[u8]` (over `BytesMut`'s deref to `[u8]`): the
/// big-endian integer of the four bytes at `at`.
#[verifier::external_body]
pub(crate) fn buf_get_u32(b: &BytesMut, at: usize) -> (r: u32)
    requires
        at + 4 <= buf_contents(*b).len(),
    ensures
        r as nat == be_value(buf_contents(*b).subrange(at as int, at + 4)),
{
    let mut s: &[u8] = &b[at..];
    s.get_u32()
}

/// Relies on `BytesMut::split_to`: the first `at` bytes are handed out, the rest stay.
#[verifier::external_body]
pub(crate) fn buf_split_to(b: &mut BytesMut, at: usize) -> (r: BytesMut)
    requires
        at <= buf_contents(*old(b)).len(),
    ensures
        buf_contents(r) == buf_contents(*old(b)).subrange(0, at as int),
        buf_contents(*final(b)) == buf_contents(*old(b)).subrange(
            at as int,
            buf_contents(*old(b)).len() as int,
        ),
{
    b.split_to(at)
}

/// Relies on `Buf::advance` of `BytesMut`: the first `n` bytes are dropped.
#[verifier::external_body]
pub(crate) fn buf_advance(b: &mut BytesMut, n: usize)
    requires
        n <= buf_contents(*old(b)).len(),
    ensures
        buf_contents(*final(b)) == buf_contents(*old(b)).subrange(
            n as int,
            buf_contents(*old(b)).len() as int,
        ),
{
    b.advance(n)
}

/// Relies on `BytesMut`'s deref to `[u8]`, copied out by `to_vec`: the bytes held.
#[verifier::external_body]
pub(crate) fn buf_to_vec(b: &BytesMut) -> (r: Vec<u8>)
    ensures
        r@ == buf_contents(*b),
{
    b.to_vec()
}

/// Relies on `BufMut::put_u16` of `BytesMut`: appends the two big-endian bytes of `v`.
#[verifier::external_body]
pub(crate) fn buf_put_u16(b: &mut BytesMut, v: u16)
    requires
        buf_contents(*old(b)).len() + 2 <= isize::MAX,
    ensures
        buf_contents(*final(b)) == buf_contents(*old(b)) + be_encode(v as nat, 2),
{
    b.put_u16(v)
}

/// Relies on `BufMut::put_u32` of `BytesMut`: appends the four big-endian bytes of `v`.
#[verifier::external_body]
pub(crate) fn buf_put_u32(b: &mut BytesMut, v: u32)
    requires
        buf_contents(*old(b)).len() + 4 <= isize::MAX,
    ensures
        buf_contents(*final(b)) == buf_contents(*old(b)) + be_encode(v as nat, 4),
{
    b.put_u32(v)
}

/// Relies on `BufMut::put_slice` of `BytesMut`: appends the bytes of `s`.
#[verifier::external_body]
pub(crate) fn buf_put_slice(b: &mut BytesMut, s: &[u8])
    requires
        buf_contents(*old(b)).len() + s@.len() <= isize::MAX,
    ensures
        buf_contents(*final(b)) == buf_contents(*old(b)) + s@,
{
    b.put_slice(s)
}

} // verus!
