//! Absorbing a byte sequence: whole words first, then what remains.

use crate::mix::{mix32, mix64, mix_word32, mix_word64};
use crate::native::{native_u32, native_u64, read_native_u32, read_native_u64};
use vstd::prelude::*;

verus! {

/// Mixes each byte of `b` into the 32-bit accumulator `h`, one step per byte.
pub open spec fn each_byte32(h: u32, b: Seq<u8>) -> u32
    decreases b.len(),
{
    if b.len() == 0 {
        h
    } else {
        each_byte32(mix32(h, b[0] as u32), b.skip(1))
    }
}

/// Mixes each byte of `b` into the 64-bit accumulator `h`, one step per byte.
pub open spec fn each_byte64(h: u64, b: Seq<u8>) -> u64
    decreases b.len(),
{
    if b.len() == 0 {
        h
    } else {
        each_byte64(mix64(h, b[0] as u64), b.skip(1))
    }
}

/// The 32-bit accumulator after absorbing `b`: one step per four-byte word,
/// then one per remaining byte.
pub open spec fn absorb32(h: u32, b: Seq<u8>) -> u32
    decreases b.len(),
{
    if b.len() >= 4 {
        absorb32(mix32(h, native_u32(b)), b.skip(4))
    } else {
        each_byte32(h, b)
    }
}

/// The 64-bit accumulator after absorbing `b`: one step per eight-byte word,
/// then one for a four-byte chunk if at least four bytes remain, then one per
/// remaining byte.
pub open spec fn absorb64(h: u64, b: Seq<u8>) -> u64
    decreases b.len(),
{
    if b.len() >= 8 {
        absorb64(mix64(h, native_u64(b)), b.skip(8))
    } else if b.len() >= 4 {
        each_byte64(mix64(h, native_u32(b) as u64), b.skip(4))
    } else {
        each_byte64(h, b)
    }
}

/// Mixes each byte of `bytes` into the 32-bit accumulator `h`.
fn absorb_each_byte32(h: u32, bytes: &[u8]) -> (r: u32)
    ensures
        r == each_byte32(h, bytes@),
{
    let mut acc: u32 = h;
    let mut i: usize = 0;
    assert(bytes@.skip(0) =~= bytes@);
    while i < bytes.len()
        invariant
            i <= bytes@.len(),
            each_byte32(h, bytes@) == each_byte32(acc, bytes@.skip(i as int)),
        decreases bytes@.len() - i,
    {
        assert(bytes@.skip(i as int).skip(1) =~= bytes@.skip(i + 1));
        acc = mix_word32(acc, bytes[i] as u32);
        i = i + 1;
    }
    acc
}

/// Mixes each byte of `bytes` into the 64-bit accumulator `h`.
fn absorb_each_byte64(h: u64, bytes: &[u8]) -> (r: u64)
    ensures
        r == each_byte64(h, bytes@),
{
    let mut acc: u64 = h;
    let mut i: usize = 0;
    assert(bytes@.skip(0) =~= bytes@);
    while i < bytes.len()
        invariant
            i <= bytes@.len(),
            each_byte64(h, bytes@) == each_byte64(acc, bytes@.skip(i as int)),
        decreases bytes@.len() - i,
    {
        assert(bytes@.skip(i as int).skip(1) =~= bytes@.skip(i + 1));
        acc = mix_word64(acc, bytes[i] as u64);
        i = i + 1;
    }
    acc
}

/// Absorbs `bytes` into the 32-bit accumulator `h`.
pub fn absorb_bytes32(h: u32, bytes: &[u8]) -> (r: u32)
    ensures
        r == absorb32(h, bytes@),
{
    let mut acc: u32 = h;
    let mut rest: &[u8] = bytes;
    while rest.len() >= 4
        invariant
            absorb32(h, bytes@) == absorb32(acc, rest@),
        decreases rest@.len(),
    {
        let n: u32 = read_native_u32(rest);
        acc = mix_word32(acc, n);
        rest = rest.split_at(4).1;
    }
    absorb_each_byte32(acc, rest)
}

/// Absorbs `bytes` into the 64-bit accumulator `h`.
pub fn absorb_bytes64(h: u64, bytes: &[u8]) -> (r: u64)
    ensures
        r == absorb64(h, bytes@),
{
    let mut acc: u64 = h;
    let mut rest: &[u8] = bytes;
    while rest.len() >= 8
        invariant
            absorb64(h, bytes@) == absorb64(acc, rest@),
        decreases rest@.len(),
    {
        let n: u64 = read_native_u64(rest);
        acc = mix_word64(acc, n);
        rest = rest.split_at(8).1;
    }
    if rest.len() >= 4 {
        let n: u32 = read_native_u32(rest);
        acc = mix_word64(acc, n as u64);
        rest = rest.split_at(4).1;
    }
    absorb_each_byte64(acc, rest)
}

} // verus!
