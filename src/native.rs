//! Reading fixed-width unsigned integers from bytes in the target's byte order.

use byteorder::{ByteOrder, NativeEndian};
use vstd::endian::{endianness, Endian};
use vstd::prelude::*;

verus! {

/// The first four bytes of `b` read as a little-endian integer.
pub open spec fn le_u32(b: Seq<u8>) -> u32 {
    (b[0] as u32) | ((b[1] as u32) << 8u32) | ((b[2] as u32) << 16u32) | ((b[3] as u32) << 24u32)
}

/// The first four bytes of `b` read as a big-endian integer.
pub open spec fn be_u32(b: Seq<u8>) -> u32 {
    (b[3] as u32) | ((b[2] as u32) << 8u32) | ((b[1] as u32) << 16u32) | ((b[0] as u32) << 24u32)
}

/// The first eight bytes of `b` read as a little-endian integer.
pub open spec fn le_u64(b: Seq<u8>) -> u64 {
    (le_u32(b) as u64) | ((le_u32(b.skip(4)) as u64) << 32u64)
}

/// The first eight bytes of `b` read as a big-endian integer.
pub open spec fn be_u64(b: Seq<u8>) -> u64 {
    (be_u32(b.skip(4)) as u64) | ((be_u32(b) as u64) << 32u64)
}

/// The first four bytes of `b` read in the byte order of the target.
pub open spec fn native_u32(b: Seq<u8>) -> u32 {
    match endianness() {
        Endian::Little => le_u32(b),
        Endian::Big => be_u32(b),
    }
}

/// The first eight bytes of `b` read in the byte order of the target.
pub open spec fn native_u64(b: Seq<u8>) -> u64 {
    match endianness() {
        Endian::Little => le_u64(b),
        Endian::Big => be_u64(b),
    }
}

/// The four bytes that hold `x` in the byte order of the target.
pub open spec fn native_bytes_u32(x: u32) -> Seq<u8> {
    let lo = seq![x as u8, (x >> 8u32) as u8, (x >> 16u32) as u8, (x >> 24u32) as u8];
    match endianness() {
        Endian::Little => lo,
        Endian::Big => lo.reverse(),
    }
}

/// Reading back the native encoding of `x` gives `x`.
pub proof fn lemma_native_u32_of_bytes(x: u32)
    ensures
        native_bytes_u32(x).len() == 4,
        native_u32(native_bytes_u32(x)) == x,
{
    let b0 = x as u8;
    let b1 = (x >> 8u32) as u8;
    let b2 = (x >> 16u32) as u8;
    let b3 = (x >> 24u32) as u8;
    assert((b0 as u32) | ((b1 as u32) << 8u32) | ((b2 as u32) << 16u32) | ((b3 as u32) << 24u32)
        == x) by (bit_vector)
        requires
            b0 == x as u8,
            b1 == (x >> 8u32) as u8,
            b2 == (x >> 16u32) as u8,
            b3 == (x >> 24u32) as u8,
    ;
    let lo = seq![b0, b1, b2, b3];
    assert(lo.reverse() =~= seq![b3, b2, b1, b0]);
}

/// The eight bytes that hold `x` in the byte order of the target.
pub open spec fn native_bytes_u64(x: u64) -> Seq<u8> {
    let lo = seq![
        x as u8,
        (x >> 8u64) as u8,
        (x >> 16u64) as u8,
        (x >> 24u64) as u8,
        (x >> 32u64) as u8,
        (x >> 40u64) as u8,
        (x >> 48u64) as u8,
        (x >> 56u64) as u8,
    ];
    match endianness() {
        Endian::Little => lo,
        Endian::Big => lo.reverse(),
    }
}

/// Reading back the native encoding of `x` gives `x`; where the target is
/// little-endian, its two halves read as 32-bit words are the low and the high
/// half of `x`.
pub proof fn lemma_native_u64_of_bytes(x: u64)
    ensures
        native_bytes_u64(x).len() == 8,
        native_u64(native_bytes_u64(x)) == x,
        endianness() == Endian::Little ==> native_u32(native_bytes_u64(x)) == x as u32,
        endianness() == Endian::Little ==> native_u32(native_bytes_u64(x).skip(4)) == (x
            >> 32u64) as u32,
{
    let b0 = x as u8;
    let b1 = (x >> 8u64) as u8;
    let b2 = (x >> 16u64) as u8;
    let b3 = (x >> 24u64) as u8;
    let b4 = (x >> 32u64) as u8;
    let b5 = (x >> 40u64) as u8;
    let b6 = (x >> 48u64) as u8;
    let b7 = (x >> 56u64) as u8;
    let lo32 = (b0 as u32) | ((b1 as u32) << 8u32) | ((b2 as u32) << 16u32) | ((b3 as u32)
        << 24u32);
    let hi32 = (b4 as u32) | ((b5 as u32) << 8u32) | ((b6 as u32) << 16u32) | ((b7 as u32)
        << 24u32);
    assert(lo32 == x as u32 && hi32 == (x >> 32u64) as u32 && ((lo32 as u64) | ((hi32 as u64)
        << 32u64)) == x) by (bit_vector)
        requires
            b0 == x as u8,
            b1 == (x >> 8u64) as u8,
            b2 == (x >> 16u64) as u8,
            b3 == (x >> 24u64) as u8,
            b4 == (x >> 32u64) as u8,
            b5 == (x >> 40u64) as u8,
            b6 == (x >> 48u64) as u8,
            b7 == (x >> 56u64) as u8,
            lo32 == (b0 as u32) | ((b1 as u32) << 8u32) | ((b2 as u32) << 16u32) | ((b3 as u32)
                << 24u32),
            hi32 == (b4 as u32) | ((b5 as u32) << 8u32) | ((b6 as u32) << 16u32) | ((b7 as u32)
                << 24u32),
    ;
    let lo = seq![b0, b1, b2, b3, b4, b5, b6, b7];
    assert(lo.skip(4) =~= seq![b4, b5, b6, b7]);
    assert(lo.reverse() =~= seq![b7, b6, b5, b4, b3, b2, b1, b0]);
    assert(lo.reverse().skip(4) =~= seq![b3, b2, b1, b0]);
}

/// Relies on byteorder's `NativeEndian::read_u32`, which is `LittleEndian`'s or
/// `BigEndian`'s by target: it decodes `buf[..4]` and panics on a shorter buffer.
#[verifier::external_body]
pub(crate) fn read_native_u32(buf: &[u8]) -> (r: u32)
    requires
        buf@.len() >= 4,
    ensures
        r == native_u32(buf@),
{
    NativeEndian::read_u32(buf)
}

/// Relies on byteorder's `NativeEndian::read_u64`, which is `LittleEndian`'s or
/// `BigEndian`'s by target: it decodes `buf[..8]` and panics on a shorter buffer.
#[verifier::external_body]
pub(crate) fn read_native_u64(buf: &[u8]) -> (r: u64)
    requires
        buf@.len() >= 8,
    ensures
        r == native_u64(buf@),
{
    NativeEndian::read_u64(buf)
}

} // verus!
