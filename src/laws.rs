//! Properties that relate several operations of the hasher.

use crate::absorb::{absorb32, absorb64, each_byte32, each_byte64};
use crate::hasher::{word_absorb, word_absorb_u64, word_mix};
use crate::mix::{mix32, mix64, K32, K64};
use crate::native::{
    lemma_native_u32_of_bytes, lemma_native_u64_of_bytes, native_bytes_u32, native_bytes_u64,
    native_u32, native_u64,
};
use vstd::endian::{endianness, Endian};
use vstd::prelude::*;

verus! {

/// The number of bytes in a machine word.
pub open spec fn word_bytes() -> nat {
    if usize::BITS == 64 {
        8
    } else {
        4
    }
}

/// The multiplier of the mixing step for the machine word.
pub open spec fn word_k() -> usize {
    if usize::BITS == 64 {
        K64 as usize
    } else {
        K32 as usize
    }
}

proof fn lemma_native_prefix(a: Seq<u8>, b: Seq<u8>, n: int)
    requires
        n == 4 || n == 8,
        a.len() >= n,
    ensures
        n == 4 ==> native_u32(a + b) == native_u32(a),
        n == 8 ==> native_u64(a + b) == native_u64(a),
{
    let ab = a + b;
    assert(forall|k: int| 0 <= k < n ==> ab[k] == a[k]);
    assert(forall|k: int| 0 <= k < n - 4 ==> #[trigger] ab.skip(4)[k] == a.skip(4)[k]);
}

proof fn lemma_split64(h: u64, a: Seq<u8>, b: Seq<u8>)
    requires
        a.len() % 8 == 0,
    ensures
        absorb64(absorb64(h, a), b) == absorb64(h, a + b),
    decreases a.len(),
{
    if a.len() == 0 {
        assert(a + b =~= b);
    } else {
        lemma_native_prefix(a, b, 8);
        assert((a + b).skip(8) =~= a.skip(8) + b);
        lemma_split64(mix64(h, native_u64(a)), a.skip(8), b);
    }
}

proof fn lemma_split32(h: u32, a: Seq<u8>, b: Seq<u8>)
    requires
        a.len() % 4 == 0,
    ensures
        absorb32(absorb32(h, a), b) == absorb32(h, a + b),
    decreases a.len(),
{
    if a.len() == 0 {
        assert(a + b =~= b);
    } else {
        lemma_native_prefix(a, b, 4);
        assert((a + b).skip(4) =~= a.skip(4) + b);
        lemma_split32(mix32(h, native_u32(a)), a.skip(4), b);
    }
}

/// Splitting a byte sequence into two writes at a whole number of machine
/// words gives the same state as one write of the whole sequence.
pub proof fn law_aligned_split(h: usize, a: Seq<u8>, b: Seq<u8>)
    requires
        a.len() % word_bytes() == 0,
    ensures
        word_absorb(word_absorb(h, a), b) == word_absorb(h, a + b),
{
    if usize::BITS == 64 {
        lemma_split64(h as u64, a, b);
    } else {
        lemma_split32(h as u32, a, b);
    }
}

/// Absorbing the native-order four-byte encoding of `x` as bytes gives the
/// same state as absorbing `x` as a 32-bit value.
pub proof fn law_u32_as_bytes(h: usize, x: u32)
    ensures
        word_absorb(h, native_bytes_u32(x)) == word_mix(h, x as usize),
{
    lemma_native_u32_of_bytes(x);
    let b = native_bytes_u32(x);
    assert(b.skip(4).len() == 0);
    if usize::BITS == 64 {
        assert(absorb64(h as u64, b) == each_byte64(mix64(h as u64, x as u64), b.skip(4)));
    } else {
        assert(absorb32(h as u32, b) == absorb32(mix32(h as u32, x), b.skip(4)));
        assert(absorb32(mix32(h as u32, x), b.skip(4)) == each_byte32(mix32(h as u32, x), b.skip(4)));
    }
}

/// Absorbing the native-order eight-byte encoding of `x` as bytes gives the
/// same state as absorbing `x` as a 64-bit value, where a word is 64 bits wide
/// or the target is little-endian.
pub proof fn law_u64_as_bytes(h: usize, x: u64)
    requires
        usize::BITS == 64 || endianness() == Endian::Little,
    ensures
        word_absorb(h, native_bytes_u64(x)) == word_absorb_u64(h, x),
{
    lemma_native_u64_of_bytes(x);
    let b = native_bytes_u64(x);
    assert(b.skip(8).len() == 0);
    if usize::BITS == 64 {
        assert(absorb64(h as u64, b) == absorb64(mix64(h as u64, x), b.skip(8)));
    } else {
        let h1 = mix32(h as u32, x as u32);
        let h2 = mix32(h1, (x >> 32u64) as u32);
        assert(b.skip(4).skip(4) =~= b.skip(8));
        assert(absorb32(h as u32, b) == absorb32(h1, b.skip(4)));
        assert(absorb32(h1, b.skip(4)) == absorb32(h2, b.skip(8)));
        assert(absorb32(h2, b.skip(8)) == each_byte32(h2, b.skip(8)));
        assert(((x as u32) as usize) as u32 == x as u32);
    }
}

/// Absorbing the single byte `x` as bytes gives the same state as absorbing
/// it as an 8-bit value.
pub proof fn law_u8_as_bytes(h: usize, x: u8)
    ensures
        word_absorb(h, seq![x]) == word_mix(h, x as usize),
{
    let b = seq![x];
    assert(b.skip(1).len() == 0);
    reveal_with_fuel(each_byte64, 2);
    reveal_with_fuel(each_byte32, 2);
    if usize::BITS == 64 {
        assert(absorb64(h as u64, b) == mix64(h as u64, x as u64));
    } else {
        assert(absorb32(h as u32, b) == mix32(h as u32, x as u32));
    }
}

/// An empty byte sequence performs no mixing step.
pub proof fn law_empty_write(h: usize)
    ensures
        word_absorb(h, Seq::<u8>::empty()) == h,
{
}

/// A zero byte mixed into a zero accumulator leaves it zero.
pub proof fn law_zero_byte()
    ensures
        word_mix(0, 0) == 0,
{
    assert(((0u64 << 5u64) | (0u64 >> 59u64)) ^ 0u64 == 0u64) by (bit_vector);
    assert(((0u32 << 5u32) | (0u32 >> 27u32)) ^ 0u32 == 0u32) by (bit_vector);
}

/// A byte of one mixed into a zero accumulator gives the multiplier.
pub proof fn law_one_byte()
    ensures
        word_mix(0, 1) == word_k(),
{
    assert(((0u64 << 5u64) | (0u64 >> 59u64)) ^ 1u64 == 1u64) by (bit_vector);
    assert(((0u32 << 5u32) | (0u32 >> 27u32)) ^ 1u32 == 1u32) by (bit_vector);
}

/// Accumulators in one state that absorb the same bytes end in one state, and
/// so finish to one digest.
pub proof fn law_deterministic(h1: usize, h2: usize, b: Seq<u8>)
    requires
        h1 == h2,
    ensures
        word_absorb(h1, b) == word_absorb(h2, b),
        word_absorb(h1, b) as u64 == word_absorb(h2, b) as u64,
{
}

} // verus!
