//! The mixing step: rotate left by five, exclusive-or, wrapping multiply.

use vstd::prelude::*;

verus! {

/// The multiplier for a 32-bit word.
pub const K32: u32 = 0x9e3779b9;

/// The multiplier for a 64-bit word.
pub const K64: u64 = 0x517cc1b727220a95;

/// `h` rotated left by five bits, as a 32-bit word.
pub open spec fn rotl5_32(h: u32) -> u32 {
    (h << 5u32) | (h >> 27u32)
}

/// `h` rotated left by five bits, as a 64-bit word.
pub open spec fn rotl5_64(h: u64) -> u64 {
    (h << 5u64) | (h >> 59u64)
}

/// One mixing step on a 32-bit accumulator.
pub open spec fn mix32(h: u32, w: u32) -> u32 {
    ((rotl5_32(h) ^ w) as nat * K32 as nat % 0x1_0000_0000nat) as u32
}

/// One mixing step on a 64-bit accumulator.
pub open spec fn mix64(h: u64, w: u64) -> u64 {
    ((rotl5_64(h) ^ w) as nat * K64 as nat % 0x1_0000_0000_0000_0000nat) as u64
}

/// Mixes `w` into the 32-bit accumulator `h`.
pub fn mix_word32(h: u32, w: u32) -> (r: u32)
    ensures
        r == mix32(h, w),
{
    let x: u32 = ((h << 5u32) | (h >> 27u32)) ^ w;
    x.wrapping_mul(K32)
}

/// Mixes `w` into the 64-bit accumulator `h`.
pub fn mix_word64(h: u64, w: u64) -> (r: u64)
    ensures
        r == mix64(h, w),
{
    let x: u64 = ((h << 5u64) | (h >> 59u64)) ^ w;
    x.wrapping_mul(K64)
}

} // verus!
