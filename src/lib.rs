//! A fast, non-cryptographic 64-bit hash for in-memory maps and sets.
//!
//! The accumulator holds one machine word. Each absorbed unit is mixed in
//! by a rotate, an exclusive-or and a wrapping multiplication by a fixed odd
//! constant. Byte input is consumed a word at a time in the target's native
//! byte order, so digests are stable within one build target only.
//!
//! It is not a cryptographic hash and offers no resistance to chosen
//! collisions.

mod absorb;
mod hasher;
mod laws;
mod mix;
mod native;

pub use native::{le_u32, be_u32, le_u64, be_u64, native_u32, native_u64, native_bytes_u32, native_bytes_u64};
pub use mix::{K32, K64, rotl5_32, rotl5_64, mix32, mix64, mix_word32, mix_word64};
pub use absorb::{each_byte32, each_byte64, absorb32, absorb64, absorb_bytes32, absorb_bytes64};
pub use hasher::{hash, word_absorb, word_absorb_u64, word_mix, FxBuildHasher, FxHashMap, FxHashSet, FxHasher};
pub use laws::{law_aligned_split, law_deterministic, law_empty_write, law_one_byte, law_u32_as_bytes, law_u64_as_bytes, law_u8_as_bytes, law_zero_byte, word_bytes, word_k};
