//! The accumulator and its absorption operations.

use crate::absorb::{absorb32, absorb64, absorb_bytes32, absorb_bytes64};
use crate::mix::{mix32, mix64, mix_word32, mix_word64};
use std::collections::{HashMap, HashSet};
use std::hash::{BuildHasherDefault, Hash, Hasher};
use vstd::prelude::*;

verus! {

/// One mixing step on a machine-word accumulator: the 64-bit step where a
/// word is 64 bits wide, the 32-bit step where it is 32.
pub open spec fn word_mix(h: usize, w: usize) -> usize {
    if usize::BITS == 64 {
        mix64(h as u64, w as u64) as usize
    } else {
        mix32(h as u32, w as u32) as usize
    }
}

/// A machine-word accumulator after absorbing the bytes `b`.
pub open spec fn word_absorb(h: usize, b: Seq<u8>) -> usize {
    if usize::BITS == 64 {
        absorb64(h as u64, b) as usize
    } else {
        absorb32(h as u32, b) as usize
    }
}

/// A machine-word accumulator after absorbing the 64-bit value `i`: one step
/// where a word is 64 bits wide; where it is 32, one step for the low half and
/// then one for the high half.
pub open spec fn word_absorb_u64(h: usize, i: u64) -> usize {
    if usize::BITS == 64 {
        word_mix(h, i as usize)
    } else {
        word_mix(word_mix(h, (i as u32) as usize), (i >> 32u64) as usize)
    }
}

/// A hasher whose state is one machine word.
///
/// It is fast and not cryptographic: it does not resist chosen collisions.
#[derive(Debug, Clone)]
pub struct FxHasher {
    hash: usize,
}

impl View for FxHasher {
    type V = usize;

    /// The accumulator's current value.
    closed spec fn view(&self) -> usize {
        self.hash
    }
}

impl Default for FxHasher {
    fn default() -> (r: FxHasher)
        ensures
            r@ == 0,
    {
        FxHasher { hash: 0 }
    }
}

impl FxHasher {
    /// Mixes one machine word into the accumulator.
    pub fn add_to_hash(&mut self, i: usize)
        ensures
            final(self)@ == word_mix(old(self)@, i),
    {
        if usize::BITS == 64 {
            self.hash = mix_word64(self.hash as u64, i as u64) as usize;
        } else {
            self.hash = mix_word32(self.hash as u32, i as u32) as usize;
        }
    }

    /// Absorbs a byte sequence of any length.
    pub fn write(&mut self, bytes: &[u8])
        ensures
            final(self)@ == word_absorb(old(self)@, bytes@),
    {
        if usize::BITS == 64 {
            self.hash = absorb_bytes64(self.hash as u64, bytes) as usize;
        } else {
            self.hash = absorb_bytes32(self.hash as u32, bytes) as usize;
        }
    }

    /// Absorbs an 8-bit value in one step.
    pub fn write_u8(&mut self, i: u8)
        ensures
            final(self)@ == word_mix(old(self)@, i as usize),
    {
        self.add_to_hash(i as usize);
    }

    /// Absorbs a 16-bit value in one step.
    pub fn write_u16(&mut self, i: u16)
        ensures
            final(self)@ == word_mix(old(self)@, i as usize),
    {
        self.add_to_hash(i as usize);
    }

    /// Absorbs a 32-bit value in one step.
    pub fn write_u32(&mut self, i: u32)
        ensures
            final(self)@ == word_mix(old(self)@, i as usize),
    {
        self.add_to_hash(i as usize);
    }

    /// Absorbs a 64-bit value: in one step where a word is 64 bits wide, in two
    /// (low half first) where it is 32.
    pub fn write_u64(&mut self, i: u64)
        ensures
            final(self)@ == word_absorb_u64(old(self)@, i),
    {
        if usize::BITS == 64 {
            self.add_to_hash(i as usize);
        } else {
            self.add_to_hash(#[verifier::truncate] (i as u32) as usize);
            self.add_to_hash((i >> 32u64) as usize);
        }
    }

    /// Absorbs a machine word in one step.
    pub fn write_usize(&mut self, i: usize)
        ensures
            final(self)@ == word_mix(old(self)@, i),
    {
        self.add_to_hash(i);
    }

    /// The digest: the accumulator widened to 64 bits, with no further mixing
    /// and no change of state.
    pub fn finish(&self) -> (r: u64)
        ensures
            r == self@ as u64,
    {
        self.hash as u64
    }
}

impl Hasher for FxHasher {
    fn write(&mut self, bytes: &[u8]) {
        FxHasher::write(self, bytes);
    }

    fn write_u8(&mut self, i: u8) {
        FxHasher::write_u8(self, i);
    }

    fn write_u16(&mut self, i: u16) {
        FxHasher::write_u16(self, i);
    }

    fn write_u32(&mut self, i: u32) {
        FxHasher::write_u32(self, i);
    }

    fn write_u64(&mut self, i: u64) {
        FxHasher::write_u64(self, i);
    }

    fn write_usize(&mut self, i: usize) {
        FxHasher::write_usize(self, i);
    }

    fn finish(&self) -> u64 {
        FxHasher::finish(self)
    }
}

/// A builder of default hashers.
pub type FxBuildHasher = BuildHasherDefault<FxHasher>;

/// A `HashMap` that hashes its keys with a default hasher.
pub type FxHashMap<K, V> = HashMap<K, V, FxBuildHasher>;

/// A `HashSet` that hashes its elements with a default hasher.
pub type FxHashSet<V> = HashSet<V, FxBuildHasher>;

/// Relies on std's `Hash::hash` for `T`: the value issues its own sequence of
/// absorption calls on `state`, which the value's impl alone decides.
#[verifier::external_body]
fn feed<T: Hash + ?Sized>(v: &T, state: &mut FxHasher) {
    v.hash(state);
}

/// Hashes one value: a fresh accumulator takes the absorption calls that the
/// value's `Hash` impl issues, and is then finished.
pub fn hash<T: Hash + ?Sized>(v: &T) -> (r: u64)
    ensures
        r as int <= usize::MAX,
{
    let mut state = FxHasher::default();
    feed(v, &mut state);
    state.finish()
}

} // verus!
