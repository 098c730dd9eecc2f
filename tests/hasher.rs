use std::collections::HashMap;
use std::hash::Hasher;

use fxhash::{absorb_bytes32, absorb_bytes64, hash, mix_word32, mix_word64, FxHashMap, FxHashSet, FxHasher, K32, K64};

fn is_wide() -> bool {
    usize::BITS == 64
}

fn is_little_endian() -> bool {
    u16::from_ne_bytes([1, 0]) == 1
}

fn digest_of_bytes(parts: &[&[u8]]) -> u64 {
    let mut h = FxHasher::default();
    for p in parts {
        h.write(p);
    }
    h.finish()
}

#[test]
fn fresh_hasher_finishes_to_zero() {
    let h = FxHasher::default();
    assert_eq!(h.finish(), 0);
    assert_eq!(h.finish(), 0);
}

#[test]
fn empty_write_changes_nothing() {
    let mut h = FxHasher::default();
    h.write(&[]);
    assert_eq!(h.finish(), 0);
    h.write_u8(7);
    let before = h.finish();
    h.write(&[]);
    assert_eq!(h.finish(), before);
}

#[test]
fn single_zero_byte_gives_zero() {
    let mut h = FxHasher::default();
    h.write_u8(0);
    assert_eq!(h.finish(), 0);
    assert_eq!(digest_of_bytes(&[&[0u8]]), 0);
}

#[test]
fn single_one_byte_gives_multiplier() {
    let mut h = FxHasher::default();
    h.write_u8(1);
    if is_wide() {
        assert_eq!(h.finish(), 0x517cc1b727220a95);
    } else {
        assert_eq!(h.finish(), 0x9e3779b9);
    }
    assert_eq!(digest_of_bytes(&[&[1u8]]), h.finish());
}

#[test]
fn mixing_step_exact_values() {
    assert_eq!(mix_word64(0, 1), K64);
    assert_eq!(mix_word32(0, 1), K32);
    assert_eq!(mix_word64(0, 0xdeadbeef), 0x67f3c0372953771b);
    assert_eq!(mix_word64(0, 0), 0);
    assert_eq!(mix_word32(0, 0), 0);
}

#[test]
fn same_calls_give_same_digest() {
    let data: Vec<u8> = (0u8..40).collect();
    let a = digest_of_bytes(&[&data[..]]);
    let b = digest_of_bytes(&[&data[..]]);
    assert_eq!(a, b);
    let mut h1 = FxHasher::default();
    let mut h2 = FxHasher::default();
    for h in [&mut h1, &mut h2] {
        h.write_u16(513);
        h.write_u32(70000);
        h.write_u64(1 << 40);
        h.write_usize(99);
    }
    assert_eq!(h1.finish(), h2.finish());
}

#[test]
fn whole_word_bytes_exact() {
    if is_wide() && is_little_endian() {
        assert_eq!(digest_of_bytes(&[b"12345678"]), 0xe8712e7a83442085);
        assert_eq!(digest_of_bytes(&[&[1, 0, 0, 0, 0, 0, 0, 0]]), K64);
        let data: Vec<u8> = (1u8..14).collect();
        assert_eq!(digest_of_bytes(&[&data[..]]), 0x5063b7016f4a623f);
    }
}

#[test]
fn aligned_split_matches_single_write() {
    let data: Vec<u8> = (1u8..30).collect();
    let word = (usize::BITS / 8) as usize;
    let whole = digest_of_bytes(&[&data[..]]);
    for k in 0..4 {
        let at = k * word;
        assert_eq!(digest_of_bytes(&[&data[..at], &data[at..]]), whole);
    }
    assert_eq!(digest_of_bytes(&[&data[..word], &data[word..2 * word], &data[2 * word..]]), whole);
}

#[test]
fn unaligned_split_may_differ_but_is_deterministic() {
    let data = [1u8, 2, 3, 4, 5];
    let split1 = digest_of_bytes(&[&data[..3], &data[3..]]);
    let split2 = digest_of_bytes(&[&data[..3], &data[3..]]);
    assert_eq!(split1, split2);
    if is_wide() && is_little_endian() {
        assert_eq!(digest_of_bytes(&[&data[..]]), 0xdb53b2db7d9debc8);
        assert_eq!(split1, 0xb41eb5bc5ba67cc7);
        assert_ne!(split1, digest_of_bytes(&[&data[..]]));
    }
}

#[test]
fn finishing_does_not_reset() {
    let a = b"first part, ";
    let b = b"second part";
    let mut h1 = FxHasher::default();
    h1.write(a);
    let mid = h1.finish();
    h1.write(b);
    let end1 = h1.finish();
    let mut h2 = FxHasher::default();
    h2.write(a);
    h2.write(b);
    assert_eq!(end1, h2.finish());
    assert_ne!(mid, 0);
}

#[test]
fn u32_fast_path_matches_bytes() {
    for x in [0u32, 1, 0xdeadbeef, u32::MAX, 0x01020304] {
        let mut h1 = FxHasher::default();
        h1.write_u8(3);
        h1.write_u32(x);
        let mut h2 = FxHasher::default();
        h2.write_u8(3);
        h2.write(&x.to_ne_bytes());
        assert_eq!(h1.finish(), h2.finish());
    }
}

#[test]
fn u64_fast_path_matches_bytes() {
    if is_wide() || is_little_endian() {
        for x in [0u64, 1, 0xdeadbeef_cafef00d, u64::MAX] {
            let mut h1 = FxHasher::default();
            h1.write_u64(x);
            let mut h2 = FxHasher::default();
            h2.write(&x.to_ne_bytes());
            assert_eq!(h1.finish(), h2.finish());
        }
    }
}

#[test]
fn u8_and_u16_paths() {
    let mut h1 = FxHasher::default();
    h1.write_u8(200);
    let mut h2 = FxHasher::default();
    h2.write(&[200]);
    assert_eq!(h1.finish(), h2.finish());
    let mut h3 = FxHasher::default();
    h3.write_u16(200);
    let mut h4 = FxHasher::default();
    h4.write_usize(200);
    assert_eq!(h3.finish(), h4.finish());
}

#[test]
fn word_widths_may_disagree() {
    let data: Vec<u8> = (1u8..14).collect();
    let wide = absorb_bytes64(0, &data);
    let narrow = absorb_bytes32(0, &data);
    assert_eq!(absorb_bytes64(0, &data), wide);
    assert_eq!(absorb_bytes32(0, &data), narrow);
    assert_eq!(absorb_bytes64(0, &[1]), K64);
    assert_eq!(absorb_bytes32(0, &[1]), K32);
    assert_ne!(absorb_bytes64(0, &[1]), absorb_bytes32(0, &[1]) as u64);
    if is_little_endian() {
        assert_eq!(narrow, 0x55807965);
        assert_eq!(absorb_bytes32(0, b"abc"), 0x1194bc8e);
    }
}

#[test]
fn hash_of_strings() {
    let a = hash("abc");
    assert_eq!(a, hash("abc"));
    assert_ne!(a, hash("abd"));
    let mut h = FxHasher::default();
    h.write(b"abc");
    h.write_u8(0xff);
    assert_eq!(a, h.finish());
    if is_wide() && is_little_endian() {
        assert_eq!(a, 0xd4c9208d4fc8c00f);
        assert_eq!(hash("hello world"), 0x2e52733fe3a9edd0);
    }
}

#[test]
fn hash_of_integers_uses_fast_paths() {
    let mut h = FxHasher::default();
    h.write_u32(17);
    assert_eq!(hash(&17u32), h.finish());
    let mut h = FxHasher::default();
    h.write_u64(17);
    assert_eq!(hash(&17u64), h.finish());
}

#[test]
fn containers_use_the_hasher() {
    let mut m: FxHashMap<u32, &str> = HashMap::default();
    m.insert(1, "one");
    m.insert(2, "two");
    m.insert(1, "uno");
    assert_eq!(m.len(), 2);
    assert_eq!(m.get(&1), Some(&"uno"));
    let mut s: FxHashSet<String> = FxHashSet::default();
    s.insert("a".to_string());
    s.insert("a".to_string());
    s.insert("b".to_string());
    assert_eq!(s.len(), 2);
    assert!(s.contains("b"));
}
