use il2_utils::mem::{
    create_protected_value, ByteMaskGenerator, DefaultProtectedValue, ProtectedValue, SecretBytes,
};
use std::sync::Arc;

#[test]
fn keystream_restarts_from_the_seed() {
    let mut first = [0u8; 4];
    let mut second = [0u8; 4];
    DefaultProtectedValue::apply_mask(1234, &mut first);
    DefaultProtectedValue::apply_mask(1234, &mut second);
    assert_eq!(first, [0x5b, 0x18, 0x2a, 0x3e]);
    assert_eq!(first, second);
}

#[test]
fn keystream_step_wraps_around() {
    // 0xFFFF_FFFF_FFFF_FFFF * 6364136223846793005 + 1 modulo 2^64.
    let mut g = ByteMaskGenerator::new(u64::MAX);
    let b = g.next();
    let expected: u64 = u64::MAX.wrapping_mul(6364136223846793005).wrapping_add(1);
    assert_eq!(g.state(), expected);
    assert_eq!(g.state(), 0xA7AE_0BD2_B36A_80D4);
    assert_eq!(b, 0xD2);
}

#[test]
fn keystream_step_that_ends_on_the_largest_product() {
    // The state whose product with the multiplier is 2^64 - 1: the step
    // ends on 0.
    let inverse: u64 = 0xC097EF87329E28A5;
    assert_eq!(inverse.wrapping_mul(6364136223846793005), 1);
    let state: u64 = inverse.wrapping_mul(u64::MAX);
    assert_eq!(state.wrapping_mul(6364136223846793005), u64::MAX);
    let mut g = ByteMaskGenerator::new(state);
    assert_eq!(g.next(), 0);
    assert_eq!(g.state(), 0);
    assert_eq!(g.next(), 0);
    assert_eq!(g.state(), 1);
}

#[test]
fn mask_is_its_own_inverse() {
    let data: Vec<u8> = (0..=255u8).collect();
    for seed in [1u64, 2, 1234, 0xDEAD_BEEF, u64::MAX] {
        let mut work = data.clone();
        DefaultProtectedValue::apply_mask(seed, &mut work);
        assert_ne!(work, data);
        DefaultProtectedValue::apply_mask(seed, &mut work);
        assert_eq!(work, data);
    }
}

#[test]
fn mask_of_nothing_is_nothing() {
    let mut empty: [u8; 0] = [];
    DefaultProtectedValue::apply_mask(1234, &mut empty);
    assert_eq!(empty.len(), 0);
}

#[test]
fn protect_then_reveal_gives_the_value_back() {
    for n in [0usize, 1, 15, 16, 17, 255, 4096] {
        let plain: Vec<u8> = (0..n).map(|i| (i * 7 + 3) as u8).collect();
        let p = create_protected_value(&plain);
        let s = p.get_secret();
        assert_eq!(s.value(), plain.as_slice());
        assert_eq!(s.len(), n);
        assert_eq!(s.buffer_len(), n);
    }
}

#[test]
fn protected_value_with_a_given_seed() {
    let exp: [u8; 4] = [0, 0, 0, 0];
    let p = DefaultProtectedValue::with_seed(&exp, 1234);
    assert_eq!(p.seed(), 1234);
    assert_eq!(&p.masked_secret().value()[..3], &[0x5b, 0x18, 0x2a]);
    assert_eq!(p.get_secret().value(), &exp);
}

#[test]
fn reveal_leaves_the_stored_form_alone() {
    let exp: [u8; 8] = [1, 2, 3, 4, 5, 6, 7, 8];
    let p = DefaultProtectedValue::new(&exp);
    let stored: Vec<u8> = p.masked_secret().value().to_vec();
    let mut revealed = p.get_secret();
    revealed.mut_value()[0] = 0xFF;
    assert_eq!(p.masked_secret().value(), stored.as_slice());
    assert_eq!(p.get_secret().value(), &exp);
}

#[test]
fn repeated_reveal_through_shared_handles() {
    let exp: Vec<u8> = (0..100u8).collect();
    let p = create_protected_value(&exp);
    let handles: Vec<_> = (0..8).map(|_| Arc::clone(&p)).collect();
    for _ in 0..50 {
        for h in handles.iter() {
            assert_eq!(h.get_secret().value(), exp.as_slice());
        }
    }
}

#[test]
fn empty_buffer_is_never_locked() {
    let s = SecretBytes::new(0, true);
    assert_eq!(s.len(), 0);
    assert_eq!(s.buffer_len(), 0);
    assert!(s.is_empty());
    assert!(!s.locked());

    let s = SecretBytes::with_value(&[], true);
    assert!(s.is_empty());
    assert!(!s.locked());
    assert!(!s.clone().locked());
}

#[test]
fn set_len_clamps_to_the_buffer() {
    let mut s = SecretBytes::new(8, false);
    s.set_len(3);
    assert_eq!(s.len(), 3);
    assert!(!s.is_empty());
    s.set_len(0);
    assert_eq!(s.len(), 0);
    assert!(s.is_empty());
    s.set_len(8);
    assert_eq!(s.len(), 8);
    s.set_len(usize::MAX);
    assert_eq!(s.len(), 8);
    assert_eq!(s.buffer_len(), 8);
    assert_eq!(s.buffer(), &[0u8; 8]);
}

#[test]
fn writes_to_the_value_reach_the_buffer() {
    let exp: [u8; 8] = [1, 2, 3, 4, 5, 6, 7, 8];
    let mut s = SecretBytes::with_value(&exp, false);
    s.set_len(4);
    s.mut_value().copy_from_slice(&[9, 9, 9, 9]);
    assert_eq!(s.value(), &[9, 9, 9, 9]);
    assert_eq!(s.buffer(), &[9, 9, 9, 9, 5, 6, 7, 8]);
    s.mut_buffer()[7] = 0;
    assert_eq!(s.buffer(), &[9, 9, 9, 9, 5, 6, 7, 0]);
    assert_eq!(s.len(), 4);
}

#[test]
fn clone_is_independent_of_its_source() {
    let exp: [u8; 8] = [1, 2, 3, 4, 5, 6, 7, 8];
    let mut source = SecretBytes::with_value(&exp, true);
    let mut copy = source.clone();

    copy.mut_buffer()[0] = 100;
    copy.set_len(2);
    assert_eq!(source.value(), &exp);
    assert_eq!(source.len(), 8);

    source.mut_buffer()[7] = 200;
    assert_eq!(copy.buffer(), &[100, 2, 3, 4, 5, 6, 7, 8]);
    assert_ne!(source.buffer().as_ptr(), copy.buffer().as_ptr());

    drop(source);
    assert_eq!(copy.buffer(), &[100, 2, 3, 4, 5, 6, 7, 8]);
}

#[test]
fn clone_copies_the_bytes_beyond_the_value() {
    let exp: [u8; 8] = [1, 2, 3, 4, 5, 6, 7, 8];
    let mut source = SecretBytes::with_value(&exp, false);
    source.set_len(3);
    let copy = source.clone();
    assert_eq!(copy.len(), 3);
    assert_eq!(copy.buffer(), &exp);
}

#[test]
fn shred_zeroes_the_whole_buffer() {
    let exp: [u8; 8] = [1, 2, 3, 4, 5, 6, 7, 8];
    let mut s = SecretBytes::with_value(&exp, true);
    s.set_len(4);
    s.shred();
    assert_eq!(s.buffer(), &[0u8; 8]);
    assert_eq!(s.len(), 4);
    assert_eq!(s.buffer_len(), 8);
    assert!(!s.locked());

    // It can be filled and shredded again.
    s.mut_buffer()[3] = 9;
    assert_eq!(s.value(), &[0, 0, 0, 9]);
    s.shred();
    assert_eq!(s.buffer(), &[0u8; 8]);
}

#[test]
fn shred_of_an_empty_buffer() {
    let mut s = SecretBytes::new(0, true);
    s.shred();
    assert_eq!(s.buffer_len(), 0);
    assert!(!s.locked());
}

#[test]
fn lock_is_released_and_taken_again() {
    let mut v: Vec<u8> = Vec::new();
    v.resize(10000, 7);
    assert!(il2_utils::mem::lock::lock_mem_core(&v));
    assert!(il2_utils::mem::lock::unlock_mem_core(&v));
    assert!(il2_utils::mem::lock_mem(&v));
    assert!(il2_utils::mem::unlock_mem(&v));
    assert_eq!(v, vec![7u8; 10000]);
}

#[test]
fn nothing_to_lock_in_an_empty_slice() {
    let empty: [u8; 0] = [];
    assert!(!il2_utils::mem::lock::lock_mem_core(&empty));
    assert!(!il2_utils::mem::lock::unlock_mem_core(&empty));
    assert!(!il2_utils::mem::lock_mem(&empty));
    assert!(!il2_utils::mem::unlock_mem(&empty));
}

#[test]
fn lock_intent_is_kept_and_copied() {
    let exp: [u8; 8] = [1, 2, 3, 4, 5, 6, 7, 8];

    let s = SecretBytes::with_value(&exp, true);
    assert!(s.lock_wanted());
    assert!(s.clone().lock_wanted());

    let s = SecretBytes::new(8, false);
    assert!(!s.lock_wanted());
    assert!(!s.clone().lock_wanted());
    assert!(!s.clone().locked());
}

#[test]
fn copy_of_an_unlocked_buffer_tries_the_lock_again() {
    let exp: [u8; 8] = [1, 2, 3, 4, 5, 6, 7, 8];
    let mut s = SecretBytes::with_value(&exp, true);
    // The buffer loses its lock, not its intent.
    s.shred();
    assert!(!s.locked());
    assert!(s.lock_wanted());

    let copy = s.clone();
    assert_eq!(copy.buffer(), &[0u8; 8]);
    if SecretBytes::lock_supported() {
        assert!(copy.locked());
    } else {
        assert!(!copy.locked());
    }
}

#[test]
fn revealed_secret_is_asked_to_be_locked() {
    let exp: [u8; 8] = [1, 2, 3, 4, 5, 6, 7, 8];
    let p = DefaultProtectedValue::new(&exp);
    let s = p.get_secret();
    assert!(s.lock_wanted());
    if SecretBytes::lock_supported() {
        assert!(s.locked());
    }
    let empty = DefaultProtectedValue::new(&[]);
    assert!(!empty.get_secret().locked());
}

#[test]
fn buffer_reads_and_writes_as_its_value() {
    let exp: [u8; 8] = [1, 2, 3, 4, 5, 6, 7, 8];
    let mut s = SecretBytes::with_value(&exp, false);
    s.set_len(4);

    let read: &[u8] = &s;
    assert_eq!(read, &exp[..4]);
    assert_eq!(s[2], 3);
    assert_eq!(s.iter().map(|b| *b as u32).sum::<u32>(), 10);

    let write: &mut [u8] = &mut s;
    write[0] = 9;
    s[3] = 7;
    assert_eq!(s.value(), &[9, 2, 3, 7]);
    assert_eq!(s.buffer(), &[9, 2, 3, 7, 5, 6, 7, 8]);

    DefaultProtectedValue::apply_mask(1234, &mut s);
    assert_eq!(s.value(), &[9 ^ 0x5b, 2 ^ 0x18, 3 ^ 0x2a, 7 ^ 0x3e]);
    assert_eq!(&s.buffer()[4..], &[5, 6, 7, 8]);
}

#[test]
fn lock_of_wider_elements() {
    let mut v: Vec<u64> = Vec::new();
    v.resize(1000, 7);
    assert!(il2_utils::mem::lock_mem(&v));
    assert!(il2_utils::mem::unlock_mem(&v));
    assert!(il2_utils::mem::lock::lock_mem_core(&v));
    assert!(il2_utils::mem::lock::unlock_mem_core(&v));
    assert!(!il2_utils::mem::lock_mem(&v[..0]));
    assert!(!il2_utils::mem::unlock_mem(&v[..0]));
    assert_eq!(v, vec![7u64; 1000]);
}
