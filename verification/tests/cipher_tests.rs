use aes_core::cipher::{encrypt_block, expand_key, AesError};
use aes_core::layer::{add_round_key, byte_sub_mut, LayerInput, PermuationLayer, SubstitutionLayer};
use aes_core::scheduler::aes_key_schedule;

/// Column-major load, as the cipher defines it: byte b goes to row b % 4,
/// column b / 4.
fn load(block: &[u8; 16]) -> LayerInput {
    let mut s: LayerInput = [[0; 4]; 4];
    for b in 0..16 {
        s[b % 4][b / 4] = block[b];
    }
    s
}

fn store(s: &LayerInput) -> [u8; 16] {
    let mut block = [0u8; 16];
    for b in 0..16 {
        block[b] = s[b % 4][b / 4];
    }
    block
}

/// Round key r as a 4x4 matrix: schedule word 4r + c fills column c,
/// most significant byte on top.
fn round_key(w: &[u32; 44], r: usize) -> LayerInput {
    let mut m: LayerInput = [[0; 4]; 4];
    for c in 0..4 {
        let word = w[4 * r + c];
        for row in 0..4 {
            m[row][c] = (word >> (24 - 8 * row)) as u8;
        }
    }
    m
}

#[test]
fn expand_key_accepts_only_sixteen_bytes() {
    assert_eq!(expand_key(&[0u8; 15]), Err(AesError::InvalidKeyLength));
    assert_eq!(expand_key(&[0u8; 17]), Err(AesError::InvalidKeyLength));
    assert_eq!(expand_key(&[]), Err(AesError::InvalidKeyLength));
    assert!(expand_key(&[0u8; 16]).is_ok());
}

#[test]
fn expand_key_matches_the_key_schedule() {
    let key: [u8; 16] = [
        0x2b, 0x7e, 0x15, 0x16, 0x28, 0xae, 0xd2, 0xa6, 0xab, 0xf7, 0x15, 0x88, 0x09, 0xcf,
        0x4f, 0x3c,
    ];
    let w = expand_key(&key).unwrap();
    assert_eq!(w.to_vec(), aes_key_schedule(&key).to_vec());
    assert_eq!(w[4], 0xa0fafe17);
    assert_eq!(w[43], 0xb6630ca6);
}

#[test]
fn encrypt_block_composes_the_round_transforms() {
    let key: [u8; 16] = [
        0x00, 0x01, 0x02, 0x03, 0x04, 0x05, 0x06, 0x07, 0x08, 0x09, 0x0a, 0x0b, 0x0c, 0x0d,
        0x0e, 0x0f,
    ];
    let plaintext: [u8; 16] = [
        0x00, 0x11, 0x22, 0x33, 0x44, 0x55, 0x66, 0x77, 0x88, 0x99, 0xaa, 0xbb, 0xcc, 0xdd,
        0xee, 0xff,
    ];
    let w = expand_key(&key).unwrap();

    let perm_layer = PermuationLayer {};
    let mut state = load(&plaintext);
    add_round_key(&mut state, &round_key(&w, 0));
    for r in 1..10 {
        perm_layer.foward(&mut state);
        add_round_key(&mut state, &round_key(&w, r));
    }
    let mut state = perm_layer.forward_final(&mut state);
    add_round_key(&mut state, &round_key(&w, 10));

    assert_eq!(encrypt_block(&w, &plaintext), store(&state));
}

#[test]
fn encrypt_block_matches_the_published_example() {
    // The standard AES-128 example: encrypting 00112233445566778899aabbccddeeff
    // under key 000102030405060708090a0b0c0d0e0f.
    let key: [u8; 16] = [
        0x00, 0x01, 0x02, 0x03, 0x04, 0x05, 0x06, 0x07, 0x08, 0x09, 0x0a, 0x0b, 0x0c, 0x0d,
        0x0e, 0x0f,
    ];
    let plaintext: [u8; 16] = [
        0x00, 0x11, 0x22, 0x33, 0x44, 0x55, 0x66, 0x77, 0x88, 0x99, 0xaa, 0xbb, 0xcc, 0xdd,
        0xee, 0xff,
    ];
    let expected: [u8; 16] = [
        0x69, 0xc4, 0xe0, 0xd8, 0x6a, 0x7b, 0x04, 0x30, 0xd8, 0xcd, 0xb7, 0x80, 0x70, 0xb4,
        0xc5, 0x5a,
    ];
    let w = expand_key(&key).unwrap();
    assert_eq!(encrypt_block(&w, &plaintext), expected);
}

#[test]
fn encrypt_block_is_deterministic() {
    let key = [0x5a; 16];
    let plaintext = [0xc3; 16];
    let w = expand_key(&key).unwrap();
    assert_eq!(encrypt_block(&w, &plaintext), encrypt_block(&w, &plaintext));
}

#[test]
fn substitution_layer_runs_the_same_pipeline() {
    let key: [u8; 16] = [
        0x2b, 0x7e, 0x15, 0x16, 0x28, 0xae, 0xd2, 0xa6, 0xab, 0xf7, 0x15, 0x88, 0x09, 0xcf,
        0x4f, 0x3c,
    ];
    let plaintext: [u8; 16] = [
        0x32, 0x43, 0xf6, 0xa8, 0x88, 0x5a, 0x30, 0x8d, 0x31, 0x31, 0x98, 0xa2, 0xe0, 0x37,
        0x07, 0x34,
    ];
    let expected: [u8; 16] = [
        0x39, 0x25, 0x84, 0x1d, 0x02, 0xdc, 0x09, 0xfb, 0xdc, 0x11, 0x85, 0x97, 0x19, 0x6a,
        0x0b, 0x32,
    ];
    let w = expand_key(&key).unwrap();
    let mut layer = SubstitutionLayer::new(w, load(&plaintext));
    layer.foward();
    assert_eq!(store(&layer.state()), encrypt_block(&w, &plaintext));
    assert_eq!(store(&layer.state()), expected);
}

#[test]
fn first_round_whitening_is_the_key_itself() {
    // With an all-zero key, round key 0 is all zero, so the pre-whitening
    // leaves the plaintext untouched; one SubBytes on a zero state gives
    // the S-Box image of zero everywhere.
    let w = expand_key(&[0u8; 16]).unwrap();
    let mut state = load(&[0u8; 16]);
    add_round_key(&mut state, &round_key(&w, 0));
    assert_eq!(state, [[0u8; 4]; 4]);
    byte_sub_mut(&mut state);
    assert_eq!(state, [[0x63u8; 4]; 4]);
}
