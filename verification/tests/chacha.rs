use daence::chacha::ChaChaDaence;

#[test]
fn chacha_selftest() {
    let k: [u8; 64] = [
        0x00, 0x01, 0x02, 0x03, 0x04, 0x05, 0x06, 0x07, 0x08, 0x09, 0x0a, 0x0b, 0x0c, 0x0d, 0x0e,
        0x0f, 0x10, 0x11, 0x12, 0x13, 0x14, 0x15, 0x16, 0x17, 0x18, 0x19, 0x1a, 0x1b, 0x1c, 0x1d,
        0x1e, 0x1f, 0x20, 0x21, 0x22, 0x23, 0x24, 0x25, 0x26, 0x27, 0x28, 0x29, 0x2a, 0x2b, 0x2c,
        0x2d, 0x2e, 0x2f, 0x30, 0x31, 0x32, 0x33, 0x34, 0x35, 0x36, 0x37, 0x38, 0x39, 0x3a, 0x3b,
        0x3c, 0x3d, 0x3e, 0x3f,
    ];
    let a: [u8; 16] = [
        0x40, 0x41, 0x42, 0x43, 0x44, 0x45, 0x46, 0x47, 0x48, 0x49, 0x4a, 0x4b, 0x4c, 0x4d, 0x4e,
        0x4f,
    ];
    let m = vec![
        0x50, 0x51, 0x52, 0x53, 0x54, 0x55, 0x56, 0x57, 0x58, 0x59, 0x5a, 0x5b, 0x5c, 0x5d, 0x5e,
        0x5f, 0x60, 0x61, 0x62, 0x63, 0x64, 0x65, 0x66, 0x67, 0x68, 0x69, 0x6a, 0x6b, 0x6c, 0x6d,
        0x6e, 0x6f, 0x70,
    ];
    let t: [u8; 24] = [
        0x99, 0x76, 0x70, 0x9c, 0x45, 0x3c, 0x8f, 0x94, 0xe4, 0x92, 0xef, 0xa7, 0x70, 0xe3, 0xc2,
        0x21, 0xe0, 0x8e, 0xa6, 0xa0, 0xe5, 0x88, 0xd5, 0x4e,
    ];
    let c = vec![
        0x22, 0x7d, 0x2c, 0x0c, 0xde, 0xe4, 0x08, 0xbc, 0xe9, 0xd0, 0x53, 0x2a, 0x3a, 0x36, 0x27,
        0x01, 0x0f, 0x11, 0xf2, 0xb2, 0xe4, 0x72, 0x67, 0xe5, 0x33, 0xe9, 0x5a, 0xa3, 0xb2, 0xe7,
        0x1e, 0xfb, 0x68,
    ];

    let (c_, t_) = ChaChaDaence::new(&k, &a).encrypt(&m);
    assert_eq!(c_, c);
    assert_eq!(t_.as_slice(), &t[..]);

    let mut m_: Vec<u8> = vec![0; m.len()];
    ChaChaDaence::new(&k, &a).decrypt(&c, &mut m_, &t);
    assert_eq!(m_, m);
}

fn chacha_key() -> Vec<u8> {
    (0u8..64).collect()
}

#[test]
fn chacha_round_trip_unaligned() {
    // Associated data and message lengths that are not multiples of 16
    // exercise the zero-padding of both absorbed inputs.
    let k = chacha_key();
    let a = [0xaau8; 5];
    let m: Vec<u8> = (0u8..23).collect();
    let (c, t) = ChaChaDaence::new(&k, &a).encrypt(&m);
    let mut m_: Vec<u8> = vec![0; c.len()];
    assert!(ChaChaDaence::new(&k, &a).decrypt(&c, &mut m_, &t));
    assert_eq!(m_, m);
}

#[test]
fn chacha_round_trip_empty() {
    let k = chacha_key();
    let (c, t) = ChaChaDaence::new(&k, &[]).encrypt(&[]);
    assert_eq!(c.len(), 0);
    assert_eq!(t.len(), 24);
    let mut m_: Vec<u8> = Vec::new();
    assert!(ChaChaDaence::new(&k, &[]).decrypt(&c, &mut m_, &t));
    assert_eq!(m_.len(), 0);
}

#[test]
fn chacha_deterministic() {
    // Two independently constructed engines give byte-identical output.
    let k = chacha_key();
    let a = [0x11u8; 7];
    let m: Vec<u8> = (0u8..200).collect();
    let (c1, t1) = ChaChaDaence::new(&k, &a).encrypt(&m);
    let (c2, t2) = ChaChaDaence::new(&k, &a).encrypt(&m);
    assert_eq!(c1, c2);
    assert_eq!(t1, t2);
}

#[test]
fn chacha_tamper_every_bit() {
    // Flipping any single bit of ciphertext or tag makes decrypt fail
    // and leaves the output buffer all-zero.
    let k = chacha_key();
    let a = [0x42u8; 3];
    let m: Vec<u8> = (0u8..33).collect();
    let (c, t) = ChaChaDaence::new(&k, &a).encrypt(&m);
    for i in 0..c.len() {
        for bit in 0..8 {
            let mut c2 = c.clone();
            c2[i] ^= 1u8 << bit;
            let mut m_: Vec<u8> = vec![0xff; c2.len()];
            assert!(!ChaChaDaence::new(&k, &a).decrypt(&c2, &mut m_, &t));
            assert_eq!(m_, vec![0u8; c2.len()]);
        }
    }
    for i in 0..t.len() {
        for bit in 0..8 {
            let mut t2 = t.clone();
            t2[i] ^= 1u8 << bit;
            let mut m_: Vec<u8> = vec![0xff; c.len()];
            assert!(!ChaChaDaence::new(&k, &a).decrypt(&c, &mut m_, &t2));
            assert_eq!(m_, vec![0u8; c.len()]);
        }
    }
}

#[test]
fn chacha_wrong_associated_data_fails() {
    let k = chacha_key();
    let m: Vec<u8> = (0u8..16).collect();
    let (c, t) = ChaChaDaence::new(&k, &[1, 2, 3]).encrypt(&m);
    let mut m_: Vec<u8> = vec![0; c.len()];
    assert!(!ChaChaDaence::new(&k, &[1, 2, 4]).decrypt(&c, &mut m_, &t));
    assert_eq!(m_, vec![0u8; c.len()]);
}
