use daence::salsa20::Salsa20Daence;

#[test]
fn salsa20_selftest() {
    let k: [u8; 96] = [
        0x00, 0x01, 0x02, 0x03, 0x04, 0x05, 0x06, 0x07, 0x08, 0x09, 0x0a, 0x0b, 0x0c, 0x0d, 0x0e,
        0x0f, 0x10, 0x11, 0x12, 0x13, 0x14, 0x15, 0x16, 0x17, 0x18, 0x19, 0x1a, 0x1b, 0x1c, 0x1d,
        0x1e, 0x1f, 0x20, 0x21, 0x22, 0x23, 0x24, 0x25, 0x26, 0x27, 0x28, 0x29, 0x2a, 0x2b, 0x2c,
        0x2d, 0x2e, 0x2f, 0x30, 0x31, 0x32, 0x33, 0x34, 0x35, 0x36, 0x37, 0x38, 0x39, 0x3a, 0x3b,
        0x3c, 0x3d, 0x3e, 0x3f, 0x40, 0x41, 0x42, 0x43, 0x44, 0x45, 0x46, 0x47, 0x48, 0x49, 0x4a,
        0x4b, 0x4c, 0x4d, 0x4e, 0x4f, 0x50, 0x51, 0x52, 0x53, 0x54, 0x55, 0x56, 0x57, 0x58, 0x59,
        0x5a, 0x5b, 0x5c, 0x5d, 0x5e, 0x5f,
    ];
    let a: [u8; 16] = [
        0x60, 0x61, 0x62, 0x63, 0x64, 0x65, 0x66, 0x67, 0x68, 0x69, 0x6a, 0x6b, 0x6c, 0x6d, 0x6e,
        0x6f,
    ];
    let m = vec![
        0x70, 0x71, 0x72, 0x73, 0x74, 0x75, 0x76, 0x77, 0x78, 0x79, 0x7a, 0x7b, 0x7c, 0x7d, 0x7e,
        0x7f, 0x80, 0x81, 0x82, 0x83, 0x84, 0x85, 0x86, 0x87, 0x88, 0x89, 0x8a, 0x8b, 0x8c, 0x8d,
        0x8e, 0x8f, 0x90,
    ];
    let t: [u8; 24] = [
        0xa5, 0x09, 0x6e, 0x6c, 0xd6, 0x56, 0x41, 0x31, 0xdc, 0xfb, 0xd1, 0x86, 0xcb, 0x1e, 0x13,
        0x72, 0x8e, 0x2b, 0x67, 0x19, 0xb0, 0xbf, 0x71, 0x94,
    ];
    let c = vec![
        0x14, 0xfb, 0x8f, 0x32, 0x8f, 0xca, 0x05, 0x2a, 0xcd, 0x43, 0x27, 0xd1, 0x37, 0x12, 0x67,
        0x96, 0x19, 0x35, 0x56, 0x63, 0x18, 0x55, 0x38, 0x71, 0xb9, 0x0c, 0xc9, 0x08, 0x29, 0xa9,
        0xd9, 0x60, 0xf9,
    ];

    let (mut c_, mut t_) = Salsa20Daence::new(&k, &a).encrypt(&m);
    assert_eq!(c_, c);
    assert_eq!(t_.as_slice(), &t[..]);

    let mut m_: Vec<u8> = vec![0; m.len()];
    assert!(Salsa20Daence::new(&k, &a).decrypt(&c, &mut m_, &t));
    assert_eq!(m_, m);

    c_[18] ^= 0x04;
    assert!(!Salsa20Daence::new(&k, &a).decrypt(&c_, &mut m_, &t));

    t_[3] ^= 0x80;
    assert!(!Salsa20Daence::new(&k, &a).decrypt(&c, &mut m_, &t_));
}

fn salsa_key() -> Vec<u8> {
    (0u8..96).collect()
}

#[test]
fn salsa_round_trip_unaligned() {
    let k = salsa_key();
    let a = [0x77u8; 9];
    let m: Vec<u8> = (0u8..41).collect();
    let (c, t) = Salsa20Daence::new(&k, &a).encrypt(&m);
    let mut m_: Vec<u8> = vec![0; c.len()];
    assert!(Salsa20Daence::new(&k, &a).decrypt(&c, &mut m_, &t));
    assert_eq!(m_, m);
}

#[test]
fn salsa_round_trip_empty() {
    let k = salsa_key();
    let (c, t) = Salsa20Daence::new(&k, &[]).encrypt(&[]);
    assert_eq!(c.len(), 0);
    assert_eq!(t.len(), 24);
    let mut m_: Vec<u8> = Vec::new();
    assert!(Salsa20Daence::new(&k, &[]).decrypt(&c, &mut m_, &t));
    assert_eq!(m_.len(), 0);
}

#[test]
fn salsa_deterministic() {
    let k = salsa_key();
    let a = [0x33u8; 13];
    let m: Vec<u8> = (0u8..150).collect();
    let (c1, t1) = Salsa20Daence::new(&k, &a).encrypt(&m);
    let (c2, t2) = Salsa20Daence::new(&k, &a).encrypt(&m);
    assert_eq!(c1, c2);
    assert_eq!(t1, t2);
}

#[test]
fn salsa_tamper_every_bit() {
    // Flipping any single bit of ciphertext or tag makes decrypt fail
    // and leaves the output buffer all-zero.
    let k = salsa_key();
    let a = [0x55u8; 4];
    let m: Vec<u8> = (0u8..29).collect();
    let (c, t) = Salsa20Daence::new(&k, &a).encrypt(&m);
    for i in 0..c.len() {
        for bit in 0..8 {
            let mut c2 = c.clone();
            c2[i] ^= 1u8 << bit;
            let mut m_: Vec<u8> = vec![0xff; c2.len()];
            assert!(!Salsa20Daence::new(&k, &a).decrypt(&c2, &mut m_, &t));
            assert_eq!(m_, vec![0u8; c2.len()]);
        }
    }
    for i in 0..t.len() {
        for bit in 0..8 {
            let mut t2 = t.clone();
            t2[i] ^= 1u8 << bit;
            let mut m_: Vec<u8> = vec![0xff; c.len()];
            assert!(!Salsa20Daence::new(&k, &a).decrypt(&c, &mut m_, &t2));
            assert_eq!(m_, vec![0u8; c.len()]);
        }
    }
}

#[test]
fn salsa_wrong_associated_data_fails() {
    let k = salsa_key();
    let m: Vec<u8> = (0u8..16).collect();
    let (c, t) = Salsa20Daence::new(&k, &[9, 9, 9]).encrypt(&m);
    let mut m_: Vec<u8> = vec![0; c.len()];
    assert!(!Salsa20Daence::new(&k, &[9, 9, 8]).decrypt(&c, &mut m_, &t));
    assert_eq!(m_, vec![0u8; c.len()]);
}
