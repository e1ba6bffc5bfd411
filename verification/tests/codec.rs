use daence::bytes::{read_u32_le, write_u32_le, write_u64_le};
use daence::permute::{hchacha, rol32};

#[test]
fn read_u32_le_exact() {
    assert_eq!(read_u32_le(&[0x65, 0x78, 0x70, 0x61]), 0x61707865);
    assert_eq!(read_u32_le(&[0xff, 0x00, 0x00, 0x00, 0x12]), 0xff);
}

#[test]
fn write_u32_le_exact() {
    let mut buf: Vec<u8> = vec![0xab];
    write_u32_le(&mut buf, 0x61707865);
    assert_eq!(buf, vec![0xab, 0x65, 0x78, 0x70, 0x61]);
}

#[test]
fn write_u64_le_exact() {
    let mut buf: Vec<u8> = Vec::new();
    write_u64_le(&mut buf, 0x1122334455667788);
    assert_eq!(buf, vec![0x88, 0x77, 0x66, 0x55, 0x44, 0x33, 0x22, 0x11]);
}

#[test]
fn write_then_read_round_trip() {
    let mut buf: Vec<u8> = Vec::new();
    write_u32_le(&mut buf, 0xdeadbeef);
    assert_eq!(read_u32_le(&buf), 0xdeadbeef);
}

#[test]
fn rol32_exact() {
    assert_eq!(rol32(0x80000001, 1), 0x00000003);
    assert_eq!(rol32(0x12345678, 16), 0x56781234);
}

#[test]
fn hchacha_reference_vector() {
    // HChaCha20 test vector from the XChaCha draft specification.
    let k: Vec<u8> = (0u8..32).collect();
    let n: [u8; 16] = [
        0x00, 0x00, 0x00, 0x09, 0x00, 0x00, 0x00, 0x4a, 0x00, 0x00, 0x00, 0x00, 0x31, 0x41, 0x59,
        0x27,
    ];
    let expect: [u8; 32] = [
        0x82, 0x41, 0x3b, 0x42, 0x27, 0xb2, 0x7b, 0xfe, 0xd3, 0x0e, 0x42, 0x50, 0x8a, 0x87, 0x7d,
        0x73, 0xa0, 0xf9, 0xe4, 0xd5, 0x8a, 0x74, 0xa8, 0x53, 0xc1, 0x2e, 0xc4, 0x13, 0x26, 0xd3,
        0xec, 0xdc,
    ];
    assert_eq!(hchacha(&k, &n).as_slice(), &expect[..]);
}
