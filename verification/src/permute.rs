//! The ARX permutation core: a 20-round add-rotate-xor compression that
//! maps a 32-byte key-like input and a 16-byte nonce-like input to 32
//! bytes.  Two bit-exact instances exist, one per cipher family; they are
//! the only route by which authenticator digests become the synthetic tag.
use vstd::prelude::*;
use vstd::bytes::{spec_u32_from_le_bytes, spec_u32_to_le_bytes};
use vstd::bytes::lemma_auto_spec_u32_to_from_le_bytes;
use vstd::slice::slice_subrange;
use crate::bytes::{read_u32_le, write_u32_le};

verus! {

// The 16-byte ASCII constant "expand 32-byte k", as little-endian words.
pub const SIGMA0: u32 = 0x61707865;
pub const SIGMA1: u32 = 0x3320646e;
pub const SIGMA2: u32 = 0x79622d32;
pub const SIGMA3: u32 = 0x6b206574;

/// Word `i` of `b`, read little-endian from bytes `4*i .. 4*i+4`.
pub open spec fn le_word(b: Seq<u8>, i: int) -> u32 {
    spec_u32_from_le_bytes(b.subrange(4 * i, 4 * i + 4))
}

/// `x` rotated left by `n` bits.
pub open spec fn rol32_spec(x: u32, n: u8) -> u32
    recommends
        0 < n < 32,
{
    (x << n) | (x >> ((32 - n) as u8))
}

/// `x` rotated left by `n` bits.
pub fn rol32(x: u32, n: u8) -> (r: u32)
    requires
        0 < n < 32,
    ensures
        r == rol32_spec(x, n),
{
    (x << n) | (x >> (32 - n))
}

/// One ChaCha quarter-round on `(a, b, c, d)`: additions, xors and
/// rotations by 16, 12, 8 and 7.
pub open spec fn chacha_qr(a: u32, b: u32, c: u32, d: u32) -> (u32, u32, u32, u32) {
    let a1 = a.wrapping_add(b);
    let d1 = rol32_spec(d ^ a1, 16);
    let c1 = c.wrapping_add(d1);
    let b1 = rol32_spec(b ^ c1, 12);
    let a2 = a1.wrapping_add(b1);
    let d2 = rol32_spec(d1 ^ a2, 8);
    let c2 = c1.wrapping_add(d2);
    let b2 = rol32_spec(b1 ^ c2, 7);
    (a2, b2, c2, d2)
}

/// One ChaCha double round: quarter-rounds down the four columns of the
/// 4x4 word state, then down the four diagonals.
pub open spec fn chacha_dr(s: Seq<u32>) -> Seq<u32>
    recommends
        s.len() == 16,
{
    let q0 = chacha_qr(s[0], s[4], s[8], s[12]);
    let q1 = chacha_qr(s[1], s[5], s[9], s[13]);
    let q2 = chacha_qr(s[2], s[6], s[10], s[14]);
    let q3 = chacha_qr(s[3], s[7], s[11], s[15]);
    let r0 = chacha_qr(q0.0, q1.1, q2.2, q3.3);
    let r1 = chacha_qr(q1.0, q2.1, q3.2, q0.3);
    let r2 = chacha_qr(q2.0, q3.1, q0.2, q1.3);
    let r3 = chacha_qr(q3.0, q0.1, q1.2, q2.3);
    seq![
        r0.0, r1.0, r2.0, r3.0,
        r3.1, r0.1, r1.1, r2.1,
        r2.2, r3.2, r0.2, r1.2,
        r1.3, r2.3, r3.3, r0.3,
    ]
}

/// `n` ChaCha double rounds applied to `s`.
pub open spec fn chacha_rounds(s: Seq<u32>, n: nat) -> Seq<u32>
    decreases n,
{
    if n == 0 {
        s
    } else {
        chacha_dr(chacha_rounds(s, (n - 1) as nat))
    }
}

/// The initial HChaCha state: the constant words, then the eight key
/// words, then the four input words.
pub open spec fn hchacha_init(k: Seq<u8>, n: Seq<u8>) -> Seq<u32> {
    seq![
        SIGMA0, SIGMA1, SIGMA2, SIGMA3,
        le_word(k, 0), le_word(k, 1), le_word(k, 2), le_word(k, 3),
        le_word(k, 4), le_word(k, 5), le_word(k, 6), le_word(k, 7),
        le_word(n, 0), le_word(n, 1), le_word(n, 2), le_word(n, 3),
    ]
}

/// HChaCha: 10 double rounds on the initial state, emitting the words
/// that held the constant and the input — a half-block compression, not
/// a full permutation output.
pub open spec fn hchacha_bytes(k: Seq<u8>, n: Seq<u8>) -> Seq<u8> {
    let s = chacha_rounds(hchacha_init(k, n), 10);
    spec_u32_to_le_bytes(s[0]) + spec_u32_to_le_bytes(s[1]) + spec_u32_to_le_bytes(s[2])
        + spec_u32_to_le_bytes(s[3]) + spec_u32_to_le_bytes(s[12]) + spec_u32_to_le_bytes(s[13])
        + spec_u32_to_le_bytes(s[14]) + spec_u32_to_le_bytes(s[15])
}

/// Little-endian word `i` of `b`.
fn load_word(b: &[u8], i: usize) -> (r: u32)
    requires
        4 * i + 4 <= b@.len(),
    ensures
        r == le_word(b@, i as int),
{
    // b@.len() fits in usize, so 4 * i + 4 cannot overflow.
    let _blen: usize = b.len();
    let r = read_u32_le(slice_subrange(b, 4 * i, 4 * i + 4));
    proof {
        assert(b@.subrange(4 * i as int, 4 * i as int + 4).subrange(0, 4)
            =~= b@.subrange(4 * i as int, 4 * i as int + 4));
    }
    r
}

fn quarterround(a: u32, b: u32, c: u32, d: u32) -> (r: (u32, u32, u32, u32))
    ensures
        r == chacha_qr(a, b, c, d),
{
    let a = a.wrapping_add(b);
    let d = rol32(d ^ a, 16);
    let c = c.wrapping_add(d);
    let b = rol32(b ^ c, 12);
    let a = a.wrapping_add(b);
    let d = rol32(d ^ a, 8);
    let c = c.wrapping_add(d);
    let b = rol32(b ^ c, 7);
    (a, b, c, d)
}

/// HChaCha compression of key `k` and input `n`, bit-exact to
/// `hchacha_bytes`.
pub fn hchacha(k: &[u8], n: &[u8]) -> (o: Vec<u8>)
    requires
        k@.len() >= 32,
        n@.len() >= 16,
    ensures
        o@ == hchacha_bytes(k@, n@),
        o@.len() == 32,
{
    let mut y0 = SIGMA0;
    let mut y1 = SIGMA1;
    let mut y2 = SIGMA2;
    let mut y3 = SIGMA3;
    let mut y4 = load_word(k, 0);
    let mut y5 = load_word(k, 1);
    let mut y6 = load_word(k, 2);
    let mut y7 = load_word(k, 3);
    let mut y8 = load_word(k, 4);
    let mut y9 = load_word(k, 5);
    let mut y10 = load_word(k, 6);
    let mut y11 = load_word(k, 7);
    let mut y12 = load_word(n, 0);
    let mut y13 = load_word(n, 1);
    let mut y14 = load_word(n, 2);
    let mut y15 = load_word(n, 3);
    proof {
        assert(seq![y0, y1, y2, y3, y4, y5, y6, y7, y8, y9, y10, y11, y12, y13, y14, y15]
            =~= hchacha_init(k@, n@));
    }
    let mut i: usize = 0;
    while i < 10
        invariant
            i <= 10,
            seq![y0, y1, y2, y3, y4, y5, y6, y7, y8, y9, y10, y11, y12, y13, y14, y15]
                == chacha_rounds(hchacha_init(k@, n@), i as nat),
        decreases 10 - i,
    {
        let ghost prev = seq![y0, y1, y2, y3, y4, y5, y6, y7, y8, y9, y10, y11, y12, y13, y14, y15];
        let (a0, b0, c0, d0): (u32, u32, u32, u32) = quarterround(y0, y4, y8, y12);
        let (a1, b1, c1, d1): (u32, u32, u32, u32) = quarterround(y1, y5, y9, y13);
        let (a2, b2, c2, d2): (u32, u32, u32, u32) = quarterround(y2, y6, y10, y14);
        let (a3, b3, c3, d3): (u32, u32, u32, u32) = quarterround(y3, y7, y11, y15);
        let (e0, f0, g0, h0): (u32, u32, u32, u32) = quarterround(a0, b1, c2, d3);
        let (e1, f1, g1, h1): (u32, u32, u32, u32) = quarterround(a1, b2, c3, d0);
        let (e2, f2, g2, h2): (u32, u32, u32, u32) = quarterround(a2, b3, c0, d1);
        let (e3, f3, g3, h3): (u32, u32, u32, u32) = quarterround(a3, b0, c1, d2);
        y0 = e0;
        y1 = e1;
        y2 = e2;
        y3 = e3;
        y4 = f3;
        y5 = f0;
        y6 = f1;
        y7 = f2;
        y8 = g2;
        y9 = g3;
        y10 = g0;
        y11 = g1;
        y12 = h1;
        y13 = h2;
        y14 = h3;
        y15 = h0;
        proof {
            assert(seq![y0, y1, y2, y3, y4, y5, y6, y7, y8, y9, y10, y11, y12, y13, y14, y15]
                =~= chacha_dr(prev));
        }
        i = i + 1;
    }
    let mut o: Vec<u8> = Vec::new();
    write_u32_le(&mut o, y0);
    write_u32_le(&mut o, y1);
    write_u32_le(&mut o, y2);
    write_u32_le(&mut o, y3);
    write_u32_le(&mut o, y12);
    write_u32_le(&mut o, y13);
    write_u32_le(&mut o, y14);
    write_u32_le(&mut o, y15);
    proof {
        lemma_auto_spec_u32_to_from_le_bytes();
        assert(o@ =~= hchacha_bytes(k@, n@));
    }
    o
}

/// One Salsa quarter-round on `(a, b, c, d)`: additions, xors and
/// rotations by 7, 9, 13 and 18.
pub open spec fn salsa_qr(a: u32, b: u32, c: u32, d: u32) -> (u32, u32, u32, u32) {
    let b1 = b ^ rol32_spec(a.wrapping_add(d), 7);
    let c1 = c ^ rol32_spec(b1.wrapping_add(a), 9);
    let d1 = d ^ rol32_spec(c1.wrapping_add(b1), 13);
    let a1 = a ^ rol32_spec(d1.wrapping_add(c1), 18);
    (a1, b1, c1, d1)
}

/// One Salsa double round: quarter-rounds down the columns of the 4x4
/// word state, then along the rows.
pub open spec fn salsa_dr(s: Seq<u32>) -> Seq<u32>
    recommends
        s.len() == 16,
{
    let q0 = salsa_qr(s[0], s[4], s[8], s[12]);
    let q1 = salsa_qr(s[5], s[9], s[13], s[1]);
    let q2 = salsa_qr(s[10], s[14], s[2], s[6]);
    let q3 = salsa_qr(s[15], s[3], s[7], s[11]);
    let r0 = salsa_qr(q0.0, q1.3, q2.2, q3.1);
    let r1 = salsa_qr(q1.0, q2.3, q3.2, q0.1);
    let r2 = salsa_qr(q2.0, q3.3, q0.2, q1.1);
    let r3 = salsa_qr(q3.0, q0.3, q1.2, q2.1);
    seq![
        r0.0, r0.1, r0.2, r0.3,
        r1.3, r1.0, r1.1, r1.2,
        r2.2, r2.3, r2.0, r2.1,
        r3.1, r3.2, r3.3, r3.0,
    ]
}

/// `n` Salsa double rounds applied to `s`.
pub open spec fn salsa_rounds(s: Seq<u32>, n: nat) -> Seq<u32>
    decreases n,
{
    if n == 0 {
        s
    } else {
        salsa_dr(salsa_rounds(s, (n - 1) as nat))
    }
}

/// The initial HSalsa state: constants on the diagonal, key words at
/// 1..=4 and 11..=14, input words at 6..=9.
pub open spec fn hsalsa_init(k: Seq<u8>, n: Seq<u8>) -> Seq<u32> {
    seq![
        SIGMA0, le_word(k, 0), le_word(k, 1), le_word(k, 2),
        le_word(k, 3), SIGMA1, le_word(n, 0), le_word(n, 1),
        le_word(n, 2), le_word(n, 3), SIGMA2, le_word(k, 4),
        le_word(k, 5), le_word(k, 6), le_word(k, 7), SIGMA3,
    ]
}

/// HSalsa: 10 double rounds on the initial state, emitting the words
/// that held the constant and the input.
pub open spec fn hsalsa_bytes(k: Seq<u8>, n: Seq<u8>) -> Seq<u8> {
    let s = salsa_rounds(hsalsa_init(k, n), 10);
    spec_u32_to_le_bytes(s[0]) + spec_u32_to_le_bytes(s[5]) + spec_u32_to_le_bytes(s[10])
        + spec_u32_to_le_bytes(s[15]) + spec_u32_to_le_bytes(s[6]) + spec_u32_to_le_bytes(s[7])
        + spec_u32_to_le_bytes(s[8]) + spec_u32_to_le_bytes(s[9])
}

fn salsa_quarterround(a: u32, b: u32, c: u32, d: u32) -> (r: (u32, u32, u32, u32))
    ensures
        r == salsa_qr(a, b, c, d),
{
    let b = b ^ rol32(a.wrapping_add(d), 7);
    let c = c ^ rol32(b.wrapping_add(a), 9);
    let d = d ^ rol32(c.wrapping_add(b), 13);
    let a = a ^ rol32(d.wrapping_add(c), 18);
    (a, b, c, d)
}

/// HSalsa compression of key `k` and input `n`, bit-exact to
/// `hsalsa_bytes`.
pub fn hsalsa20(k: &[u8], n: &[u8]) -> (o: Vec<u8>)
    requires
        k@.len() >= 32,
        n@.len() >= 16,
    ensures
        o@ == hsalsa_bytes(k@, n@),
        o@.len() == 32,
{
    let mut x0 = SIGMA0;
    let mut x1 = load_word(k, 0);
    let mut x2 = load_word(k, 1);
    let mut x3 = load_word(k, 2);
    let mut x4 = load_word(k, 3);
    let mut x5 = SIGMA1;
    let mut x6 = load_word(n, 0);
    let mut x7 = load_word(n, 1);
    let mut x8 = load_word(n, 2);
    let mut x9 = load_word(n, 3);
    let mut x10 = SIGMA2;
    let mut x11 = load_word(k, 4);
    let mut x12 = load_word(k, 5);
    let mut x13 = load_word(k, 6);
    let mut x14 = load_word(k, 7);
    let mut x15 = SIGMA3;
    proof {
        assert(seq![x0, x1, x2, x3, x4, x5, x6, x7, x8, x9, x10, x11, x12, x13, x14, x15]
            =~= hsalsa_init(k@, n@));
    }
    let mut i: usize = 0;
    while i < 10
        invariant
            i <= 10,
            seq![x0, x1, x2, x3, x4, x5, x6, x7, x8, x9, x10, x11, x12, x13, x14, x15]
                == salsa_rounds(hsalsa_init(k@, n@), i as nat),
        decreases 10 - i,
    {
        let ghost prev = seq![x0, x1, x2, x3, x4, x5, x6, x7, x8, x9, x10, x11, x12, x13, x14, x15];
        let (a0, b0, c0, d0): (u32, u32, u32, u32) = salsa_quarterround(x0, x4, x8, x12);
        let (a1, b1, c1, d1): (u32, u32, u32, u32) = salsa_quarterround(x5, x9, x13, x1);
        let (a2, b2, c2, d2): (u32, u32, u32, u32) = salsa_quarterround(x10, x14, x2, x6);
        let (a3, b3, c3, d3): (u32, u32, u32, u32) = salsa_quarterround(x15, x3, x7, x11);
        let (e0, f0, g0, h0): (u32, u32, u32, u32) = salsa_quarterround(a0, d1, c2, b3);
        let (e1, f1, g1, h1): (u32, u32, u32, u32) = salsa_quarterround(a1, d2, c3, b0);
        let (e2, f2, g2, h2): (u32, u32, u32, u32) = salsa_quarterround(a2, d3, c0, b1);
        let (e3, f3, g3, h3): (u32, u32, u32, u32) = salsa_quarterround(a3, d0, c1, b2);
        x0 = e0;
        x1 = f0;
        x2 = g0;
        x3 = h0;
        x4 = h1;
        x5 = e1;
        x6 = f1;
        x7 = g1;
        x8 = g2;
        x9 = h2;
        x10 = e2;
        x11 = f2;
        x12 = f3;
        x13 = g3;
        x14 = h3;
        x15 = e3;
        proof {
            assert(seq![x0, x1, x2, x3, x4, x5, x6, x7, x8, x9, x10, x11, x12, x13, x14, x15]
                =~= salsa_dr(prev));
        }
        i = i + 1;
    }
    let mut o: Vec<u8> = Vec::new();
    write_u32_le(&mut o, x0);
    write_u32_le(&mut o, x5);
    write_u32_le(&mut o, x10);
    write_u32_le(&mut o, x15);
    write_u32_le(&mut o, x6);
    write_u32_le(&mut o, x7);
    write_u32_le(&mut o, x8);
    write_u32_le(&mut o, x9);
    proof {
        lemma_auto_spec_u32_to_from_le_bytes();
        assert(o@ =~= hsalsa_bytes(k@, n@));
    }
    o
}

} // verus!
