//! Byte-level utilities: little-endian loads and stores, zero padding,
//! and the XOR of equal-length byte strings that a stream cipher applies.
use vstd::prelude::*;
use vstd::bytes::{spec_u32_from_le_bytes, spec_u32_to_le_bytes, spec_u64_to_le_bytes};
use vstd::bytes::{u32_from_le_bytes, u32_to_le_bytes, u64_to_le_bytes};
use vstd::slice::slice_subrange;
use vstd::assert_by_contradiction;
use vstd::pervasive::VecAdditionalExecFns;

verus! {

/// A run of `n` zero bytes.
pub open spec fn zeros(n: nat) -> Seq<u8> {
    Seq::new(n, |i: int| 0u8)
}

/// `s` extended with zero bytes to the next 16-byte boundary.
pub open spec fn pad16(s: Seq<u8>) -> Seq<u8> {
    if s.len() % 16 == 0 {
        s
    } else {
        s + zeros((16 - s.len() % 16) as nat)
    }
}

/// Bytewise XOR; the result has the length of `a`.
pub open spec fn xor_bytes(a: Seq<u8>, b: Seq<u8>) -> Seq<u8> {
    Seq::new(a.len(), |i: int| a[i] ^ b[i])
}

/// XOR with the same byte string twice gives the original back; this is
/// why one stream-cipher pass both encrypts and decrypts.
pub proof fn lemma_xor_bytes_involution(a: Seq<u8>, b: Seq<u8>)
    ensures
        xor_bytes(xor_bytes(a, b), b) == a,
{
    assert forall|i: int| 0 <= i < a.len() implies xor_bytes(xor_bytes(a, b), b)[i] == a[i] by {
        let x = a[i];
        let y = b[i];
        assert((x ^ y) ^ y == x) by (bit_vector);
    }
    assert(xor_bytes(xor_bytes(a, b), b) =~= a);
}

/// XOR with a fixed byte string is injective: different inputs of equal
/// length give different outputs.
pub proof fn lemma_xor_bytes_injective(a1: Seq<u8>, a2: Seq<u8>, b: Seq<u8>)
    requires
        a1.len() == a2.len(),
        a1 != a2,
    ensures
        xor_bytes(a1, b) != xor_bytes(a2, b),
{
    assert_by_contradiction!(exists|i: int| 0 <= i < a1.len() && a1[i] != a2[i], {
        assert(a1 =~= a2);
    });
    let i = choose|i: int| 0 <= i < a1.len() && a1[i] != a2[i];
    let x = a1[i];
    let y = a2[i];
    let z = b[i];
    assert((x ^ z) != (y ^ z)) by (bit_vector)
        requires
            x != y,
    ;
    assert(xor_bytes(a1, b)[i] != xor_bytes(a2, b)[i]);
}

/// The 32-bit word stored little-endian in the first four bytes of `buf`.
pub fn read_u32_le(buf: &[u8]) -> (r: u32)
    requires
        buf@.len() >= 4,
    ensures
        r == spec_u32_from_le_bytes(buf@.subrange(0, 4)),
{
    u32_from_le_bytes(slice_subrange(buf, 0, 4))
}

/// Appends the four little-endian bytes of `x` to `buf`.
pub fn write_u32_le(buf: &mut Vec<u8>, x: u32)
    ensures
        final(buf)@ == old(buf)@ + spec_u32_to_le_bytes(x),
{
    let mut b = u32_to_le_bytes(x);
    buf.append(&mut b);
}

/// Appends the eight little-endian bytes of `x` to `buf`.
pub fn write_u64_le(buf: &mut Vec<u8>, x: u64)
    ensures
        final(buf)@ == old(buf)@ + spec_u64_to_le_bytes(x),
{
    let mut b = u64_to_le_bytes(x);
    buf.append(&mut b);
}

/// Appends a copy of `src` to `dst`.
pub fn push_bytes(dst: &mut Vec<u8>, src: &[u8])
    ensures
        final(dst)@ == old(dst)@ + src@,
{
    dst.extend_from_slice(src);
    proof {
        assert(dst@ =~= old(dst)@ + src@);
    }
}

/// Overwrites every byte of `v` with zero, in place.
pub fn zeroize(v: &mut Vec<u8>)
    ensures
        final(v)@ == zeros(old(v)@.len()),
{
    let n: usize = v.len();
    let mut i: usize = 0;
    while i < n
        invariant
            i <= n,
            v@.len() == n,
            forall|j: int| 0 <= j < i ==> v@[j] == 0u8,
        decreases n - i,
    {
        v.set(i, 0u8);
        i = i + 1;
    }
    proof {
        assert(v@ =~= zeros(old(v)@.len()));
    }
}

/// Appends `n` zero bytes to `dst`.
pub fn push_zeros(dst: &mut Vec<u8>, n: usize)
    requires
        old(dst)@.len() + n <= usize::MAX,
    ensures
        final(dst)@ == old(dst)@ + zeros(n as nat),
{
    let mut i: usize = 0;
    while i < n
        invariant
            i <= n,
            dst@ == old(dst)@ + zeros(i as nat),
        decreases n - i,
    {
        dst.push(0u8);
        proof {
            assert(dst@ =~= old(dst)@ + zeros((i + 1) as nat));
        }
        i = i + 1;
    }
}

} // verus!
