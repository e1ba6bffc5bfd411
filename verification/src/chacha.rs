//! The ChaCha variant of Daence: two Poly1305 instances, explicit block
//! padding, and an explicit associated-data/message length trailer.
use vstd::prelude::*;
use vstd::bytes::spec_u64_to_le_bytes;
use vstd::slice::{slice_subrange, slice_to_vec};
use crate::bytes::{lemma_xor_bytes_injective, lemma_xor_bytes_involution, pad16, push_bytes,
    push_zeros, write_u64_le, xor_bytes, zeroize, zeros};
use crate::permute::{hchacha, hchacha_bytes};
use crate::prim::{poly1305_digest, poly1305_of, xchacha20_keystream, xchacha20_xor,
    XCHACHA_MAX_LEN};

verus! {

/// One-time MAC key `i` of the ChaCha variant: 16 key bytes starting at
/// offset `32 + 16*i`, zero-extended to the 32-byte Poly1305 key.
pub open spec fn chacha_mac_key(key: Seq<u8>, i: int) -> Seq<u8> {
    key.subrange(32 + 16 * i, 48 + 16 * i) + zeros(16)
}

/// Everything the two authenticators absorb: associated data and message,
/// each zero-padded to a 16-byte boundary, then an explicit trailer of
/// their little-endian 8-byte lengths.
pub open spec fn chacha_mac_data(ad: Seq<u8>, m: Seq<u8>) -> Seq<u8> {
    pad16(ad) + pad16(m) + spec_u64_to_le_bytes(ad.len() as u64)
        + spec_u64_to_le_bytes(m.len() as u64)
}

/// The 24-byte synthetic tag: the two Poly1305 digests cascaded through
/// HChaCha under the main key, truncated to 24 bytes.
pub open spec fn chacha_tag(key: Seq<u8>, ad: Seq<u8>, m: Seq<u8>) -> Seq<u8> {
    let h1 = poly1305_of(chacha_mac_key(key, 0), chacha_mac_data(ad, m));
    let h2 = poly1305_of(chacha_mac_key(key, 1), chacha_mac_data(ad, m));
    let u = hchacha_bytes(key.subrange(0, 32), h1);
    hchacha_bytes(u, h2).take(24)
}

/// The ciphertext: the message XORed with the XChaCha20 keystream whose
/// extended nonce is the synthetic tag.
pub open spec fn chacha_ct(key: Seq<u8>, ad: Seq<u8>, m: Seq<u8>) -> Seq<u8> {
    xor_bytes(m, xchacha20_keystream(key.subrange(0, 32), chacha_tag(key, ad, m), m.len()))
}

/// The candidate plaintext that decryption recovers from ciphertext `c`
/// under a supplied tag `t`.
pub open spec fn chacha_pt(key: Seq<u8>, t: Seq<u8>, c: Seq<u8>) -> Seq<u8> {
    xor_bytes(c, xchacha20_keystream(key.subrange(0, 32), t, c.len()))
}

/// A single-use ChaCha-Daence engine.  It owns the 64-byte key and the
/// associated data bound at construction; `encrypt` and `decrypt` consume
/// the engine, so using one twice is impossible by construction.
pub struct ChaChaDaence {
    key: Vec<u8>,
    ad: Vec<u8>,
}

impl ChaChaDaence {
    /// The 64-byte key: a 32-byte cipher key followed by two 16-byte MAC
    /// keys.
    pub closed spec fn key(&self) -> Seq<u8> {
        self.key@
    }

    /// The associated data bound at construction.
    pub closed spec fn ad(&self) -> Seq<u8> {
        self.ad@
    }

    pub open spec fn wf(&self) -> bool {
        self.key().len() == 64
    }

    /// Binds a 64-byte key and the associated data into a fresh engine.
    pub fn new(key: &[u8], ad: &[u8]) -> (e: ChaChaDaence)
        requires
            key@.len() == 64,
        ensures
            e.wf(),
            e.key() == key@,
            e.ad() == ad@,
    {
        ChaChaDaence { key: slice_to_vec(key), ad: slice_to_vec(ad) }
    }

    /// Folds associated data and message, each zero-padded to a 16-byte
    /// boundary, with the length trailer through the two one-time
    /// authenticators, and cascades the digests through HChaCha into the
    /// 24-byte synthetic tag.
    fn compressauth(&self, m: &[u8]) -> (t: Vec<u8>)
        requires
            self.wf(),
            self.ad().len() + m@.len() + 48 <= usize::MAX,
        ensures
            t@ == chacha_tag(self.key(), self.ad(), m@),
            t@.len() == 24,
    {
        let mut data: Vec<u8> = Vec::new();
        push_bytes(&mut data, self.ad.as_slice());
        let adrem: usize = self.ad.len() % 16;
        if adrem != 0 {
            push_zeros(&mut data, 16 - adrem);
        }
        proof {
            assert(data@ =~= pad16(self.ad()));
        }
        push_bytes(&mut data, m);
        let mrem: usize = m.len() % 16;
        if mrem != 0 {
            push_zeros(&mut data, 16 - mrem);
        }
        proof {
            assert(data@ =~= pad16(self.ad()) + pad16(m@));
        }
        write_u64_le(&mut data, self.ad.len() as u64);
        write_u64_le(&mut data, m.len() as u64);
        proof {
            assert(data@ =~= chacha_mac_data(self.ad(), m@));
        }
        let mut k1: Vec<u8> = Vec::new();
        push_bytes(&mut k1, slice_subrange(self.key.as_slice(), 32, 48));
        push_zeros(&mut k1, 16);
        let mut k2: Vec<u8> = Vec::new();
        push_bytes(&mut k2, slice_subrange(self.key.as_slice(), 48, 64));
        push_zeros(&mut k2, 16);
        proof {
            assert(k1@ =~= chacha_mac_key(self.key(), 0));
            assert(k2@ =~= chacha_mac_key(self.key(), 1));
        }
        let h1 = poly1305_digest(k1.as_slice(), data.as_slice());
        let h2 = poly1305_digest(k2.as_slice(), data.as_slice());
        let u = hchacha(slice_subrange(self.key.as_slice(), 0, 32), h1.as_slice());
        let mut t = hchacha(u.as_slice(), h2.as_slice());
        t.truncate(24);
        t
    }

    /// Deterministic authenticated encryption: derives the synthetic tag
    /// from key, associated data and message, then uses it as the stream
    /// cipher's extended nonce.  Returns (ciphertext, tag).  The message
    /// must fit in the XChaCha20 keystream that exists for one nonce.
    pub fn encrypt(self, m: &[u8]) -> (r: (Vec<u8>, Vec<u8>))
        requires
            self.wf(),
            m@.len() <= XCHACHA_MAX_LEN,
            self.ad().len() + m@.len() + 48 <= usize::MAX,
        ensures
            r.0@ == chacha_ct(self.key(), self.ad(), m@),
            r.1@ == chacha_tag(self.key(), self.ad(), m@),
            r.0@.len() == m@.len(),
            r.1@.len() == 24,
    {
        let t = self.compressauth(m);
        let c = xchacha20_xor(slice_subrange(self.key.as_slice(), 0, 32), t.as_slice(), m);
        (c, t)
    }

    /// Recovers the candidate plaintext with the supplied tag as nonce,
    /// recomputes the expected tag from that candidate, and compares the
    /// two in constant time.  On mismatch the candidate buffer is zeroed
    /// in place, handed back as the output, and `false` is returned; the
    /// caller's ciphertext and tag are never modified.
    pub fn decrypt(self, c: &[u8], m: &mut Vec<u8>, t: &[u8]) -> (ok: bool)
        requires
            self.wf(),
            old(m)@.len() == c@.len(),
            t@.len() == 24,
            c@.len() <= XCHACHA_MAX_LEN,
            self.ad().len() + c@.len() + 48 <= usize::MAX,
        ensures
            final(m)@.len() == c@.len(),
            ok <==> t@ == chacha_tag(self.key(), self.ad(), chacha_pt(self.key(), t@, c@)),
            ok ==> final(m)@ == chacha_pt(self.key(), t@, c@),
            !ok ==> final(m)@ == zeros(c@.len()),
    {
        let mut p = xchacha20_xor(slice_subrange(self.key.as_slice(), 0, 32), t, c);
        let t2 = self.compressauth(p.as_slice());
        if crypto::util::fixed_time_eq(t, t2.as_slice()) {
            *m = p;
            true
        } else {
            zeroize(&mut p);
            *m = p;
            false
        }
    }
}

/// Round trip: decrypting what encryption produced, under the same key
/// and associated data, recovers the message, and the recomputed tag
/// matches, so `decrypt` accepts.
pub proof fn lemma_chacha_round_trip(key: Seq<u8>, ad: Seq<u8>, m: Seq<u8>)
    requires
        key.len() == 64,
        m.len() <= XCHACHA_MAX_LEN,
    ensures
        chacha_pt(key, chacha_tag(key, ad, m), chacha_ct(key, ad, m)) == m,
        chacha_tag(key, ad, chacha_pt(key, chacha_tag(key, ad, m), chacha_ct(key, ad, m)))
            == chacha_tag(key, ad, m),
{
    let t = chacha_tag(key, ad, m);
    let ks = xchacha20_keystream(key.subrange(0, 32), t, m.len());
    lemma_xor_bytes_involution(m, ks);
}

/// Determinism: ciphertext and tag are functions of key, associated data
/// and message alone — equal inputs give byte-identical output, with no
/// hidden randomness and no caller-supplied nonce.
pub proof fn lemma_chacha_deterministic(
    key1: Seq<u8>,
    ad1: Seq<u8>,
    m1: Seq<u8>,
    key2: Seq<u8>,
    ad2: Seq<u8>,
    m2: Seq<u8>,
)
    requires
        key1 == key2,
        ad1 == ad2,
        m1 == m2,
    ensures
        chacha_ct(key1, ad1, m1) == chacha_ct(key2, ad2, m2),
        chacha_tag(key1, ad1, m1) == chacha_tag(key2, ad2, m2),
{
}

/// Tamper sensitivity, the provable part: the keystream XOR is
/// injective, so any change to the ciphertext changes the candidate
/// plaintext whose recomputed tag `decrypt` holds against the supplied
/// tag in constant time.
pub proof fn lemma_chacha_tamper_changes_candidate(
    key: Seq<u8>,
    t: Seq<u8>,
    c1: Seq<u8>,
    c2: Seq<u8>,
)
    requires
        c1.len() == c2.len(),
        c1 != c2,
    ensures
        chacha_pt(key, t, c1) != chacha_pt(key, t, c2),
{
    lemma_xor_bytes_injective(c1, c2, xchacha20_keystream(key.subrange(0, 32), t, c1.len()));
}

} // verus!
