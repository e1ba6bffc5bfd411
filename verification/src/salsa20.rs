//! The Salsa variant of Daence: four Poly1305 instances in a two-level
//! cascade.  Associated data and message are each hashed to fixed-length
//! 16-byte digests before re-absorption, so no explicit padding or length
//! trailer is needed — every second-level input is fixed-length.
use vstd::prelude::*;
use vstd::slice::{slice_subrange, slice_to_vec};
use crate::bytes::{lemma_xor_bytes_injective, lemma_xor_bytes_involution, push_bytes,
    push_zeros, xor_bytes, zeroize, zeros};
use crate::MAX_MSG_LEN;
use crate::permute::{hsalsa20, hsalsa_bytes};
use crate::prim::{poly1305_digest, poly1305_of, xsalsa20_keystream, xsalsa20_xor};

verus! {

/// One-time MAC key `i` of the Salsa variant: 16 key bytes starting at
/// offset `32 + 16*i`, zero-extended to the 32-byte Poly1305 key.
pub open spec fn salsa_mac_key(key: Seq<u8>, i: int) -> Seq<u8> {
    key.subrange(32 + 16 * i, 48 + 16 * i) + zeros(16)
}

/// The 24-byte synthetic tag of the Salsa variant: first-level digests of
/// the associated data and of the message, re-absorbed by the two
/// second-level authenticators, whose digests are cascaded through HSalsa
/// under the main key and truncated to 24 bytes.
pub open spec fn salsa_tag(key: Seq<u8>, ad: Seq<u8>, m: Seq<u8>) -> Seq<u8> {
    let ha1 = poly1305_of(salsa_mac_key(key, 0), ad);
    let ha2 = poly1305_of(salsa_mac_key(key, 1), ad);
    let hm1 = poly1305_of(salsa_mac_key(key, 0), m);
    let hm2 = poly1305_of(salsa_mac_key(key, 1), m);
    let level2 = ha1 + ha2 + hm1 + hm2;
    let h3 = poly1305_of(salsa_mac_key(key, 2), level2);
    let h4 = poly1305_of(salsa_mac_key(key, 3), level2);
    let u = hsalsa_bytes(key.subrange(0, 32), h3);
    hsalsa_bytes(u, h4).take(24)
}

/// The ciphertext: the message XORed with the XSalsa20 keystream whose
/// extended nonce is the synthetic tag.
pub open spec fn salsa_ct(key: Seq<u8>, ad: Seq<u8>, m: Seq<u8>) -> Seq<u8> {
    xor_bytes(m, xsalsa20_keystream(key.subrange(0, 32), salsa_tag(key, ad, m), m.len()))
}

/// The candidate plaintext that decryption recovers from ciphertext `c`
/// under a supplied tag `t`.
pub open spec fn salsa_pt(key: Seq<u8>, t: Seq<u8>, c: Seq<u8>) -> Seq<u8> {
    xor_bytes(c, xsalsa20_keystream(key.subrange(0, 32), t, c.len()))
}

/// A single-use Salsa-Daence engine.  It owns the 96-byte key and the
/// associated data bound at construction; `encrypt` and `decrypt` consume
/// the engine, so using one twice is impossible by construction.
pub struct Salsa20Daence {
    key: Vec<u8>,
    ad: Vec<u8>,
}

impl Salsa20Daence {
    /// The 96-byte key: a 32-byte cipher key followed by four 16-byte MAC
    /// keys.
    pub closed spec fn key(&self) -> Seq<u8> {
        self.key@
    }

    /// The associated data bound at construction.
    pub closed spec fn ad(&self) -> Seq<u8> {
        self.ad@
    }

    pub open spec fn wf(&self) -> bool {
        self.key().len() == 96
    }

    /// Binds a 96-byte key and the associated data into a fresh engine.
    pub fn new(key: &[u8], ad: &[u8]) -> (e: Salsa20Daence)
        requires
            key@.len() == 96,
        ensures
            e.wf(),
            e.key() == key@,
            e.ad() == ad@,
    {
        Salsa20Daence { key: slice_to_vec(key), ad: slice_to_vec(ad) }
    }

    /// The 32-byte Poly1305 key holding the 16 key bytes at offset `off`,
    /// zero-extended.
    fn mac_key(&self, off: usize) -> (k: Vec<u8>)
        requires
            self.wf(),
            off == 32 || off == 48 || off == 64 || off == 80,
        ensures
            k@ == salsa_mac_key(self.key(), (off - 32) / 16),
            k@.len() == 32,
    {
        let mut k: Vec<u8> = Vec::new();
        push_bytes(&mut k, slice_subrange(self.key.as_slice(), off, off + 16));
        push_zeros(&mut k, 16);
        proof {
            assert(k@ =~= salsa_mac_key(self.key(), (off - 32) as int / 16));
        }
        k
    }

    /// Hashes associated data and message to first-level digests, folds
    /// those through the second-level authenticators, and cascades the
    /// resulting digests through HSalsa into the 24-byte synthetic tag.
    fn compressauth(&self, m: &[u8]) -> (t: Vec<u8>)
        requires
            self.wf(),
        ensures
            t@ == salsa_tag(self.key(), self.ad(), m@),
            t@.len() == 24,
    {
        let k1 = self.mac_key(32);
        let k2 = self.mac_key(48);
        let ha1 = poly1305_digest(k1.as_slice(), self.ad.as_slice());
        let ha2 = poly1305_digest(k2.as_slice(), self.ad.as_slice());
        let hm1 = poly1305_digest(k1.as_slice(), m);
        let hm2 = poly1305_digest(k2.as_slice(), m);
        let mut level2: Vec<u8> = Vec::new();
        push_bytes(&mut level2, ha1.as_slice());
        push_bytes(&mut level2, ha2.as_slice());
        push_bytes(&mut level2, hm1.as_slice());
        push_bytes(&mut level2, hm2.as_slice());
        proof {
            assert(level2@ =~= ha1@ + ha2@ + hm1@ + hm2@);
        }
        let k3 = self.mac_key(64);
        let k4 = self.mac_key(80);
        let h3 = poly1305_digest(k3.as_slice(), level2.as_slice());
        let h4 = poly1305_digest(k4.as_slice(), level2.as_slice());
        let u = hsalsa20(slice_subrange(self.key.as_slice(), 0, 32), h3.as_slice());
        let mut t = hsalsa20(u.as_slice(), h4.as_slice());
        t.truncate(24);
        t
    }

    /// Deterministic authenticated encryption: derives the synthetic tag
    /// from key, associated data and message, then uses it as the stream
    /// cipher's extended nonce.  Returns (ciphertext, tag).
    pub fn encrypt(self, m: &[u8]) -> (r: (Vec<u8>, Vec<u8>))
        requires
            self.wf(),
            m@.len() <= MAX_MSG_LEN,
        ensures
            r.0@ == salsa_ct(self.key(), self.ad(), m@),
            r.1@ == salsa_tag(self.key(), self.ad(), m@),
            r.0@.len() == m@.len(),
            r.1@.len() == 24,
    {
        let t = self.compressauth(m);
        let c = xsalsa20_xor(slice_subrange(self.key.as_slice(), 0, 32), t.as_slice(), m);
        (c, t)
    }

    /// Recovers the candidate plaintext with the supplied tag as nonce,
    /// recomputes the expected tag from that candidate, and compares the
    /// two in constant time.  On mismatch the candidate buffer is zeroed
    /// in place, handed back as the output, and `false` is returned; the
    /// caller's ciphertext and tag are never modified.
    pub fn decrypt(self, c: &[u8], m: &mut Vec<u8>, t: &[u8]) -> (ok: bool)
        requires
            self.wf(),
            old(m)@.len() == c@.len(),
            t@.len() == 24,
            c@.len() <= MAX_MSG_LEN,
        ensures
            final(m)@.len() == c@.len(),
            ok <==> t@ == salsa_tag(self.key(), self.ad(), salsa_pt(self.key(), t@, c@)),
            ok ==> final(m)@ == salsa_pt(self.key(), t@, c@),
            !ok ==> final(m)@ == zeros(c@.len()),
    {
        let mut p = xsalsa20_xor(slice_subrange(self.key.as_slice(), 0, 32), t, c);
        let t2 = self.compressauth(p.as_slice());
        if crypto::util::fixed_time_eq(t, t2.as_slice()) {
            *m = p;
            true
        } else {
            zeroize(&mut p);
            *m = p;
            false
        }
    }
}

/// Round trip: decrypting what encryption produced, under the same key
/// and associated data, recovers the message, and the recomputed tag
/// matches, so `decrypt` accepts.
pub proof fn lemma_salsa_round_trip(key: Seq<u8>, ad: Seq<u8>, m: Seq<u8>)
    requires
        key.len() == 96,
        m.len() <= MAX_MSG_LEN,
    ensures
        salsa_pt(key, salsa_tag(key, ad, m), salsa_ct(key, ad, m)) == m,
        salsa_tag(key, ad, salsa_pt(key, salsa_tag(key, ad, m), salsa_ct(key, ad, m)))
            == salsa_tag(key, ad, m),
{
    let t = salsa_tag(key, ad, m);
    let ks = xsalsa20_keystream(key.subrange(0, 32), t, m.len());
    lemma_xor_bytes_involution(m, ks);
}

/// Determinism: ciphertext and tag are functions of key, associated data
/// and message alone — equal inputs give byte-identical output, with no
/// hidden randomness and no caller-supplied nonce.
pub proof fn lemma_salsa_deterministic(
    key1: Seq<u8>,
    ad1: Seq<u8>,
    m1: Seq<u8>,
    key2: Seq<u8>,
    ad2: Seq<u8>,
    m2: Seq<u8>,
)
    requires
        key1 == key2,
        ad1 == ad2,
        m1 == m2,
    ensures
        salsa_ct(key1, ad1, m1) == salsa_ct(key2, ad2, m2),
        salsa_tag(key1, ad1, m1) == salsa_tag(key2, ad2, m2),
{
}

/// Tamper sensitivity, the provable part: the keystream XOR is
/// injective, so any change to the ciphertext changes the candidate
/// plaintext whose recomputed tag `decrypt` holds against the supplied
/// tag in constant time.
pub proof fn lemma_salsa_tamper_changes_candidate(
    key: Seq<u8>,
    t: Seq<u8>,
    c1: Seq<u8>,
    c2: Seq<u8>,
)
    requires
        c1.len() == c2.len(),
        c1 != c2,
    ensures
        salsa_pt(key, t, c1) != salsa_pt(key, t, c2),
{
    lemma_xor_bytes_injective(c1, c2, xsalsa20_keystream(key.subrange(0, 32), t, c1.len()));
}

} // verus!
