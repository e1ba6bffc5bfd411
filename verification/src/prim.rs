//! Trusted interface to the vetted outside primitives: the Poly1305
//! one-time authenticator, the two extended-nonce stream ciphers, and the
//! constant-time comparison.  Everything here is believed, not proved;
//! each contract states only what the primitive's own source shows.
use vstd::prelude::*;
use crate::bytes::xor_bytes;

verus! {

/// The 16-byte Poly1305 digest of `msg` under the 32-byte `key`: a
/// function of its arguments alone, left uninterpreted here.
pub uninterp spec fn poly1305_of(key: Seq<u8>, msg: Seq<u8>) -> Seq<u8>;

/// The first `len` bytes of the XChaCha20 keystream for `key` and
/// `nonce`: a function of its arguments alone, left uninterpreted here.
pub uninterp spec fn xchacha20_keystream(key: Seq<u8>, nonce: Seq<u8>, len: nat) -> Seq<u8>;

/// The first `len` bytes of the XSalsa20 keystream for `key` and
/// `nonce`: a function of its arguments alone, left uninterpreted here.
pub uninterp spec fn xsalsa20_keystream(key: Seq<u8>, nonce: Seq<u8>, len: nat) -> Seq<u8>;

/// Relies on `crypto::poly1305::Poly1305` (`new`, `Mac::input`,
/// `Mac::raw_result`): the digest is 16 bytes and depends on the 32-byte
/// key and the absorbed bytes alone.
#[verifier::external_body]
pub(crate) fn poly1305_digest(key: &[u8], msg: &[u8]) -> (r: Vec<u8>)
    requires
        key@.len() == 32,
    ensures
        r@ == poly1305_of(key@, msg@),
        r@.len() == 16,
{
    let mut p = crypto::poly1305::Poly1305::new(key);
    crypto::mac::Mac::input(&mut p, msg);
    let mut out = vec![0u8; 16];
    crypto::mac::Mac::raw_result(&mut p, &mut out);
    out
}

/// The XChaCha20 keystream that can actually be drawn for one
/// (key, nonce): the cipher's block counter is 32 bits and it refuses to
/// let it wrap, so at most 2^32 - 1 blocks of 64 bytes exist.
pub const XCHACHA_MAX_LEN: u64 = 0x40_0000_0000 - 64;

/// Relies on `crypto::chacha20::ChaCha20::new_xchacha20` and
/// `SynchronousStreamCipher::process`: the output is the input XORed
/// with a keystream determined by key and nonce alone.  The cipher
/// panics ("counter is exhausted") once its 32-bit block counter would
/// wrap, so the input must fit in the 2^32 - 1 blocks that exist.
#[verifier::external_body]
pub(crate) fn xchacha20_xor(key: &[u8], nonce: &[u8], input: &[u8]) -> (r: Vec<u8>)
    requires
        key@.len() == 32,
        nonce@.len() == 24,
        input@.len() <= XCHACHA_MAX_LEN,
    ensures
        r@ == xor_bytes(input@, xchacha20_keystream(key@, nonce@, input@.len())),
{
    let mut cipher = crypto::chacha20::ChaCha20::new_xchacha20(key, nonce);
    let mut out = vec![0u8; input.len()];
    crypto::symmetriccipher::SynchronousStreamCipher::process(&mut cipher, input, &mut out);
    out
}

/// Relies on `crypto::salsa20::Salsa20::new_xsalsa20` and
/// `SynchronousStreamCipher::process`: the output is the input XORed
/// with a keystream determined by key and nonce alone.
#[verifier::external_body]
pub(crate) fn xsalsa20_xor(key: &[u8], nonce: &[u8], input: &[u8]) -> (r: Vec<u8>)
    requires
        key@.len() == 32,
        nonce@.len() == 24,
    ensures
        r@ == xor_bytes(input@, xsalsa20_keystream(key@, nonce@, input@.len())),
{
    let mut cipher = crypto::salsa20::Salsa20::new_xsalsa20(key, nonce);
    let mut out = vec![0u8; input.len()];
    crypto::symmetriccipher::SynchronousStreamCipher::process(&mut cipher, input, &mut out);
    out
}

/// Relies on `crypto::util::fixed_time_eq`: nonempty equal-length byte
/// strings compare equal exactly when their bytes match, in time
/// independent of where they first differ.
pub assume_specification[ crypto::util::fixed_time_eq ](lhs: &[u8], rhs: &[u8]) -> (r: bool)
    requires
        lhs@.len() == rhs@.len(),
        lhs@.len() > 0,
    ensures
        r == (lhs@ == rhs@),
;

} // verus!
