//! Daence: deterministic, nonce-less authenticated encryption built from a
//! stream cipher and one-time authenticators.  The 24-byte tag is derived
//! from key, associated data and message, and doubles as the cipher's
//! extended nonce, so identical inputs always give identical output and no
//! caller-supplied nonce exists to be misused.
use vstd::prelude::*;

pub mod bytes;
pub mod permute;
pub mod prim;
pub mod chacha;
pub mod salsa20;

verus! {

/// Upper bound on message and ciphertext length for the Salsa variant,
/// 2^38 bytes: its stream cipher's counter-space limit.  The ChaCha
/// variant stops 64 bytes short of this (`prim::XCHACHA_MAX_LEN`),
/// where its cipher's keystream actually ends.
pub const MAX_MSG_LEN: u64 = 0x40_0000_0000;

} // verus!
