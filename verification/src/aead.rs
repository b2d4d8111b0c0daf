//! Authenticated encryption: ChaCha20-Poly1305 with a 96-bit nonce, a 128-bit
//! tag and no associated data.

use chacha20poly1305::aead::{Aead, NewAead};
use chacha20poly1305::{ChaCha20Poly1305, Key, Nonce};
use vstd::prelude::*;

verus! {

/// The number of bytes that sealing adds to a message: the tag.
pub const TAG_BYTES: usize = 16;

/// The longest message that is handed to the cipher. A message up to this length
/// and its tag fit in memory on every platform, and lie far below the cipher's
/// own limit of 2^32 - 1 blocks of 64 bytes.
pub const MAX_MESSAGE_BYTES: usize = 0x7fff_ffef;

/// What sealing `msg` under `key` and `nonce` gives: the encrypted message
/// followed by its tag.
pub uninterp spec fn aead_seal(key: Seq<u8>, nonce: Seq<u8>, msg: Seq<u8>) -> Seq<u8>;

/// What opening `sealed` under `key` and `nonce` gives: the message, or `None`
/// where the tag does not verify.
pub uninterp spec fn aead_open(key: Seq<u8>, nonce: Seq<u8>, sealed: Seq<u8>) -> Option<Seq<u8>>;

/// Trusted: `ChaCha20Poly1305::new` and `Aead::encrypt` of `chacha20poly1305`.
/// The call succeeds on every message up to `MAX_MESSAGE_BYTES`; longer ones are
/// not handed to it. What it returns is a function of key, nonce and message, is
/// 16 bytes longer than the message, and opens to the message again under the
/// same key and nonce.
#[allow(deprecated)]
#[verifier::external_body]
pub(crate) fn seal(key: &[u8; 32], nonce: &[u8; 12], msg: &[u8]) -> (out: Option<Vec<u8>>)
    requires
        msg@.len() <= MAX_MESSAGE_BYTES,
    ensures
        out is Some,
        out matches Some(sealed) ==> sealed@ == aead_seal(key@, nonce@, msg@),
        out matches Some(sealed) ==> sealed@.len() == msg@.len() + TAG_BYTES,
        out matches Some(sealed) ==> aead_open(key@, nonce@, sealed@) == Some(msg@),
{
    ChaCha20Poly1305::new(Key::from_slice(key)).encrypt(Nonce::from_slice(nonce), msg).ok()
}

/// Trusted: `ChaCha20Poly1305::new` and `Aead::decrypt` of `chacha20poly1305`.
/// Whether the call succeeds, and the message it then returns, are a function of
/// key, nonce and input; a message that comes back is 16 bytes shorter than the
/// input.
#[allow(deprecated)]
#[verifier::external_body]
pub(crate) fn open(key: &[u8; 32], nonce: &[u8; 12], sealed: &[u8]) -> (out: Option<Vec<u8>>)
    ensures
        out matches Some(msg) ==> aead_open(key@, nonce@, sealed@) == Some(msg@),
        out matches Some(msg) ==> msg@.len() + TAG_BYTES == sealed@.len(),
        out is None ==> aead_open(key@, nonce@, sealed@) is None,
{
    ChaCha20Poly1305::new(Key::from_slice(key)).decrypt(Nonce::from_slice(nonce), sealed).ok()
}

} // verus!
