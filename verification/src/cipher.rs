//! XChaCha20-Poly1305.

use chacha20poly1305::aead::{Aead, KeyInit, Payload};
use chacha20poly1305::{Key, XChaCha20Poly1305, XNonce};
use rand::Rng;
use vstd::prelude::*;

verus! {

/// The longest message that the cipher seals: its key stream has 2^32 - 2 blocks
/// of 64 bytes for the message.
pub const MAX_MESSAGE_LEN: u64 = 274_877_906_816;

/// The length of the tag that stands behind a sealed message.
pub const TAG_LEN: u64 = 16;

/// A message sealed under a key and a nonce, with data authenticated beside it.
pub uninterp spec fn xchacha20poly1305_seal(
    key: Seq<u8>,
    nonce: Seq<u8>,
    aad: Seq<u8>,
    message: Seq<u8>,
) -> Seq<u8>;

/// The message that a sealed text opens to, if it is authentic.
pub uninterp spec fn xchacha20poly1305_open(
    key: Seq<u8>,
    nonce: Seq<u8>,
    aad: Seq<u8>,
    sealed: Seq<u8>,
) -> Option<Seq<u8>>;

/// What the cipher reports where it cannot seal or open.
#[verifier::external_type_specification]
#[verifier::external_body]
pub struct ExCipherError(chacha20poly1305::Error);

/// `XChaCha20Poly1305::encrypt`: the result depends on the arguments alone, comes
/// for every message that the key stream covers, is 16 bytes longer than the
/// message, and opens to it.
#[verifier::external_body]
pub(crate) fn seal(key: &[u8; 32], nonce: &[u8; 24], aad: &[u8], message: &[u8]) -> (sealed: Result<
    Vec<u8>,
    chacha20poly1305::Error,
>)
    requires
        message@.len() <= MAX_MESSAGE_LEN,
    ensures
        sealed is Ok,
        sealed->Ok_0@ == xchacha20poly1305_seal(key@, nonce@, aad@, message@),
        sealed->Ok_0@.len() == message@.len() + TAG_LEN,
        xchacha20poly1305_open(key@, nonce@, aad@, sealed->Ok_0@) == Some(message@),
{
    let cipher = XChaCha20Poly1305::new(Key::from_slice(key));
    cipher.encrypt(XNonce::from_slice(nonce), Payload { msg: message, aad })
}

/// `XChaCha20Poly1305::decrypt`: the result depends on the arguments alone, a text
/// that opens to a message is that message sealed and 16 bytes longer, and a text
/// shorter than the tag does not open.
#[verifier::external_body]
pub(crate) fn open(key: &[u8; 32], nonce: &[u8; 24], aad: &[u8], sealed: &[u8]) -> (message: Result<
    Vec<u8>,
    chacha20poly1305::Error,
>)
    requires
        sealed@.len() <= MAX_MESSAGE_LEN + TAG_LEN,
    ensures
        match message {
            Ok(plain) => xchacha20poly1305_open(key@, nonce@, aad@, sealed@) == Some(plain@)
                && sealed@ == xchacha20poly1305_seal(key@, nonce@, aad@, plain@) && sealed@.len()
                == plain@.len() + TAG_LEN,
            Err(_) => xchacha20poly1305_open(key@, nonce@, aad@, sealed@) is None,
        },
        sealed@.len() < TAG_LEN ==> message is Err,
{
    let cipher = XChaCha20Poly1305::new(Key::from_slice(key));
    cipher.decrypt(XNonce::from_slice(nonce), Payload { msg: sealed, aad })
}

/// `fill_bytes` of `rand`'s thread generator: 24 bytes, drawn anew on every call.
/// Nothing is stated of their value.
#[verifier::external_body]
pub(crate) fn random_nonce() -> (nonce: [u8; 24]) {
    let mut nonce: [u8; 24] = [0u8; 24];
    rand::rng().fill_bytes(&mut nonce);
    nonce
}

} // verus!
