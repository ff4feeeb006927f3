//! ChaCha20-Poly1305 sealing and opening, the random nonce source, and the
//! conversion of opened bytes to text, each through a trusted call.

use chacha20poly1305::aead::{Aead, KeyInit};
use chacha20poly1305::{ChaCha20Poly1305, Key, Nonce};
use rand::RngCore;
use vstd::prelude::*;
use vstd::utf8::{decode_utf8, valid_utf8};

verus! {

/// The length in bytes of the authentication tag that sealing appends.
pub const TAG_LEN: usize = 16;

/// The ciphertext followed by its tag that ChaCha20-Poly1305 gives for `msg`
/// under `key` and `nonce`, with no associated data.
pub uninterp spec fn sealed_of(key: Seq<u8>, nonce: Seq<u8>, msg: Seq<u8>) -> Seq<u8>;

/// Text that `String::from_utf8_lossy` gives for bytes that are not valid UTF-8.
pub uninterp spec fn lossy_text_of(b: Seq<u8>) -> Seq<char>;

/// Whether a message is short enough for the cipher: its 64-byte block
/// counter must stay below `u32::MAX`.
pub open spec fn within_limit(msg: Seq<u8>) -> bool {
    msg.len() / 64 < 0xffff_ffff
}

/// What opening `ct` under `key` and `nonce` gives: the one message that
/// seals to it, or nothing when none does.
pub open spec fn opened(key: Seq<u8>, nonce: Seq<u8>, ct: Seq<u8>) -> Option<Seq<u8>> {
    if exists|m: Seq<u8>| within_limit(m) && #[trigger] sealed_of(key, nonce, m) == ct {
        Some(choose|m: Seq<u8>| within_limit(m) && #[trigger] sealed_of(key, nonce, m) == ct)
    } else {
        None
    }
}

/// What opened bytes read as: their text where they are valid UTF-8, else the
/// text with each invalid sequence replaced.
pub open spec fn text_of(b: Seq<u8>) -> Seq<char> {
    if valid_utf8(b) {
        decode_utf8(b)
    } else {
        lossy_text_of(b)
    }
}

/// Relies on `Aead::encrypt` of ChaCha20Poly1305: it fails only when the
/// message reaches `u32::MAX` blocks of 64 bytes; otherwise it gives the
/// ciphertext, as long as the message, followed by a 16-byte tag. The
/// keystream is XORed onto the message, so the ciphertext determines the
/// message under a given key and nonce.
#[verifier::external_body]
pub(crate) fn aead_encrypt(key: &[u8; 32], nonce: &[u8; 12], msg: &[u8]) -> (r: Option<Vec<u8>>)
    ensures
        r is Some <==> within_limit(msg@),
        r matches Some(c) ==> c@ == sealed_of(key@, nonce@, msg@),
        r matches Some(c) ==> c@.len() == msg@.len() + TAG_LEN,
        r matches Some(c) ==> forall|m: Seq<u8>|
            #[trigger] sealed_of(key@, nonce@, m) == c@ ==> m == msg@,
{
    ChaCha20Poly1305::new(Key::from_slice(key)).encrypt(Nonce::from_slice(nonce), msg).ok()
}

/// Relies on `Aead::decrypt` of ChaCha20Poly1305: it succeeds exactly when the
/// tag verifies, that is on what `encrypt` gives for some message within the
/// block limit, and then returns that message.
#[verifier::external_body]
pub(crate) fn aead_decrypt(key: &[u8; 32], nonce: &[u8], ct: &[u8]) -> (r: Option<Vec<u8>>)
    requires
        nonce@.len() == 12,
    ensures
        r matches Some(v) ==> within_limit(v@) && sealed_of(key@, nonce@, v@) == ct@,
        r matches Some(v) ==> forall|m: Seq<u8>|
            within_limit(m) && #[trigger] sealed_of(key@, nonce@, m) == ct@ ==> m == v@,
        r is None ==> forall|m: Seq<u8>|
            within_limit(m) ==> #[trigger] sealed_of(key@, nonce@, m) != ct@,
{
    ChaCha20Poly1305::new(Key::from_slice(key)).decrypt(Nonce::from_slice(nonce), ct).ok()
}

/// Relies on `OsRng::try_fill_bytes` of rand: twelve bytes from the operating
/// system's secure source, or nothing when that source fails.
#[verifier::external_body]
pub(crate) fn random_nonce() -> (r: Option<[u8; 12]>) {
    let mut n = [0u8; 12];
    rand::rngs::OsRng.try_fill_bytes(&mut n).ok().map(|_| n)
}

/// Relies on `String::from_utf8_lossy`: valid UTF-8 reads as its own text,
/// and anything else as the text with replacement characters.
#[verifier::external_body]
pub(crate) fn lossy_text(b: &[u8]) -> (r: String)
    ensures
        valid_utf8(b@) ==> r@ == decode_utf8(b@),
        !valid_utf8(b@) ==> r@ == lossy_text_of(b@),
{
    String::from_utf8_lossy(b).to_string()
}

/// Opening gives back exactly what the cipher sealed, once a sealing has
/// shown that its ciphertext determines the message.
pub proof fn lemma_opened_sealed(key: Seq<u8>, nonce: Seq<u8>, msg: Seq<u8>)
    requires
        within_limit(msg),
        forall|m: Seq<u8>| #[trigger] sealed_of(key, nonce, m) == sealed_of(key, nonce, msg) ==> m == msg,
    ensures
        opened(key, nonce, sealed_of(key, nonce, msg)) == Some(msg),
{
    let ct = sealed_of(key, nonce, msg);
    assert(within_limit(msg) && sealed_of(key, nonce, msg) == ct);
}

} // verus!
