//! The gateway: one fixed 256-bit key, sealing text into envelopes and
//! opening envelopes back into bytes or text.

use crate::aead::{
    aead_decrypt, aead_encrypt, lemma_opened_sealed, lossy_text, opened, random_nonce, sealed_of, text_of,
    within_limit,
};
use crate::hex_text::{hex_decode, hex_decoding, hex_encode, hex_encoding, is_hex, lemma_hex_round_trip};
use vstd::array::array_as_slice;
use vstd::prelude::*;
use vstd::string::StringSliceAdditionalSpecFns;

verus! {

broadcast use vstd::utf8::group_utf8_lib;

/// Why an envelope could not be opened or made.
#[derive(Clone, Copy, Debug, PartialEq, Eq, Structural)]
pub enum VaultError {
    /// The gateway no longer opens envelopes.
    AccessDenied,
    /// The nonce or payload is not hexadecimal, or the nonce is not 12 bytes.
    InvalidEncoding,
    /// The tag did not verify: wrong key, altered or truncated data.
    AuthenticationFailed,
    /// The cipher or the random source failed while sealing.
    InternalFailure,
}

/// A sealed message: ciphertext with its tag and the nonce, both in lowercase
/// hexadecimal, and the tag of the scheme.
#[derive(Clone, Debug)]
pub struct Envelope {
    pub payload: String,
    pub nonce: String,
    pub mode: String,
}

/// The scheme tag that every envelope carries.
pub open spec fn mode_tag() -> Seq<char> {
    "GHOST_ENCRYPTED"@
}

/// The gateway: a key fixed for its lifetime, and whether it still opens
/// envelopes. Revoking access stops opening, never sealing.
pub struct VaultSentinel {
    /// Set while the gateway opens envelopes; `revoke_access` clears it.
    integrity_locked: bool,
    key: [u8; 32],
}

impl VaultSentinel {
    /// The key this gateway seals and opens with.
    pub closed spec fn key_view(&self) -> Seq<u8> {
        self.key@
    }

    /// Whether this gateway still opens envelopes.
    pub closed spec fn is_open(&self) -> bool {
        self.integrity_locked
    }

    /// What opening hexadecimal `payload` and `nonce` gives. Checks come in
    /// this order: access, then the nonce's digits and length, then the
    /// payload's digits, and last the tag.
    pub open spec fn open_outcome(&self, payload: Seq<char>, nonce: Seq<char>) -> Result<Seq<u8>, VaultError> {
        if !self.is_open() {
            Err(VaultError::AccessDenied)
        } else if !is_hex(nonce) || hex_decoding(nonce).len() != 12 {
            Err(VaultError::InvalidEncoding)
        } else if !is_hex(payload) {
            Err(VaultError::InvalidEncoding)
        } else {
            match opened(self.key_view(), hex_decoding(nonce), hex_decoding(payload)) {
                Some(m) => Ok(m),
                None => Err(VaultError::AuthenticationFailed),
            }
        }
    }

    /// `open_outcome`, with the opened bytes read as text.
    pub open spec fn open_text_outcome(&self, payload: Seq<char>, nonce: Seq<char>) -> Result<Seq<char>, VaultError> {
        match self.open_outcome(payload, nonce) {
            Ok(m) => Ok(text_of(m)),
            Err(e) => Err(e),
        }
    }

    /// Whether `e` is the envelope of `msg` sealed under this gateway's key
    /// with `nonce`.
    pub open spec fn is_envelope_of(&self, e: Envelope, nonce: Seq<u8>, msg: Seq<u8>) -> bool {
        &&& nonce.len() == 12
        &&& e.payload@ == hex_encoding(sealed_of(self.key_view(), nonce, msg))
        &&& e.nonce@ == hex_encoding(nonce)
        &&& e.mode@ == mode_tag()
    }

    /// A gateway that opens envelopes, bound to the key shared with the
    /// counterpart system (the ASCII text `NAJIBDEV_SUPER_SECRET_KEY_v99_XY`).
    pub fn new() -> (r: VaultSentinel)
        ensures
            r.is_open(),
            r.key_view() == seq![
                78u8, 65, 74, 73, 66, 68, 69, 86, 95, 83, 85, 80, 69, 82, 95, 83,
                69, 67, 82, 69, 84, 95, 75, 69, 89, 95, 118, 57, 57, 95, 88, 89,
            ],
    {
        let key: [u8; 32] = [
            78u8, 65, 74, 73, 66, 68, 69, 86, 95, 83, 85, 80, 69, 82, 95, 83,
            69, 67, 82, 69, 84, 95, 75, 69, 89, 95, 118, 57, 57, 95, 88, 89,
        ];
        let r = VaultSentinel { integrity_locked: true, key };
        assert(r.key_view() =~= seq![
            78u8, 65, 74, 73, 66, 68, 69, 86, 95, 83, 85, 80, 69, 82, 95, 83,
            69, 67, 82, 69, 84, 95, 75, 69, 89, 95, 118, 57, 57, 95, 88, 89,
        ]);
        r
    }
    /// A gateway that opens envelopes, bound to a key supplied by the caller.
    pub fn with_key(key: [u8; 32]) -> (r: VaultSentinel)
        ensures
            r.is_open(),
            r.key_view() == key@,
    {
        VaultSentinel { integrity_locked: true, key }
    }

    /// Stops this gateway from opening envelopes; it keeps its key and still
    /// seals.
    pub fn revoke_access(&mut self)
        ensures
            !final(self).is_open(),
            final(self).key_view() == old(self).key_view(),
    {
        self.integrity_locked = false;
    }

    /// Opens an envelope given as hexadecimal payload and nonce, into the
    /// exact bytes that were sealed.
    pub fn unlock_bytes(&self, encrypted_hex: &str, nonce_hex: &str) -> (r: Result<Vec<u8>, VaultError>)
        ensures
            r matches Ok(m) ==> self.open_outcome(encrypted_hex@, nonce_hex@) == Ok::<Seq<u8>, VaultError>(m@),
            r matches Err(e) ==> self.open_outcome(encrypted_hex@, nonce_hex@) == Err::<Seq<u8>, VaultError>(e),
    {
        if !self.integrity_locked {
            return Err(VaultError::AccessDenied);
        }
        let nonce_bytes = match hex_decode(nonce_hex) {
            Some(v) => v,
            None => return Err(VaultError::InvalidEncoding),
        };
        if nonce_bytes.len() != 12 {
            return Err(VaultError::InvalidEncoding);
        }
        let ciphertext = match hex_decode(encrypted_hex) {
            Some(v) => v,
            None => return Err(VaultError::InvalidEncoding),
        };
        let opened_bytes = aead_decrypt(&self.key, nonce_bytes.as_slice(), ciphertext.as_slice());
        proof {
            let k = self.key_view();
            let n = hex_decoding(nonce_hex@);
            let c = hex_decoding(encrypted_hex@);
            if opened_bytes is Some {
                let m = opened_bytes->0@;
                assert(within_limit(m) && sealed_of(k, n, m) == c);
            }
        }
        match opened_bytes {
            Some(m) => Ok(m),
            None => Err(VaultError::AuthenticationFailed),
        }
    }

    /// Opens an envelope given as hexadecimal payload and nonce, into text;
    /// bytes that are not valid UTF-8 have each invalid sequence replaced.
    pub fn unlock_data(&self, encrypted_hex: &str, nonce_hex: &str) -> (r: Result<String, VaultError>)
        ensures
            r matches Ok(t) ==> self.open_text_outcome(encrypted_hex@, nonce_hex@) == Ok::<Seq<char>, VaultError>(t@),
            r matches Err(e) ==> self.open_text_outcome(encrypted_hex@, nonce_hex@) == Err::<Seq<char>, VaultError>(e),
    {
        match self.unlock_bytes(encrypted_hex, nonce_hex) {
            Ok(m) => Ok(lossy_text(m.as_slice())),
            Err(e) => Err(e),
        }
    }
    /// Seals `text` with the given nonce. The nonce must never have been used
    /// with this key before: `seal_packet` draws a fresh one.
    pub fn seal_with_nonce(&self, text: &str, nonce: &[u8; 12]) -> (r: Result<Envelope, VaultError>)
        ensures
            r is Ok <==> within_limit(text.spec_bytes()),
            r matches Ok(e) ==> self.is_envelope_of(e, nonce@, text.spec_bytes()),
            r matches Ok(e) ==> (self.is_open() ==> self.open_text_outcome(e.payload@, e.nonce@)
                == Ok::<Seq<char>, VaultError>(text@)),
            r matches Err(e) ==> e == VaultError::InternalFailure,
    {
        let msg = text.as_bytes();
        match aead_encrypt(&self.key, nonce, msg) {
            Some(ciphertext) => {
                let payload = hex_encode(ciphertext.as_slice());
                let nonce_hex = hex_encode(array_as_slice(nonce));
                let mode = "GHOST_ENCRYPTED".to_owned();
                let e = Envelope { payload, nonce: nonce_hex, mode };
                proof {
                    reveal_strlit("GHOST_ENCRYPTED");
                    lemma_hex_round_trip(ciphertext@);
                    lemma_hex_round_trip(nonce@);
                    lemma_opened_sealed(self.key_view(), nonce@, msg@);
                }
                Ok(e)
            },
            None => Err(VaultError::InternalFailure),
        }
    }

    /// Seals `text` under a fresh random nonce. It fails only when the random
    /// source fails or the text is too long for the cipher.
    pub fn seal_packet(&self, text: &str) -> (r: Result<Envelope, VaultError>)
        ensures
            r matches Ok(e) ==> exists|n: Seq<u8>| self.is_envelope_of(e, n, text.spec_bytes()),
            r matches Ok(e) ==> (self.is_open() ==> self.open_text_outcome(e.payload@, e.nonce@)
                == Ok::<Seq<char>, VaultError>(text@)),
            r matches Err(e) ==> e == VaultError::InternalFailure,
            !within_limit(text.spec_bytes()) ==> r is Err,
    {
        match random_nonce() {
            Some(n) => self.seal_with_nonce(text, &n),
            None => Err(VaultError::InternalFailure),
        }
    }
}

/// A nonce that is hexadecimal but does not decode to exactly 12 bytes is
/// refused as an encoding error, whatever the payload, and nothing is
/// decrypted.
pub proof fn lemma_nonce_length_rejected(g: VaultSentinel, payload: Seq<char>, nonce: Seq<char>)
    requires
        g.is_open(),
        is_hex(nonce),
        hex_decoding(nonce).len() != 12,
    ensures
        g.open_outcome(payload, nonce) == Err::<Seq<u8>, VaultError>(VaultError::InvalidEncoding),
{
}

/// A payload or nonce that is not hexadecimal text is refused as an encoding
/// error.
pub proof fn lemma_non_hex_rejected(g: VaultSentinel, payload: Seq<char>, nonce: Seq<char>)
    requires
        g.is_open(),
        !is_hex(payload) || !is_hex(nonce),
    ensures
        g.open_outcome(payload, nonce) == Err::<Seq<u8>, VaultError>(VaultError::InvalidEncoding),
{
}

/// Once the envelope is well formed, the only failure left is an
/// authentication failure: a wrong key and an altered payload fail alike.
pub proof fn lemma_well_formed_fails_only_on_tag(g: VaultSentinel, payload: Seq<char>, nonce: Seq<char>)
    requires
        g.is_open(),
        is_hex(payload),
        is_hex(nonce),
        hex_decoding(nonce).len() == 12,
    ensures
        g.open_outcome(payload, nonce) is Ok || g.open_outcome(payload, nonce) == Err::<Seq<u8>, VaultError>(
            VaultError::AuthenticationFailed,
        ),
{
}

/// An envelope whose decoded payload has been altered never opens to the
/// message that was sealed in it.
pub proof fn lemma_altered_payload_never_gives_message(
    g: VaultSentinel,
    e: Envelope,
    nonce: Seq<u8>,
    msg: Seq<u8>,
    altered: Seq<u8>,
)
    requires
        g.is_envelope_of(e, nonce, msg),
        altered != sealed_of(g.key_view(), nonce, msg),
    ensures
        g.open_outcome(hex_encoding(altered), e.nonce@) != Ok::<Seq<u8>, VaultError>(msg),
{
    lemma_hex_round_trip(altered);
    lemma_hex_round_trip(nonce);
}

} // verus!
