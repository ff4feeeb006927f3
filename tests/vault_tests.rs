use chacha20poly1305::aead::{Aead, KeyInit};
use chacha20poly1305::{ChaCha20Poly1305, Key, Nonce};
use std::collections::HashSet;
use vault_guard::vault::{Envelope, VaultError, VaultSentinel};

const SHARED_KEY: &[u8; 32] = b"NAJIBDEV_SUPER_SECRET_KEY_v99_XY";

fn seal(g: &VaultSentinel, text: &str) -> Envelope {
    g.seal_packet(text).expect("sealing succeeds")
}

#[test]
fn round_trip_plain_text() {
    let g = VaultSentinel::new();
    let e = seal(&g, "the quick brown fox");
    assert_eq!(g.unlock_data(&e.payload, &e.nonce), Ok("the quick brown fox".to_string()));
}

#[test]
fn round_trip_empty_text() {
    let g = VaultSentinel::new();
    let e = seal(&g, "");
    assert_eq!(e.payload.len(), 32);
    assert_eq!(g.unlock_data(&e.payload, &e.nonce), Ok(String::new()));
    assert_eq!(g.unlock_bytes(&e.payload, &e.nonce), Ok(Vec::new()));
}

#[test]
fn round_trip_multibyte_text() {
    let g = VaultSentinel::new();
    let text = "héllo wörld — 日本語 🔐";
    let e = seal(&g, text);
    assert_eq!(g.unlock_data(&e.payload, &e.nonce), Ok(text.to_string()));
    assert_eq!(g.unlock_bytes(&e.payload, &e.nonce), Ok(text.as_bytes().to_vec()));
}

#[test]
fn round_trip_with_injected_key() {
    let g = VaultSentinel::with_key([7u8; 32]);
    let e = seal(&g, "injected");
    assert_eq!(g.unlock_data(&e.payload, &e.nonce), Ok("injected".to_string()));
}

#[test]
fn nonces_are_distinct_over_many_seals() {
    let g = VaultSentinel::new();
    let mut nonces = HashSet::new();
    let mut payloads = HashSet::new();
    for _ in 0..1000 {
        let e = seal(&g, "same text");
        nonces.insert(e.nonce);
        payloads.insert(e.payload);
    }
    assert_eq!(nonces.len(), 1000);
    assert_eq!(payloads.len(), 1000);
}

#[test]
fn every_flipped_payload_bit_fails_authentication() {
    let g = VaultSentinel::new();
    let e = seal(&g, "tamper me");
    let bytes = hex::decode(&e.payload).unwrap();
    for i in 0..bytes.len() {
        for bit in 0..8 {
            let mut altered = bytes.clone();
            altered[i] ^= 1 << bit;
            assert_eq!(
                g.unlock_data(&hex::encode(&altered), &e.nonce),
                Err(VaultError::AuthenticationFailed)
            );
        }
    }
}

#[test]
fn flipped_nonce_bit_fails_authentication() {
    let g = VaultSentinel::new();
    let e = seal(&g, "tamper the nonce");
    let mut nonce = hex::decode(&e.nonce).unwrap();
    nonce[0] ^= 1;
    assert_eq!(
        g.unlock_data(&e.payload, &hex::encode(&nonce)),
        Err(VaultError::AuthenticationFailed)
    );
}

#[test]
fn truncated_payload_fails_authentication() {
    let g = VaultSentinel::new();
    let e = seal(&g, "truncate me");
    assert_eq!(
        g.unlock_data(&e.payload[..e.payload.len() - 2], &e.nonce),
        Err(VaultError::AuthenticationFailed)
    );
    assert_eq!(g.unlock_data("00", &e.nonce), Err(VaultError::AuthenticationFailed));
    assert_eq!(g.unlock_data("", &e.nonce), Err(VaultError::AuthenticationFailed));
}

#[test]
fn nonce_of_eleven_or_thirteen_bytes_is_rejected() {
    let g = VaultSentinel::new();
    let e = seal(&g, "nonce length");
    let eleven = &e.nonce[..22];
    let thirteen = format!("{}ab", e.nonce);
    assert_eq!(g.unlock_data(&e.payload, eleven), Err(VaultError::InvalidEncoding));
    assert_eq!(g.unlock_data(&e.payload, &thirteen), Err(VaultError::InvalidEncoding));
    assert_eq!(g.unlock_bytes(&e.payload, ""), Err(VaultError::InvalidEncoding));
}

#[test]
fn non_hex_payload_or_nonce_is_rejected() {
    let g = VaultSentinel::new();
    let e = seal(&g, "hex only");
    assert_eq!(g.unlock_data("zz", &e.nonce), Err(VaultError::InvalidEncoding));
    assert_eq!(g.unlock_data(&e.payload, "zz"), Err(VaultError::InvalidEncoding));
    let bad_nonce = format!("zz{}", &e.nonce[2..]);
    assert_eq!(g.unlock_data(&e.payload, &bad_nonce), Err(VaultError::InvalidEncoding));
    let odd_payload = format!("{}0", e.payload);
    assert_eq!(g.unlock_data(&odd_payload, &e.nonce), Err(VaultError::InvalidEncoding));
    let non_ascii = format!("é{}", &e.payload[2..]);
    assert_eq!(g.unlock_data(&non_ascii, &e.nonce), Err(VaultError::InvalidEncoding));
}

#[test]
fn uppercase_hex_is_accepted() {
    let g = VaultSentinel::new();
    let e = seal(&g, "case");
    assert_eq!(
        g.unlock_data(&e.payload.to_uppercase(), &e.nonce.to_uppercase()),
        Ok("case".to_string())
    );
}

#[test]
fn wrong_key_fails_like_tampering() {
    let sealer = VaultSentinel::new();
    let other = VaultSentinel::with_key([1u8; 32]);
    let e = seal(&sealer, "for the shared key only");
    let wrong_key = other.unlock_data(&e.payload, &e.nonce);
    assert_eq!(wrong_key, Err(VaultError::AuthenticationFailed));
    let mut bytes = hex::decode(&e.payload).unwrap();
    bytes[0] ^= 0x80;
    let tampered = sealer.unlock_data(&hex::encode(&bytes), &e.nonce);
    assert_eq!(wrong_key, tampered);
}

#[test]
fn hello_scenario() {
    let g = VaultSentinel::new();
    let e = seal(&g, "hello");
    assert_eq!(e.nonce.len(), 24);
    assert_eq!(e.mode, "GHOST_ENCRYPTED");
    assert_eq!(e.payload.len(), 2 * (5 + 16));
    assert!(e.payload.chars().all(|c| c.is_ascii_hexdigit() && !c.is_ascii_uppercase()));
    assert!(e.nonce.chars().all(|c| c.is_ascii_hexdigit() && !c.is_ascii_uppercase()));
    assert_eq!(g.unlock_data(&e.payload, &e.nonce), Ok("hello".to_string()));
}

#[test]
fn sealing_with_a_given_nonce_matches_the_cipher() {
    let g = VaultSentinel::new();
    let nonce: [u8; 12] = [0, 1, 2, 3, 4, 5, 6, 7, 8, 9, 10, 11];
    let e = g.seal_with_nonce("hello", &nonce).unwrap();
    assert_eq!(e.nonce, "000102030405060708090a0b");
    let cipher = ChaCha20Poly1305::new(Key::from_slice(SHARED_KEY));
    let expected = cipher.encrypt(Nonce::from_slice(&nonce), "hello".as_bytes()).unwrap();
    assert_eq!(e.payload, hex::encode(expected));
    assert_ne!(e.payload, hex::encode("hello"));
    let again = g.seal_with_nonce("hello", &nonce).unwrap();
    assert_eq!(again.payload, e.payload);
}

#[test]
fn opens_what_the_counterpart_sealed() {
    let g = VaultSentinel::new();
    let cipher = ChaCha20Poly1305::new(Key::from_slice(SHARED_KEY));
    let nonce = [9u8; 12];
    let ct = cipher.encrypt(Nonce::from_slice(&nonce), "from python".as_bytes()).unwrap();
    assert_eq!(
        g.unlock_data(&hex::encode(&ct), &hex::encode(nonce)),
        Ok("from python".to_string())
    );
}

#[test]
fn invalid_utf8_reads_lossily_and_raw_bytes_are_exact() {
    let g = VaultSentinel::new();
    let cipher = ChaCha20Poly1305::new(Key::from_slice(SHARED_KEY));
    let nonce = [3u8; 12];
    let raw = [b'o', b'k', 0xff, b'!'];
    let ct = cipher.encrypt(Nonce::from_slice(&nonce), &raw[..]).unwrap();
    let payload = hex::encode(&ct);
    let nonce_hex = hex::encode(nonce);
    assert_eq!(g.unlock_data(&payload, &nonce_hex), Ok("ok\u{FFFD}!".to_string()));
    assert_eq!(g.unlock_bytes(&payload, &nonce_hex), Ok(raw.to_vec()));
}

#[test]
fn revoked_gateway_denies_opening_but_still_seals() {
    let mut g = VaultSentinel::new();
    let e = seal(&g, "before");
    g.revoke_access();
    assert_eq!(g.unlock_data(&e.payload, &e.nonce), Err(VaultError::AccessDenied));
    assert_eq!(g.unlock_bytes("zz", "zz"), Err(VaultError::AccessDenied));
    let later = seal(&g, "after");
    assert_eq!(VaultSentinel::new().unlock_data(&later.payload, &later.nonce), Ok("after".to_string()));
}
