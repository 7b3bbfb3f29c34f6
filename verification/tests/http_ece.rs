use web_push::error::WebPushError;
use web_push::http_ece::{
    auth_info_bytes, build_key_context, cek_info_prefix_bytes, front_pad, nonce_info_prefix_bytes,
    ContentCoding, HttpEce,
};
use web_push::message::WebPushPayload;

struct OutLen(usize);

impl ring::hkdf::KeyType for OutLen {
    fn len(&self) -> usize {
        self.0
    }
}

/// HKDF-SHA256 extract-then-expand, as a compliant recipient would run it.
fn hkdf(key: &[u8], secret: &[u8], info: &[u8], len: usize) -> Vec<u8> {
    let salt = ring::hkdf::Salt::new(ring::hkdf::HKDF_SHA256, key);
    let prk = salt.extract(secret);
    let parts = [info];
    let okm = prk.expand(&parts, OutLen(len)).unwrap();
    let mut out = vec![0u8; len];
    okm.fill(&mut out).unwrap();
    out
}

/// A fresh recipient: the private half stays with the test, the public half
/// and a fixed authentication secret go to the encryptor.
fn recipient() -> (ring::agreement::EphemeralPrivateKey, Vec<u8>, Vec<u8>) {
    let rng = ring::rand::SystemRandom::new();
    let private_key =
        ring::agreement::EphemeralPrivateKey::generate(&ring::agreement::ECDH_P256, &rng).unwrap();
    let public_key = private_key.compute_public_key().unwrap().as_ref().to_vec();
    let auth_secret: Vec<u8> = (1u8..=16).collect();
    (private_key, public_key, auth_secret)
}

/// Decrypt a payload exactly as a compliant "aesgcm" recipient would,
/// using ring directly, and strip the front padding.
fn decrypt(
    recipient_private: ring::agreement::EphemeralPrivateKey,
    recipient_public: &[u8],
    auth_secret: &[u8],
    payload: &WebPushPayload,
) -> Vec<u8> {
    let sender = ring::agreement::UnparsedPublicKey::new(
        &ring::agreement::ECDH_P256,
        payload.public_key.as_slice(),
    );
    let shared_secret =
        ring::agreement::agree_ephemeral(recipient_private, &sender, |s| s.to_vec()).unwrap();

    let ikm = hkdf(auth_secret, &shared_secret, b"Content-Encoding: auth\0", 32);

    let mut context = b"P-256\0".to_vec();
    context.push((recipient_public.len() >> 8) as u8);
    context.push((recipient_public.len() & 0xff) as u8);
    context.extend_from_slice(recipient_public);
    context.push((payload.public_key.len() >> 8) as u8);
    context.push((payload.public_key.len() & 0xff) as u8);
    context.extend_from_slice(&payload.public_key);

    let mut cek_info = b"Content-Encoding: aesgcm\0".to_vec();
    cek_info.extend_from_slice(&context);
    let cek = hkdf(&payload.salt, &ikm, &cek_info, 16);

    let mut nonce_info = b"Content-Encoding: nonce\0".to_vec();
    nonce_info.extend_from_slice(&context);
    let nonce = hkdf(&payload.salt, &ikm, &nonce_info, 12);

    let key = ring::aead::LessSafeKey::new(
        ring::aead::UnboundKey::new(&ring::aead::AES_128_GCM, &cek).unwrap(),
    );
    let nonce_value = ring::aead::Nonce::try_assume_unique_for_key(&nonce).unwrap();
    let mut buffer = payload.content.clone();
    let plain = key
        .open_in_place(nonce_value, ring::aead::Aad::empty(), &mut buffer)
        .unwrap();

    assert_eq!(plain.len(), 3802);
    let padding_size = ((plain[0] as usize) << 8) | plain[1] as usize;
    for i in 2..2 + padding_size {
        assert_eq!(plain[i], 0, "padding byte {} is not zero", i);
    }
    plain[2 + padding_size..].to_vec()
}

#[test]
fn output_lengths_are_constant() {
    let (_private, public, auth) = recipient();
    for n in [0usize, 1, 5, 3800] {
        let ece = HttpEce::new(ContentCoding::AesGcm, public.clone(), auth.clone()).unwrap();
        let content = vec![42u8; n];
        let payload = ece.encrypt(&content).unwrap();
        assert_eq!(payload.content.len(), 3818);
        assert_eq!(payload.public_key.len(), 65);
        assert_eq!(payload.salt.len(), 16);
    }
}

#[test]
fn content_too_long() {
    let (_private, public, auth) = recipient();
    let ece = HttpEce::new(ContentCoding::AesGcm, public, auth).unwrap();
    let content = vec![0u8; 3801];
    assert_eq!(ece.encrypt(&content).unwrap_err(), WebPushError::ContentTooLong);
}

#[test]
fn content_too_long_wins_over_unimplemented_coding() {
    let (_private, public, auth) = recipient();
    let ece = HttpEce::new(ContentCoding::Aes128Gcm, public, auth).unwrap();
    let content = vec![0u8; 3801];
    assert_eq!(ece.encrypt(&content).unwrap_err(), WebPushError::ContentTooLong);
}

#[test]
fn unimplemented_coding_is_refused() {
    let (_private, public, auth) = recipient();
    let ece = HttpEce::new(ContentCoding::Aes128Gcm, public, auth).unwrap();
    let content = b"hello".to_vec();
    assert_eq!(ece.encrypt(&content).unwrap_err(), WebPushError::NotImplemented);
}

#[test]
fn round_trip() {
    let (private, public, auth) = recipient();
    let ece = HttpEce::new(ContentCoding::AesGcm, public.clone(), auth.clone()).unwrap();
    let content = b"mary had a little vax".to_vec();
    let payload = ece.encrypt(&content).unwrap();
    let recovered = decrypt(private, &public, &auth, &payload);
    assert_eq!(recovered, content);
}

#[test]
fn round_trip_empty_plaintext() {
    let (private, public, auth) = recipient();
    let ece = HttpEce::new(ContentCoding::AesGcm, public.clone(), auth.clone()).unwrap();
    let content = Vec::new();
    let payload = ece.encrypt(&content).unwrap();
    let recovered = decrypt(private, &public, &auth, &payload);
    assert_eq!(recovered, content);
}

#[test]
fn round_trip_largest_plaintext() {
    let (private, public, auth) = recipient();
    let ece = HttpEce::new(ContentCoding::AesGcm, public.clone(), auth.clone()).unwrap();
    let content = vec![7u8; 3800];
    let payload = ece.encrypt(&content).unwrap();
    let recovered = decrypt(private, &public, &auth, &payload);
    assert_eq!(recovered, content);
}

#[test]
fn repeated_encryption_differs() {
    let (_private, public, auth) = recipient();
    let ece = HttpEce::new(ContentCoding::AesGcm, public, auth).unwrap();
    let content = b"same plaintext".to_vec();
    let first = ece.encrypt(&content).unwrap();
    let second = ece.encrypt(&content).unwrap();
    assert_ne!(first.content, second.content);
    assert_ne!(first.salt, second.salt);
    assert_ne!(first.public_key, second.public_key);
}

#[test]
fn ciphertext_is_not_the_framed_plaintext() {
    let (_private, public, auth) = recipient();
    let ece = HttpEce::new(ContentCoding::AesGcm, public, auth).unwrap();
    let content = b"hello".to_vec();
    let payload = ece.encrypt(&content).unwrap();
    let mut framed = vec![0u8; 3818];
    front_pad(&content, &mut framed);
    assert_ne!(payload.content[..3802], framed[..3802]);
}

#[test]
fn front_pad_hello() {
    let content = b"hello".to_vec();
    let mut buffer = vec![0u8; 3818];
    front_pad(&content, &mut buffer);
    // 3800 - 5 = 3795 = 0x0ed3 padding bytes.
    assert_eq!(buffer[0], 0x0e);
    assert_eq!(buffer[1], 0xd3);
    for i in 2..3797 {
        assert_eq!(buffer[i], 0);
    }
    assert_eq!(&buffer[3797..3802], b"hello");
    for i in 3802..3818 {
        assert_eq!(buffer[i], 0);
    }
}

#[test]
fn info_strings_are_byte_exact() {
    assert_eq!(auth_info_bytes(), b"Content-Encoding: auth\0".to_vec());
    assert_eq!(cek_info_prefix_bytes(), b"Content-Encoding: aesgcm\0".to_vec());
    assert_eq!(nonce_info_prefix_bytes(), b"Content-Encoding: nonce\0".to_vec());
}

#[test]
fn key_context_is_byte_exact() {
    let recipient_key = vec![4u8, 1, 2];
    let ephemeral_key = vec![4u8, 9];
    let context = build_key_context(&recipient_key, &ephemeral_key);
    let expected = [
        b"P-256\0".as_slice(),
        &[0u8, 3, 4, 1, 2],
        &[0u8, 2, 4, 9],
    ]
    .concat();
    assert_eq!(context, expected);
}

#[test]
fn invalid_recipient_key_wrong_length() {
    let (_private, _public, auth) = recipient();
    let ece = HttpEce::new(ContentCoding::AesGcm, vec![4u8; 10], auth).unwrap();
    let content = b"hello".to_vec();
    assert_eq!(ece.encrypt(&content).unwrap_err(), WebPushError::CryptoUnspecified);
}

#[test]
fn invalid_recipient_key_not_on_curve() {
    let (_private, _public, auth) = recipient();
    // An uncompressed point claiming x = y = 1, which does not lie on P-256.
    let mut bogus = vec![1u8; 65];
    bogus[0] = 4;
    let ece = HttpEce::new(ContentCoding::AesGcm, bogus, auth).unwrap();
    let content = b"hello".to_vec();
    assert_eq!(ece.encrypt(&content).unwrap_err(), WebPushError::CryptoUnspecified);
}

#[test]
fn hkdf_short_outputs_are_prefixes() {
    // The derivation truncates a single 32-byte expansion; a compliant
    // recipient runs HKDF with the exact output length. These agree.
    let key = b"0123456789abcdef";
    let secret = b"a shared secret";
    let info = b"Content-Encoding: aesgcm\0context";
    let full = hkdf(key, secret, info, 32);
    let sixteen = hkdf(key, secret, info, 16);
    let twelve = hkdf(key, secret, info, 12);
    assert_eq!(&full[..16], sixteen.as_slice());
    assert_eq!(&full[..12], twelve.as_slice());
}
