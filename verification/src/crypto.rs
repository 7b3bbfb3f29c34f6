//! Trusted boundary around the cryptographic primitives of the `ring` crate.
//!
//! Each function here is an unverified wrapper whose body only calls into
//! `ring` and converts arguments and results; its contract states what the
//! crate's source and documentation show of the call. Results that depend on
//! the arguments alone but have no short byte-level description (the HKDF
//! stream, the AES-GCM ciphertext) are given names by uninterpreted spec
//! functions, so that verified callers can speak of them exactly.

use vstd::prelude::*;

use ring::rand::SecureRandom;

verus! {

// ring's deliberately opaque error value.
#[verifier::external_type_specification]
#[verifier::external_body]
pub struct ExUnspecified(ring::error::Unspecified);

// An ephemeral elliptic-curve agreement private key; usable exactly once.
#[verifier::external_type_specification]
#[verifier::external_body]
pub struct ExEphemeralPrivateKey(ring::agreement::EphemeralPrivateKey);

/// The 32-byte output of the HKDF-SHA256 extract-then-expand operation for a
/// given extraction key (the HKDF "salt"), input keying material and info
/// string. A pure function of its arguments; shorter outputs of the same
/// derivation are prefixes of this one.
pub uninterp spec fn hkdf_sha256_32(key: Seq<u8>, secret: Seq<u8>, info: Seq<u8>) -> Seq<u8>;

/// The AES-128-GCM sealing of `plaintext` under `key` and `nonce` with empty
/// additional authenticated data: the ciphertext followed by the 16-byte
/// authentication tag. A pure function of its arguments.
pub uninterp spec fn aes_128_gcm_sealed(key: Seq<u8>, nonce: Seq<u8>, plaintext: Seq<u8>) -> Seq<u8>;

/// Relies on `ring::rand::SystemRandom` and `SecureRandom::fill`: on success
/// the buffer is filled with `len` cryptographically secure random bytes.
/// Nothing can be promised of the bytes themselves.
#[verifier::external_body]
pub(crate) fn random_bytes(len: usize) -> (r: Result<Vec<u8>, ring::error::Unspecified>)
    ensures
        r matches Ok(v) ==> v@.len() == len,
{
    let rng = ring::rand::SystemRandom::new();
    let mut bytes = vec![0u8; len];
    rng.fill(&mut bytes)?;
    Ok(bytes)
}

/// Relies on `ring::agreement::EphemeralPrivateKey::generate` and
/// `compute_public_key` with `ECDH_P256`: generates a fresh random P-256 key
/// pair. The public half is the X9.62 uncompressed point, 65 bytes for P-256
/// (`1 + 2 * 32` in ring's curve tables).
#[verifier::external_body]
pub(crate) fn generate_p256_keypair() -> (r: Result<
    (ring::agreement::EphemeralPrivateKey, Vec<u8>),
    ring::error::Unspecified,
>)
    ensures
        r matches Ok(kp) ==> kp.1@.len() == 65,
{
    let rng = ring::rand::SystemRandom::new();
    let private_key =
        ring::agreement::EphemeralPrivateKey::generate(&ring::agreement::ECDH_P256, &rng)?;
    let public_key = private_key.compute_public_key()?;
    Ok((private_key, public_key.as_ref().to_vec()))
}

/// Relies on `ring::agreement::agree_ephemeral` with `ECDH_P256`: on success
/// the result is the raw shared secret, the 32-byte x-coordinate of the
/// shared point (`elem_scalar_seed_len` for P-256). A malformed peer key, a
/// point not on the curve, or a private key of another curve gives the
/// opaque error; the private key is consumed either way.
#[verifier::external_body]
pub(crate) fn p256_agree(
    private_key: ring::agreement::EphemeralPrivateKey,
    peer_public_key: &Vec<u8>,
) -> (r: Result<Vec<u8>, ring::error::Unspecified>)
    ensures
        r matches Ok(v) ==> v@.len() == 32,
{
    let peer =
        ring::agreement::UnparsedPublicKey::new(&ring::agreement::ECDH_P256, peer_public_key.as_slice());
    ring::agreement::agree_ephemeral(private_key, &peer, |secret: &[u8]| secret.to_vec())
}

/// Relies on `ring::hkdf` with `HKDF_SHA256` (`Salt::new`, `Salt::extract`,
/// `Prk::expand`, `Okm::fill`): extract-then-expand to 32 bytes, the output
/// length of SHA-256. The result is a function of the three inputs alone,
/// named by [`hkdf_sha256_32`]. `expand` and `fill` fail only on an output
/// length over the HKDF limit of `255 * 32` bytes, which 32 never is, so
/// this call always succeeds.
#[verifier::external_body]
pub(crate) fn hkdf_sha256_extract_expand_32(
    key: &Vec<u8>,
    secret: &Vec<u8>,
    info: &Vec<u8>,
) -> (r: Result<Vec<u8>, ring::error::Unspecified>)
    ensures
        r is Ok,
        r matches Ok(v) ==> v@ == hkdf_sha256_32(key@, secret@, info@) && v@.len() == 32,
{
    let salt = ring::hkdf::Salt::new(ring::hkdf::HKDF_SHA256, key);
    let prk = salt.extract(secret);
    let info_parts = [info.as_slice()];
    let okm = prk.expand(&info_parts, ring::hkdf::HKDF_SHA256)?;
    let mut out = vec![0u8; 32];
    okm.fill(&mut out)?;
    Ok(out)
}

/// Relies on `ring::aead` with `AES_128_GCM` (`UnboundKey::new`,
/// `LessSafeKey::seal_in_place_append_tag`, empty AAD): authenticates and
/// encrypts `plaintext` in place and appends the 16-byte tag. AES-GCM is
/// deterministic in key, nonce and plaintext; the result is named by
/// [`aes_128_gcm_sealed`]. The call fails only on a key not 16 bytes long,
/// a nonce not 12 bytes long, or an input past AES-GCM's 32-bit
/// block-counter ceiling (about `1 << 36` bytes), so with a 16-byte key, a
/// 12-byte nonce and an input under `1 << 32` bytes it succeeds.
#[verifier::external_body]
pub(crate) fn aes_128_gcm_seal(
    key: &Vec<u8>,
    nonce: &Vec<u8>,
    plaintext: Vec<u8>,
) -> (r: Result<Vec<u8>, ring::error::Unspecified>)
    ensures
        r matches Ok(v) ==> v@ == aes_128_gcm_sealed(key@, nonce@, plaintext@)
            && v@.len() == plaintext@.len() + 16,
        key@.len() == 16 && nonce@.len() == 12 && plaintext@.len() < 0x1_0000_0000 ==> r is Ok,
{
    let unbound = ring::aead::UnboundKey::new(&ring::aead::AES_128_GCM, key)?;
    let sealing_key = ring::aead::LessSafeKey::new(unbound);
    let nonce_value = ring::aead::Nonce::try_assume_unique_for_key(nonce)?;
    let mut buffer = plaintext;
    sealing_key.seal_in_place_append_tag(nonce_value, ring::aead::Aad::empty(), &mut buffer)?;
    Ok(buffer)
}

} // verus!
