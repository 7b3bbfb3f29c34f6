//! The "aesgcm" HTTP Encrypted Content Encoding pipeline: key exchange, key
//! derivation, fixed-length padding framing, and AEAD sealing.

use vstd::prelude::*;

use crate::crypto::{
    aes_128_gcm_seal, aes_128_gcm_sealed, generate_p256_keypair, hkdf_sha256_32,
    hkdf_sha256_extract_expand_32, p256_agree, random_bytes,
};
use crate::error::WebPushError;
use crate::message::WebPushPayload;

verus! {

/// Protocol ceiling on the plaintext length, in bytes.
pub const MAX_PAYLOAD_LEN: usize = 3800;

/// Length of the big-endian padding-length prefix of the framed buffer.
pub const PAD_HEADER_LEN: usize = 2;

/// Length of the AES-GCM authentication tag.
pub const TAG_LEN: usize = 16;

/// Length of the random salt the keys are derived with.
pub const SALT_LEN: usize = 16;

/// Length of an uncompressed P-256 public key.
pub const PUBLIC_KEY_LEN: usize = 65;

/// Length of the P-256 shared secret (the x-coordinate).
pub const SHARED_SECRET_LEN: usize = 32;

/// Length of the content-encryption key (AES-128).
pub const CEK_LEN: usize = 16;

/// Length of the AES-GCM nonce.
pub const NONCE_LEN: usize = 12;

/// Length of the framed buffer, and so of the sealed output.
pub const FRAMED_LEN: usize = PAD_HEADER_LEN + MAX_PAYLOAD_LEN + TAG_LEN;

/// Length of the part of the framed buffer that is actually sealed: the
/// padding-length prefix and the payload region, without the tag region.
pub const SEALED_REGION_LEN: usize = PAD_HEADER_LEN + MAX_PAYLOAD_LEN;

/// The content codings of HTTP Encrypted Content Encoding. Only [`AesGcm`]
/// (the legacy "aesgcm" coding) is implemented; requesting [`Aes128Gcm`]
/// fails with [`WebPushError::NotImplemented`], never falls back silently.
///
/// [`AesGcm`]: ContentCoding::AesGcm
/// [`Aes128Gcm`]: ContentCoding::Aes128Gcm
#[derive(Clone, Copy, Debug, PartialEq, Eq, Structural)]
pub enum ContentCoding {
    AesGcm,
    Aes128Gcm,
}

/// The two-byte big-endian encoding of `n`, for `n < 65536`.
pub open spec fn be16(n: int) -> Seq<u8> {
    seq![(n / 256) as u8, (n % 256) as u8]
}

/// `n` zero bytes.
pub open spec fn zeros(n: nat) -> Seq<u8> {
    Seq::new(n, |i: int| 0u8)
}

/// How many padding bytes the framed buffer holds: the payload region of the
/// output buffer, less the payload itself.
pub open spec fn spec_padding_size(payload_len: int, output_len: int) -> int {
    output_len - PAD_HEADER_LEN - TAG_LEN - payload_len
}

/// What `front_pad` does to the buffer: the first two bytes become the
/// big-endian padding length, the payload lands right after the padding
/// region, and everything else (the padding itself and the reserved tag
/// region) keeps the bytes the buffer already held.
pub open spec fn front_padded(payload: Seq<u8>, before: Seq<u8>, after: Seq<u8>) -> bool {
    let ps = spec_padding_size(payload.len() as int, before.len() as int);
    &&& after.len() == before.len()
    &&& after[0] == (ps / 256) as u8
    &&& after[1] == (ps % 256) as u8
    &&& forall|i: int| #![trigger after[i]]
        PAD_HEADER_LEN <= i < PAD_HEADER_LEN + ps ==> after[i] == before[i]
    &&& forall|i: int| #![trigger after[i]]
        PAD_HEADER_LEN + ps <= i < PAD_HEADER_LEN + ps + payload.len() ==> after[i] == payload[i
            - PAD_HEADER_LEN - ps]
    &&& forall|i: int| #![trigger after[i]]
        PAD_HEADER_LEN + ps + payload.len() <= i < after.len() ==> after[i] == before[i]
}

/// The sealed region of the framed buffer for a given plaintext, when the
/// buffer started out all zero: the big-endian padding length, the padding
/// zeros, then the plaintext.
pub open spec fn framed_plain(content: Seq<u8>) -> Seq<u8> {
    let ps = MAX_PAYLOAD_LEN - content.len();
    be16(ps) + zeros(ps as nat) + content
}

/// The bytes of `"Content-Encoding: "`, the shared prefix of the three HKDF
/// info strings.
pub open spec fn content_encoding_label() -> Seq<u8> {
    // 'C'  'o'  'n'  't'  'e'  'n'  't'  '-' 'E'  'n'  'c' 'o'  'd'  'i'  'n'  'g'  ':' ' '
    seq![
        67u8, 111u8, 110u8, 116u8, 101u8, 110u8, 116u8, 45u8, 69u8, 110u8, 99u8, 111u8,
        100u8, 105u8, 110u8, 103u8, 58u8, 32u8,
    ]
}

/// Info string of the first derivation: `"Content-Encoding: auth"` followed
/// by a NUL byte.
pub open spec fn auth_info() -> Seq<u8> {
    // 'a' 'u' 't' 'h' NUL
    content_encoding_label() + seq![97u8, 117u8, 116u8, 104u8, 0u8]
}

/// Prefix of the encryption-key info string: `"Content-Encoding: aesgcm"`
/// followed by a NUL byte; the key context comes after it.
pub open spec fn cek_info_prefix() -> Seq<u8> {
    // 'a' 'e' 's' 'g' 'c' 'm' NUL
    content_encoding_label() + seq![97u8, 101u8, 115u8, 103u8, 99u8, 109u8, 0u8]
}

/// Prefix of the nonce info string: `"Content-Encoding: nonce"` followed by
/// a NUL byte; the key context comes after it.
pub open spec fn nonce_info_prefix() -> Seq<u8> {
    // 'n' 'o' 'n' 'c' 'e' NUL
    content_encoding_label() + seq![110u8, 111u8, 110u8, 99u8, 101u8, 0u8]
}

/// Curve label of the key context: `"P-256"` followed by a NUL byte.
pub open spec fn p256_label() -> Seq<u8> {
    // 'P' '-' '2' '5' '6' NUL
    seq![80u8, 45u8, 50u8, 53u8, 54u8, 0u8]
}

/// The shared key-derivation context: the curve label, then each public key
/// prefixed by its two-byte big-endian length.
pub open spec fn key_context(recipient_public_key: Seq<u8>, ephemeral_public_key: Seq<u8>) -> Seq<u8> {
    p256_label() + be16(recipient_public_key.len() as int) + recipient_public_key
        + be16(ephemeral_public_key.len() as int) + ephemeral_public_key
}

/// The intermediate keying material: HKDF keyed by the authentication
/// secret, applied to the shared secret under the auth info string.
pub open spec fn derived_ikm(auth_secret: Seq<u8>, shared_secret: Seq<u8>) -> Seq<u8> {
    hkdf_sha256_32(auth_secret, shared_secret, auth_info())
}

/// The 16-byte content-encryption key: HKDF keyed by the salt, applied to
/// the intermediate keying material under the encryption-key info string.
pub open spec fn derived_cek(salt: Seq<u8>, ikm: Seq<u8>, context: Seq<u8>) -> Seq<u8> {
    hkdf_sha256_32(salt, ikm, cek_info_prefix() + context).subrange(0, CEK_LEN as int)
}

/// The 12-byte nonce: HKDF keyed by the salt, applied to the intermediate
/// keying material under the nonce info string.
pub open spec fn derived_nonce(salt: Seq<u8>, ikm: Seq<u8>, context: Seq<u8>) -> Seq<u8> {
    hkdf_sha256_32(salt, ikm, nonce_info_prefix() + context).subrange(0, NONCE_LEN as int)
}

/// The whole pipeline for one plaintext: the framed buffer, sealed under the
/// key and nonce derived from the shared secret, the authentication secret,
/// the salt and the two public keys.
pub open spec fn sealed_payload(
    content: Seq<u8>,
    recipient_public_key: Seq<u8>,
    auth_secret: Seq<u8>,
    ephemeral_public_key: Seq<u8>,
    salt: Seq<u8>,
    shared_secret: Seq<u8>,
) -> Seq<u8> {
    let ikm = derived_ikm(auth_secret, shared_secret);
    let context = key_context(recipient_public_key, ephemeral_public_key);
    aes_128_gcm_sealed(
        derived_cek(salt, ikm, context),
        derived_nonce(salt, ikm, context),
        framed_plain(content),
    )
}

/// The plaintext recovered from a framed buffer: the two leading bytes give
/// the padding length, and everything after the padding is the content.
pub open spec fn unpadded(framed: Seq<u8>) -> Seq<u8> {
    let ps = (framed[0] as int) * 256 + (framed[1] as int);
    framed.subrange(PAD_HEADER_LEN + ps, framed.len() as int)
}

/// Law: stripping the padding of a framed buffer by its leading two-byte
/// big-endian length recovers the original plaintext byte for byte.
pub proof fn lemma_unpad_framed_plain(content: Seq<u8>)
    requires
        content.len() <= MAX_PAYLOAD_LEN,
    ensures
        unpadded(framed_plain(content)) == content,
{
    let ps = MAX_PAYLOAD_LEN - content.len();
    assert(framed_plain(content)[0] == (ps / 256) as u8);
    assert(framed_plain(content)[1] == (ps % 256) as u8);
    assert((ps / 256) * 256 + ps % 256 == ps);
    assert(unpadded(framed_plain(content)) =~= content);
}

/// A vector of `len` zero bytes.
fn zero_vec(len: usize) -> (r: Vec<u8>)
    ensures
        r@.len() == len,
        forall|i: int| 0 <= i < len ==> r@[i] == 0u8,
{
    let mut v: Vec<u8> = Vec::new();
    let mut i: usize = 0;
    while i < len
        invariant
            i <= len,
            v@.len() == i,
            forall|j: int| 0 <= j < i ==> v@[j] == 0u8,
        decreases len - i,
    {
        v.push(0u8);
        i = i + 1;
    }
    v
}

/// Append every byte of `src` to `dst`.
fn push_all(dst: &mut Vec<u8>, src: &Vec<u8>)
    ensures
        final(dst)@ == old(dst)@ + src@,
{
    let n: usize = src.len();
    let mut i: usize = 0;
    while i < n
        invariant
            i <= n,
            n == src@.len(),
            dst@ == old(dst)@ + src@.subrange(0, i as int),
        decreases n - i,
    {
        let ghost prev = dst@;
        dst.push(src[i]);
        proof {
            assert(old(dst)@ + src@.subrange(0, i + 1 as int) =~= prev.push(src@[i as int]));
        }
        i = i + 1;
    }
    proof {
        assert(src@.subrange(0, n as int) =~= src@);
    }
}

/// The first `n` bytes of `v`, as a fresh vector.
fn prefix_bytes(v: &Vec<u8>, n: usize) -> (r: Vec<u8>)
    requires
        n <= v@.len(),
    ensures
        r@ == v@.subrange(0, n as int),
{
    let mut r: Vec<u8> = Vec::new();
    let mut i: usize = 0;
    while i < n
        invariant
            i <= n,
            n <= v@.len(),
            r@ == v@.subrange(0, i as int),
        decreases n - i,
    {
        let ghost prev = r@;
        r.push(v[i]);
        proof {
            assert(v@.subrange(0, i + 1 as int) =~= prev.push(v@[i as int]));
        }
        i = i + 1;
    }
    r
}

/// Append the bytes of `"Content-Encoding: "` to `v`.
fn push_content_encoding_label(v: &mut Vec<u8>)
    ensures
        final(v)@ == old(v)@ + content_encoding_label(),
{
    v.push(67u8); // 'C'
    v.push(111u8); // 'o'
    v.push(110u8); // 'n'
    v.push(116u8); // 't'
    v.push(101u8); // 'e'
    v.push(110u8); // 'n'
    v.push(116u8); // 't'
    v.push(45u8); // '-'
    v.push(69u8); // 'E'
    v.push(110u8); // 'n'
    v.push(99u8); // 'c'
    v.push(111u8); // 'o'
    v.push(100u8); // 'd'
    v.push(105u8); // 'i'
    v.push(110u8); // 'n'
    v.push(103u8); // 'g'
    v.push(58u8); // ':'
    v.push(32u8); // ' '
    proof {
        assert(v@ =~= old(v)@ + content_encoding_label());
    }
}

/// The info string of the first derivation, byte for byte:
/// `"Content-Encoding: auth"` with its trailing NUL.
pub fn auth_info_bytes() -> (r: Vec<u8>)
    ensures
        r@ == auth_info(),
{
    let mut v: Vec<u8> = Vec::new();
    push_content_encoding_label(&mut v);
    v.push(97u8); // 'a'
    v.push(117u8); // 'u'
    v.push(116u8); // 't'
    v.push(104u8); // 'h'
    v.push(0u8);
    proof {
        assert(v@ =~= auth_info());
    }
    v
}

/// The prefix of the encryption-key info string, byte for byte:
/// `"Content-Encoding: aesgcm"` with its trailing NUL.
pub fn cek_info_prefix_bytes() -> (r: Vec<u8>)
    ensures
        r@ == cek_info_prefix(),
{
    let mut v: Vec<u8> = Vec::new();
    push_content_encoding_label(&mut v);
    v.push(97u8); // 'a'
    v.push(101u8); // 'e'
    v.push(115u8); // 's'
    v.push(103u8); // 'g'
    v.push(99u8); // 'c'
    v.push(109u8); // 'm'
    v.push(0u8);
    proof {
        assert(v@ =~= cek_info_prefix());
    }
    v
}

/// The prefix of the nonce info string, byte for byte:
/// `"Content-Encoding: nonce"` with its trailing NUL.
pub fn nonce_info_prefix_bytes() -> (r: Vec<u8>)
    ensures
        r@ == nonce_info_prefix(),
{
    let mut v: Vec<u8> = Vec::new();
    push_content_encoding_label(&mut v);
    v.push(110u8); // 'n'
    v.push(111u8); // 'o'
    v.push(110u8); // 'n'
    v.push(99u8); // 'c'
    v.push(101u8); // 'e'
    v.push(0u8);
    proof {
        assert(v@ =~= nonce_info_prefix());
    }
    v
}

/// Assemble the shared key-derivation context: `"P-256"` with its NUL, then
/// each public key prefixed by its two-byte big-endian length.
pub fn build_key_context(recipient_public_key: &Vec<u8>, ephemeral_public_key: &Vec<u8>) -> (r: Vec<u8>)
    requires
        recipient_public_key@.len() < 65536,
        ephemeral_public_key@.len() < 65536,
    ensures
        r@ == key_context(recipient_public_key@, ephemeral_public_key@),
{
    let mut v: Vec<u8> = Vec::new();
    v.push(80u8); // 'P'
    v.push(45u8); // '-'
    v.push(50u8); // '2'
    v.push(53u8); // '5'
    v.push(54u8); // '6'
    v.push(0u8);
    let rl: usize = recipient_public_key.len();
    v.push((rl / 256) as u8);
    v.push((rl % 256) as u8);
    push_all(&mut v, recipient_public_key);
    let el: usize = ephemeral_public_key.len();
    v.push((el / 256) as u8);
    v.push((el % 256) as u8);
    push_all(&mut v, ephemeral_public_key);
    proof {
        assert(v@ =~= key_context(recipient_public_key@, ephemeral_public_key@));
    }
    v
}

/// Encode the plaintext into the front-padded fixed-length buffer.
///
/// `output` is the whole framed buffer, tag region included: its first two
/// bytes get the big-endian count of padding bytes, the payload is copied in
/// right after the padding region, and the padding bytes and the trailing
/// `TAG_LEN` bytes are left as they were.
pub fn front_pad(payload: &Vec<u8>, output: &mut Vec<u8>)
    requires
        old(output)@.len() >= PAD_HEADER_LEN + TAG_LEN,
        payload@.len() <= old(output)@.len() - PAD_HEADER_LEN - TAG_LEN,
        spec_padding_size(payload@.len() as int, old(output)@.len() as int) < 65536,
    ensures
        front_padded(payload@, old(output)@, final(output)@),
{
    let payload_len: usize = payload.len();
    let out_len: usize = output.len();
    let max_payload: usize = out_len - PAD_HEADER_LEN - TAG_LEN;
    let padding_size: usize = max_payload - payload_len;

    output.set(0, (padding_size / 256) as u8);
    output.set(1, (padding_size % 256) as u8);

    let mut i: usize = 0;
    while i < payload_len
        invariant
            i <= payload_len,
            payload_len == payload@.len(),
            padding_size == spec_padding_size(payload@.len() as int, old(output)@.len() as int),
            padding_size + PAD_HEADER_LEN + payload_len + TAG_LEN == out_len,
            out_len == output@.len(),
            output@.len() == old(output)@.len(),
            output@[0] == (padding_size / 256) as u8,
            output@[1] == (padding_size % 256) as u8,
            forall|j: int| #![trigger output@[j]]
                PAD_HEADER_LEN <= j < PAD_HEADER_LEN + padding_size ==> output@[j] == old(output)@[j],
            forall|j: int| #![trigger output@[j]]
                PAD_HEADER_LEN + padding_size <= j < PAD_HEADER_LEN + padding_size + i
                    ==> output@[j] == payload@[j - PAD_HEADER_LEN - padding_size],
            forall|j: int| #![trigger output@[j]]
                PAD_HEADER_LEN + padding_size + i <= j < output@.len() ==> output@[j] == old(output)@[j],
        decreases payload_len - i,
    {
        output.set(padding_size + PAD_HEADER_LEN + i, payload[i]);
        i = i + 1;
    }
}

/// Framing a plaintext into an all-zero buffer of the protocol length gives
/// exactly the framed sealed region of that plaintext, followed by the
/// untouched zero tag region.
proof fn lemma_front_pad_zero_buffer(content: Seq<u8>, before: Seq<u8>, after: Seq<u8>)
    requires
        before.len() == FRAMED_LEN,
        forall|i: int| 0 <= i < before.len() ==> before[i] == 0u8,
        content.len() <= MAX_PAYLOAD_LEN,
        front_padded(content, before, after),
    ensures
        after.len() == FRAMED_LEN,
        after.subrange(0, SEALED_REGION_LEN as int) == framed_plain(content),
{
    let ps = spec_padding_size(content.len() as int, before.len() as int);
    assert(ps == MAX_PAYLOAD_LEN - content.len());
    assert(after.subrange(0, SEALED_REGION_LEN as int) =~= framed_plain(content));
}

/// One encryption context: the recipient's public key and authentication
/// secret, and the requested content coding.
pub struct HttpEce {
    peer_public_key: Vec<u8>,
    peer_secret: Vec<u8>,
    coding: ContentCoding,
}

impl HttpEce {
    /// The requested content coding.
    pub closed spec fn spec_coding(&self) -> ContentCoding {
        self.coding
    }

    /// The recipient's public key, as handed to [`HttpEce::new`].
    pub closed spec fn spec_peer_public_key(&self) -> Seq<u8> {
        self.peer_public_key@
    }

    /// The pre-shared authentication secret, as handed to [`HttpEce::new`].
    pub closed spec fn spec_peer_secret(&self) -> Seq<u8> {
        self.peer_secret@
    }

    /// Build an encryption context for one recipient.
    pub fn new(coding: ContentCoding, peer_public_key: Vec<u8>, peer_secret: Vec<u8>) -> (r: Result<
        HttpEce,
        WebPushError,
    >)
        ensures
            r matches Ok(e) && e.spec_coding() == coding
                && e.spec_peer_public_key() == peer_public_key@
                && e.spec_peer_secret() == peer_secret@,
    {
        Ok(HttpEce { peer_public_key, peer_secret, coding })
    }

    /// Encrypt `content` for the recipient.
    ///
    /// On success the result carries the sealed fixed-length buffer, the
    /// fresh ephemeral public key and the fresh random salt. A plaintext
    /// over the ceiling fails with `ContentTooLong` before any key material
    /// is touched; the unimplemented coding fails with `NotImplemented`
    /// before any salt or ephemeral key is generated; failures of the
    /// random source give `RandomnessFailure`, and everything the
    /// cryptographic primitives reject (an invalid recipient key above all)
    /// gives the opaque `CryptoUnspecified`.
    pub fn encrypt(&self, content: &Vec<u8>) -> (r: Result<WebPushPayload, WebPushError>)
        ensures
            content@.len() > MAX_PAYLOAD_LEN <==> r == Err::<WebPushPayload, WebPushError>(
                WebPushError::ContentTooLong,
            ),
            (content@.len() <= MAX_PAYLOAD_LEN && self.spec_coding() == ContentCoding::Aes128Gcm)
                <==> r == Err::<WebPushPayload, WebPushError>(WebPushError::NotImplemented),
            content@.len() <= MAX_PAYLOAD_LEN && self.spec_coding() == ContentCoding::AesGcm
                && self.spec_peer_public_key().len() != PUBLIC_KEY_LEN ==> r == Err::<
                WebPushPayload,
                WebPushError,
            >(WebPushError::CryptoUnspecified),
            r matches Ok(p) ==> {
                &&& content@.len() <= MAX_PAYLOAD_LEN
                &&& self.spec_coding() == ContentCoding::AesGcm
                &&& p.content@.len() == FRAMED_LEN
                &&& p.public_key@.len() == PUBLIC_KEY_LEN
                &&& p.salt@.len() == SALT_LEN
                &&& exists|ss: Seq<u8>|
                    ss.len() == SHARED_SECRET_LEN && p.content@ == #[trigger] sealed_payload(
                        content@,
                        self.spec_peer_public_key(),
                        self.spec_peer_secret(),
                        p.public_key@,
                        p.salt@,
                        ss,
                    )
            },
    {
        if content.len() > MAX_PAYLOAD_LEN {
            return Err(WebPushError::ContentTooLong);
        }
        match self.coding {
            ContentCoding::Aes128Gcm => {
                return Err(WebPushError::NotImplemented);
            },
            ContentCoding::AesGcm => {},
        }
        if self.peer_public_key.len() != PUBLIC_KEY_LEN {
            return Err(WebPushError::CryptoUnspecified);
        }

        let salt_bytes = match random_bytes(SALT_LEN) {
            Ok(v) => v,
            Err(_) => {
                return Err(WebPushError::RandomnessFailure);
            },
        };
        let keypair = match generate_p256_keypair() {
            Ok(kp) => kp,
            Err(_) => {
                return Err(WebPushError::RandomnessFailure);
            },
        };
        let (private_key, public_key) = keypair;
        let shared_secret = match p256_agree(private_key, &self.peer_public_key) {
            Ok(v) => v,
            Err(_) => {
                return Err(WebPushError::CryptoUnspecified);
            },
        };

        let mut payload = zero_vec(FRAMED_LEN);
        let ghost buf0 = payload@;
        front_pad(content, &mut payload);
        proof {
            lemma_front_pad_zero_buffer(content@, buf0, payload@);
        }

        match self.aes_gcm(&shared_secret, &public_key, &salt_bytes, &mut payload) {
            Ok(()) => {},
            Err(e) => {
                return Err(e);
            },
        }

        let result = WebPushPayload { content: payload, public_key, salt: salt_bytes };
        proof {
            assert(result.content@ == sealed_payload(
                content@,
                self.spec_peer_public_key(),
                self.spec_peer_secret(),
                result.public_key@,
                result.salt@,
                shared_secret@,
            ));
            assert(exists|ss: Seq<u8>|
                ss.len() == SHARED_SECRET_LEN && result.content@ == #[trigger] sealed_payload(
                    content@,
                    self.spec_peer_public_key(),
                    self.spec_peer_secret(),
                    result.public_key@,
                    result.salt@,
                    ss,
                ));
        }
        Ok(result)
    }

    /// Derive the keys and seal the framed buffer in place.
    ///
    /// `payload` comes in as the framed plaintext buffer and leaves as the
    /// ciphertext of its sealed region with the tag at the end. This stage
    /// always succeeds: the derivation and the seal are deterministic, and
    /// the key, nonce and buffer it hands them have the fixed lengths on
    /// which the primitives cannot fail.
    fn aes_gcm(
        &self,
        shared_secret: &Vec<u8>,
        as_public_key: &Vec<u8>,
        salt_bytes: &Vec<u8>,
        payload: &mut Vec<u8>,
    ) -> (r: Result<(), WebPushError>)
        requires
            old(payload)@.len() == FRAMED_LEN,
            self.spec_peer_public_key().len() < 65536,
            as_public_key@.len() < 65536,
        ensures
            r matches Ok(()),
            final(payload)@.len() == FRAMED_LEN,
            ({
                let ikm = derived_ikm(self.spec_peer_secret(), shared_secret@);
                let context = key_context(self.spec_peer_public_key(), as_public_key@);
                final(payload)@ == aes_128_gcm_sealed(
                    derived_cek(salt_bytes@, ikm, context),
                    derived_nonce(salt_bytes@, ikm, context),
                    old(payload)@.subrange(0, SEALED_REGION_LEN as int),
                )
            }),
    {
        let context = build_key_context(&self.peer_public_key, as_public_key);

        let auth_info_v = auth_info_bytes();
        let ikm = match hkdf_sha256_extract_expand_32(&self.peer_secret, shared_secret, &auth_info_v) {
            Ok(v) => v,
            Err(_) => {
                return Err(WebPushError::CryptoUnspecified);
            },
        };

        let mut cek_info = cek_info_prefix_bytes();
        push_all(&mut cek_info, &context);
        let cek_full = match hkdf_sha256_extract_expand_32(salt_bytes, &ikm, &cek_info) {
            Ok(v) => v,
            Err(_) => {
                return Err(WebPushError::CryptoUnspecified);
            },
        };
        let content_encryption_key = prefix_bytes(&cek_full, CEK_LEN);

        let mut nonce_info = nonce_info_prefix_bytes();
        push_all(&mut nonce_info, &context);
        let nonce_full = match hkdf_sha256_extract_expand_32(salt_bytes, &ikm, &nonce_info) {
            Ok(v) => v,
            Err(_) => {
                return Err(WebPushError::CryptoUnspecified);
            },
        };
        let nonce = prefix_bytes(&nonce_full, NONCE_LEN);

        let message = prefix_bytes(payload, SEALED_REGION_LEN);
        let sealed = match aes_128_gcm_seal(&content_encryption_key, &nonce, message) {
            Ok(v) => v,
            Err(_) => {
                return Err(WebPushError::CryptoUnspecified);
            },
        };
        *payload = sealed;
        Ok(())
    }
}

} // verus!
