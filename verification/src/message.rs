use vstd::prelude::*;

verus! {

/// The sole externally visible artifact of one encryption call: everything
/// the recipient needs to decrypt.
#[derive(Clone, Debug)]
pub struct WebPushPayload {
    /// Ciphertext of the framed plaintext, with the authentication tag at
    /// the end; always exactly `FRAMED_LEN` bytes for the implemented coding.
    pub content: Vec<u8>,
    /// The fresh ephemeral public key (uncompressed P-256 point).
    pub public_key: Vec<u8>,
    /// The fresh random salt the keys were derived with.
    pub salt: Vec<u8>,
}

} // verus!
