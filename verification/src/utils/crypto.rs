//! Verification of message authentication codes.

use vstd::prelude::*;

verus! {

/// HMAC-SHA256 of `message` under `key`.
pub uninterp spec fn hmac_sha256(key: Seq<u8>, message: Seq<u8>) -> Seq<u8>;

/// The longest key and the longest message that are handed to the digest.
pub const MAX_INPUT_LEN: u64 = 0x0fff_ffff_ffff_ffff;

/// Calls `ring::hmac::verify` with a key that `ring::hmac::Key::new` makes
/// for HMAC-SHA256. The contract claims that the call succeeds exactly where
/// the code that `ring` computes for the message equals `signature`, and
/// gives that code the name [`hmac_sha256`]. Longer inputs than
/// [`MAX_INPUT_LEN`] are kept out because `ring` refuses an input whose length
/// in bits does not fit in 64 bits, for a key by a panic.
#[verifier::external_body]
fn hmac_sha256_verify(secret: &[u8], message: &[u8], signature: &[u8]) -> (r: bool)
    requires
        secret@.len() <= MAX_INPUT_LEN,
        message@.len() <= MAX_INPUT_LEN,
    ensures
        r == (hmac_sha256(secret@, message@) == signature@),
{
    let key = ring::hmac::Key::new(ring::hmac::HMAC_SHA256, secret);
    ring::hmac::verify(&key, message, signature).is_ok()
}

/// The algorithms by which an acquirer signs its webhooks.
#[derive(Clone, Copy, Debug, PartialEq, Eq, Structural)]
pub enum SignatureAlgorithm {
    HmacSha256,
}

/// A signature verifies where it is the code of the message under the
/// secret. A secret or a message too long for the digest verifies nothing.
pub open spec fn verifies(secret: Seq<u8>, signature: Seq<u8>, message: Seq<u8>) -> bool {
    &&& secret.len() <= MAX_INPUT_LEN
    &&& message.len() <= MAX_INPUT_LEN
    &&& hmac_sha256(secret, message) == signature
}

impl SignatureAlgorithm {
    /// Tells whether `signature` is the code of `message` under `secret`. The
    /// comparison of the codes takes the same time whatever they hold.
    pub fn verify_signature(&self, secret: &[u8], signature: &[u8], message: &[u8]) -> (r: bool)
        ensures
            r == verifies(secret@, signature@, message@),
    {
        if secret.len() as u64 > MAX_INPUT_LEN || message.len() as u64 > MAX_INPUT_LEN {
            return false;
        }
        hmac_sha256_verify(secret, message, signature)
    }
}

/// Two different signatures never both verify for the same secret and
/// message: a signature that is changed in any byte is refused.
pub proof fn a_changed_signature_is_refused(
    secret: Seq<u8>,
    message: Seq<u8>,
    signature: Seq<u8>,
    changed: Seq<u8>,
)
    requires
        verifies(secret, signature, message),
        changed != signature,
    ensures
        !verifies(secret, changed, message),
{
}

/// Within what the digest takes, a signature verifies exactly where it is
/// the HMAC-SHA256 of the message under the secret.
pub proof fn a_signature_verifies_where_it_is_the_code(
    secret: Seq<u8>,
    signature: Seq<u8>,
    message: Seq<u8>,
)
    requires
        secret.len() <= MAX_INPUT_LEN,
        message.len() <= MAX_INPUT_LEN,
    ensures
        verifies(secret, signature, message) <==> hmac_sha256(secret, message) == signature,
{
}

} // verus!
