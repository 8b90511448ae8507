//! Ed25519 public keys.

use vstd::prelude::*;
use crate::error::DecodingError;

verus! {

/// Length of an Ed25519 public key in bytes.
pub const PUBLIC_KEY_LENGTH: usize = 32;

/// Length of an Ed25519 signature in bytes.
pub const SIGNATURE_LENGTH: usize = 64;

/// Whether `ed25519_dalek::VerifyingKey::from_bytes` accepts the 32 bytes
/// `key`: they are the compressed form of a point of the curve.
pub uninterp spec fn ed25519_key_parses(key: Seq<u8>) -> bool;

/// Whether `ed25519_dalek::VerifyingKey::verify` accepts the 64 bytes `sig`
/// as a signature of `msg` under the key with the bytes `key`.
pub uninterp spec fn ed25519_signature_verifies(key: Seq<u8>, msg: Seq<u8>, sig: Seq<u8>) -> bool;

/// Calls `ed25519_dalek::VerifyingKey::from_bytes` and tells whether it
/// returned a key. The claim: the answer depends on the 32 bytes alone.
#[verifier::external_body]
fn key_parses(key: &[u8; 32]) -> (ok: bool)
    ensures
        ok == ed25519_key_parses(key@),
{
    ed25519_dalek::VerifyingKey::from_bytes(key).is_ok()
}

/// Calls `verify` of `ed25519_dalek::VerifyingKey`, through the trait
/// `Verifier`, on the key parsed from `key` and the signature made of `sig`,
/// and tells whether it accepted. The claim: the answer depends on the three
/// byte strings alone.
#[verifier::external_body]
fn signature_verifies(key: &[u8; 32], msg: &[u8], sig: &[u8; 64]) -> (ok: bool)
    requires
        ed25519_key_parses(key@),
    ensures
        ok == ed25519_signature_verifies(key@, msg@, sig@),
{
    match ed25519_dalek::VerifyingKey::from_bytes(key) {
        Ok(key) => ed25519_dalek::Verifier::verify(
            &key,
            msg,
            &ed25519_dalek::Signature::from_bytes(sig),
        ).is_ok(),
        Err(_) => false,
    }
}

/// An Ed25519 public key: 32 bytes that are a point of the curve.
#[derive(Clone, Copy, Debug, PartialEq, Eq, Hash, PartialOrd, Ord)]
pub struct PublicKey {
    bytes: [u8; 32],
}

impl View for PublicKey {
    type V = Seq<u8>;

    closed spec fn view(&self) -> Seq<u8> {
        self.bytes@
    }
}

/// What reading a key from `bytes` gives: the bytes of the key, or why they
/// are none.
pub open spec fn decoded_key(bytes: Seq<u8>) -> Result<Seq<u8>, DecodingError> {
    if bytes.len() != PUBLIC_KEY_LENGTH {
        Err(DecodingError::InvalidLength)
    } else if !ed25519_key_parses(bytes) {
        Err(DecodingError::InvalidKey)
    } else {
        Ok(bytes)
    }
}

impl PublicKey {
    #[verifier::type_invariant]
    spec fn well_formed(&self) -> bool {
        ed25519_key_parses(self.bytes@)
    }

    /// Reads a public key from its 32 bytes. Byte strings of another length
    /// and those that are no point of the curve are refused.
    pub fn decode(bytes: &[u8]) -> (r: Result<PublicKey, DecodingError>)
        ensures
            match decoded_key(bytes@) {
                Ok(key) => r is Ok && r->Ok_0@ == key,
                Err(e) => r == Err::<PublicKey, DecodingError>(e),
            },
    {
        if bytes.len() != PUBLIC_KEY_LENGTH {
            return Err(DecodingError::InvalidLength);
        }
        let mut key: [u8; 32] = [0u8; 32];
        let mut i: usize = 0;
        while i < PUBLIC_KEY_LENGTH
            invariant
                i <= PUBLIC_KEY_LENGTH,
                bytes@.len() == PUBLIC_KEY_LENGTH,
                forall|j: int| 0 <= j < i ==> key@[j] == bytes@[j],
            decreases PUBLIC_KEY_LENGTH - i,
        {
            key[i] = bytes[i];
            i += 1;
        }
        assert(key@ =~= bytes@);
        if key_parses(&key) {
            Ok(PublicKey { bytes: key })
        } else {
            Err(DecodingError::InvalidKey)
        }
    }

    /// The 32 bytes of the key, which are a point of the curve, as those of
    /// every key are.
    pub fn encode(&self) -> (r: [u8; 32])
        ensures
            r@ == self@,
            self@.len() == PUBLIC_KEY_LENGTH,
            ed25519_key_parses(self@),
    {
        proof {
            use_type_invariant(self);
        }
        self.bytes
    }

    /// Whether `sig` is a signature of `msg` made with the private key that
    /// belongs to this key. A byte string that is not 64 bytes long is no
    /// signature.
    pub fn verify(&self, msg: &[u8], sig: &[u8]) -> (r: bool)
        ensures
            r == (sig@.len() == SIGNATURE_LENGTH && ed25519_signature_verifies(
                self@,
                msg@,
                sig@,
            )),
    {
        if sig.len() != SIGNATURE_LENGTH {
            return false;
        }
        let mut signature: [u8; 64] = [0u8; 64];
        let mut i: usize = 0;
        while i < SIGNATURE_LENGTH
            invariant
                i <= SIGNATURE_LENGTH,
                sig@.len() == SIGNATURE_LENGTH,
                forall|j: int| 0 <= j < i ==> signature@[j] == sig@[j],
            decreases SIGNATURE_LENGTH - i,
        {
            signature[i] = sig[i];
            i += 1;
        }
        assert(signature@ =~= sig@);
        proof {
            use_type_invariant(self);
        }
        signature_verifies(&self.bytes, msg, &signature)
    }
}

} // verus!
