//! Public keys of node identities.

use vstd::prelude::*;
use crate::crypto::ed25519::{decoded_key, ed25519_key_parses, ed25519_signature_verifies};
use crate::crypto::keys_proto::{
    lemma_message_reads_back, message, message_encoding, varint_encoding, KeyFields,
};
use crate::error::DecodingError;
use crate::peer_id::{bytes_to_vec, identity_multihash, PeerId};

pub mod ed25519;
pub mod keys_proto;

verus! {

/// Number of the Ed25519 key type in the key format.
pub const KEY_TYPE_ED25519: i32 = 1;

/// Whether the key format defines a key type with this number.
pub open spec fn is_known_key_type(key_type: i32) -> bool {
    0 <= key_type <= 3
}

/// Whether a key type with this number can be read: it is Ed25519, or it is
/// none at all and is refused. The other key types of the key format are
/// not supported.
pub open spec fn is_supported_key_type(key_type: i32) -> bool {
    is_known_key_type(key_type) ==> key_type == KEY_TYPE_ED25519
}

/// The key that a key message holds: the bytes of an Ed25519 key, or why
/// the message holds none.
pub open spec fn key_of(fields: KeyFields) -> Result<Seq<u8>, DecodingError> {
    if fields.key_type != KEY_TYPE_ED25519 {
        Err(DecodingError::UnknownKeyType(fields.key_type))
    } else {
        decoded_key(fields.data)
    }
}

/// Whether `r` is the Ed25519 key, or the refusal, that `expected` says.
pub open spec fn reads_as_key(
    r: Result<PublicKey, DecodingError>,
    expected: Result<Seq<u8>, DecodingError>,
) -> bool {
    match expected {
        Ok(key) => r matches Ok(PublicKey::Ed25519(k)) && k@ == key,
        Err(e) => r == Err::<PublicKey, DecodingError>(e),
    }
}

/// The key message of an Ed25519 key with the bytes `key`.
pub open spec fn ed25519_key_fields(key: Seq<u8>) -> KeyFields {
    KeyFields { key_type: KEY_TYPE_ED25519, data: key }
}

/// The encoding of an Ed25519 key with the bytes `key` in the key format:
/// four bytes for the key type and the length of the key, then the key.
pub open spec fn ed25519_key_encoding(key: Seq<u8>) -> Seq<u8> {
    seq![0x08u8, 0x01u8, 0x12u8, 0x20u8] + key
}

/// The key message of an Ed25519 key is written as the four bytes and the
/// key.
pub proof fn lemma_ed25519_key_encoding(key: Seq<u8>)
    requires
        key.len() == ed25519::PUBLIC_KEY_LENGTH,
    ensures
        message_encoding(ed25519_key_fields(key)) == ed25519_key_encoding(key),
{
    assert(varint_encoding(1) =~= seq![0x01u8]);
    assert(varint_encoding(32) =~= seq![0x20u8]);
    assert(#[verifier::truncate] (KEY_TYPE_ED25519 as u64) == 1u64) by (bit_vector);
    assert(message_encoding(ed25519_key_fields(key)) =~= ed25519_key_encoding(key));
}

/// The encoding of an Ed25519 key reads back as a message of the Ed25519
/// key type with the bytes of the key as its data, and so, where the bytes
/// are a key, as the key itself.
pub proof fn lemma_encoding_reads_back(key: Seq<u8>)
    requires
        key.len() == ed25519::PUBLIC_KEY_LENGTH,
    ensures
        message(ed25519_key_encoding(key)) == Some(ed25519_key_fields(key)),
        ed25519_key_parses(key) ==> key_of(ed25519_key_fields(key)) == Ok::<
            Seq<u8>,
            DecodingError,
        >(key),
{
    lemma_ed25519_key_encoding(key);
    lemma_message_reads_back(ed25519_key_fields(key));
}

/// The public key of a node's identity keypair.
#[derive(Debug, PartialEq, Eq, Hash, PartialOrd, Ord)]
pub enum PublicKey {
    /// A public Ed25519 key.
    Ed25519(ed25519::PublicKey),
}

impl Clone for PublicKey {
    fn clone(&self) -> (r: PublicKey)
        ensures
            r == *self,
    {
        match self {
            PublicKey::Ed25519(key) => PublicKey::Ed25519(*key),
        }
    }
}

impl PublicKey {
    /// The key message that holds the key.
    pub open spec fn fields(&self) -> KeyFields {
        match self {
            PublicKey::Ed25519(key) => ed25519_key_fields(key@),
        }
    }

    /// The encoding of the key in the key format.
    pub open spec fn encoding(&self) -> Seq<u8> {
        match self {
            PublicKey::Ed25519(key) => ed25519_key_encoding(key@),
        }
    }

    /// Verify a signature for a message using this public key, i.e. check
    /// that the signature has been produced by the corresponding
    /// private key (authenticity), and that the message has not been
    /// tampered with (integrity).
    #[must_use]
    pub fn verify(&self, msg: &[u8], sig: &[u8]) -> (r: bool)
        ensures
            r == match self {
                PublicKey::Ed25519(key) => sig@.len() == ed25519::SIGNATURE_LENGTH
                    && ed25519_signature_verifies(key@, msg@, sig@),
            },
    {
        match self {
            PublicKey::Ed25519(pk) => pk.verify(msg, sig),
        }
    }

    /// The key message that holds the key.
    pub fn to_message(&self) -> (r: keys_proto::PublicKey)
        ensures
            r@ == self.fields(),
            r@.data.len() == ed25519::PUBLIC_KEY_LENGTH,
            ed25519_key_parses(r@.data),
    {
        match self {
            PublicKey::Ed25519(key) => {
                let bytes: [u8; 32] = key.encode();
                keys_proto::PublicKey {
                    key_type: KEY_TYPE_ED25519,
                    data: bytes_to_vec(bytes.as_slice()),
                }
            },
        }
    }

    /// Encode the public key into the key format for storage or exchange
    /// with other nodes. The encoding reads back as the key.
    pub fn to_protobuf_encoding(&self) -> (r: Vec<u8>)
        ensures
            r@ == self.encoding(),
            r@.len() == 36,
            message(r@) == Some(self.fields()),
            match self {
                PublicKey::Ed25519(key) => key_of(self.fields()) == Ok::<Seq<u8>, DecodingError>(
                    key@,
                ),
            },
    {
        let public_key = self.to_message();
        proof {
            lemma_ed25519_key_encoding(public_key@.data);
            lemma_encoding_reads_back(public_key@.data);
        }
        public_key.encode()
    }

    /// Decode a public key from the key format, e.g. read from storage
    /// or received from another node. Only Ed25519 keys are supported.
    pub fn from_protobuf_encoding(bytes: &[u8]) -> (r: Result<PublicKey, DecodingError>)
        requires
            message(bytes@) matches Some(fields) ==> is_supported_key_type(fields.key_type),
        ensures
            match message(bytes@) {
                Some(fields) => reads_as_key(r, key_of(fields)),
                None => r == Err::<PublicKey, DecodingError>(DecodingError::BadProtobuf),
            },
    {
        match keys_proto::PublicKey::decode(bytes) {
            Ok(pubkey) => PublicKey::try_from(pubkey),
            Err(e) => Err(e),
        }
    }

    /// The public key that a key message holds. A key type that the key
    /// format does not define is refused, and so is key data that is no key.
    /// Only Ed25519 keys are supported.
    pub fn try_from(pubkey: keys_proto::PublicKey) -> (r: Result<PublicKey, DecodingError>)
        requires
            is_supported_key_type(pubkey.key_type),
        ensures
            reads_as_key(r, key_of(pubkey@)),
    {
        if pubkey.key_type != KEY_TYPE_ED25519 {
            return Err(DecodingError::UnknownKeyType(pubkey.key_type));
        }
        match ed25519::PublicKey::decode(pubkey.data.as_slice()) {
            Ok(key) => Ok(PublicKey::Ed25519(key)),
            Err(e) => Err(e),
        }
    }

    /// Convert the `PublicKey` into the corresponding `PeerId`.
    pub fn to_peer_id(&self) -> (r: PeerId)
        ensures
            r@ == identity_multihash(self.encoding()),
    {
        PeerId::from_public_key(self)
    }
}

} // verus!
