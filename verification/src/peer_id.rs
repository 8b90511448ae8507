//! Identifiers of peers.

use vstd::prelude::*;
use crate::crypto::PublicKey;
use crate::error::ParseError;

verus! {

/// Multihash code of a digest that is the hashed data itself.
pub const MULTIHASH_IDENTITY_CODE: u8 = 0x00;

/// Multihash code of a SHA-256 digest.
pub const MULTIHASH_SHA256_CODE: u8 = 0x12;

/// Longest key encoding that an identifier holds as it is, unhashed.
pub const MAX_INLINE_KEY_LENGTH: usize = 42;

/// Longest digest that a multihash holds.
pub const MAX_DIGEST_LENGTH: usize = 64;

/// Whether `bytes` is the multihash of a peer: the code and the length of the
/// digest, one byte each, then the digest, which is either an inlined key
/// encoding of at most 42 bytes or a digest under the code of SHA-256, of at
/// most 64 bytes.
pub open spec fn is_peer_multihash(bytes: Seq<u8>) -> bool {
    &&& bytes.len() >= 2
    &&& bytes.len() == 2 + bytes[1]
    &&& {
        ||| bytes[0] == MULTIHASH_IDENTITY_CODE && bytes[1] <= MAX_INLINE_KEY_LENGTH
        ||| bytes[0] == MULTIHASH_SHA256_CODE && bytes[1] <= MAX_DIGEST_LENGTH
    }
}

/// The multihash that holds `data` itself as its digest.
pub open spec fn identity_multihash(data: Seq<u8>) -> Seq<u8>
    recommends
        data.len() <= MAX_INLINE_KEY_LENGTH,
{
    seq![MULTIHASH_IDENTITY_CODE, data.len() as u8] + data
}

/// Whether two byte strings hold the same bytes.
pub fn bytes_equal(a: &[u8], b: &[u8]) -> (r: bool)
    ensures
        r == (a@ == b@),
{
    if a.len() != b.len() {
        return false;
    }
    let mut i: usize = 0;
    while i < a.len()
        invariant
            a@.len() == b@.len(),
            i <= a@.len(),
            forall|j: int| 0 <= j < i ==> a@[j] == b@[j],
        decreases a@.len() - i,
    {
        if a[i] != b[i] {
            return false;
        }
        i += 1;
    }
    assert(a@ =~= b@);
    true
}

/// A copy of a byte string.
pub fn bytes_to_vec(a: &[u8]) -> (r: Vec<u8>)
    ensures
        r@ == a@,
{
    let mut out: Vec<u8> = Vec::new();
    let mut i: usize = 0;
    while i < a.len()
        invariant
            i <= a@.len(),
            out@ == a@.subrange(0, i as int),
        decreases a@.len() - i,
    {
        out.push(a[i]);
        assert(out@ =~= a@.subrange(0, i + 1));
        i += 1;
    }
    assert(out@ =~= a@);
    out
}

/// Identifier of a peer: the multihash of its public key. Two identifiers
/// are equal if their multihashes are, and they are ordered as their
/// multihashes are, byte by byte.
#[derive(Debug, Hash, PartialOrd, Ord)]
pub struct PeerId {
    multihash: Vec<u8>,
}

impl View for PeerId {
    type V = Seq<u8>;

    closed spec fn view(&self) -> Seq<u8> {
        self.multihash@
    }
}

impl PeerId {
    #[verifier::type_invariant]
    spec fn well_formed(&self) -> bool {
        is_peer_multihash(self.multihash@)
    }

    /// The identifier that inlines the given key encoding.
    pub fn from_key_encoding(encoding: &[u8]) -> (r: PeerId)
        requires
            encoding@.len() <= MAX_INLINE_KEY_LENGTH,
        ensures
            r@ == identity_multihash(encoding@),
    {
        let mut multihash: Vec<u8> = Vec::new();
        multihash.push(MULTIHASH_IDENTITY_CODE);
        multihash.push(encoding.len() as u8);
        let mut i: usize = 0;
        while i < encoding.len()
            invariant
                i <= encoding@.len(),
                encoding@.len() <= MAX_INLINE_KEY_LENGTH,
                multihash@ == identity_multihash(encoding@.subrange(0, i as int)).update(
                    1,
                    encoding@.len() as u8,
                ),
            decreases encoding@.len() - i,
        {
            multihash.push(encoding[i]);
            assert(multihash@ =~= identity_multihash(encoding@.subrange(0, i + 1)).update(
                1,
                encoding@.len() as u8,
            ));
            i += 1;
        }
        assert(multihash@ =~= identity_multihash(encoding@));
        PeerId { multihash }
    }

    /// The identifier of the peer with the public key `key`, which inlines
    /// the encoding of the key.
    pub fn from_public_key(key: &PublicKey) -> (r: PeerId)
        ensures
            r@ == identity_multihash(key.encoding()),
    {
        let encoding: Vec<u8> = key.to_protobuf_encoding();
        PeerId::from_key_encoding(encoding.as_slice())
    }

    /// Reads an identifier from the bytes of its multihash.
    pub fn from_bytes(bytes: &[u8]) -> (r: Result<PeerId, ParseError>)
        ensures
            is_peer_multihash(bytes@) ==> r is Ok && r->Ok_0@ == bytes@,
            !is_peer_multihash(bytes@) ==> r == Err::<PeerId, ParseError>(
                ParseError::InvalidMultihash,
            ),
    {
        if bytes.len() < 2 {
            return Err(ParseError::InvalidMultihash);
        }
        let code: u8 = bytes[0];
        let size: u8 = bytes[1];
        if bytes.len() - 2 != size as usize {
            return Err(ParseError::InvalidMultihash);
        }
        let inlined: bool = code == MULTIHASH_IDENTITY_CODE && size as usize
            <= MAX_INLINE_KEY_LENGTH;
        let hashed: bool = code == MULTIHASH_SHA256_CODE && size as usize <= MAX_DIGEST_LENGTH;
        if inlined || hashed {
            Ok(PeerId { multihash: bytes_to_vec(bytes) })
        } else {
            Err(ParseError::InvalidMultihash)
        }
    }

    /// The bytes of the identifier's multihash.
    pub fn to_bytes(&self) -> (r: Vec<u8>)
        ensures
            r@ == self@,
            is_peer_multihash(r@),
    {
        proof {
            use_type_invariant(self);
        }
        bytes_to_vec(self.multihash.as_slice())
    }
}

impl Clone for PeerId {
    fn clone(&self) -> (r: PeerId)
        ensures
            r@ == self@,
    {
        proof {
            use_type_invariant(self);
        }
        PeerId { multihash: bytes_to_vec(self.multihash.as_slice()) }
    }
}

impl PartialEq for PeerId {
    fn eq(&self, other: &PeerId) -> (r: bool) {
        bytes_equal(self.multihash.as_slice(), other.multihash.as_slice())
    }
}

impl Eq for PeerId {}

impl vstd::std_specs::cmp::PartialEqSpecImpl for PeerId {
    open spec fn obeys_eq_spec() -> bool {
        true
    }

    open spec fn eq_spec(&self, other: &PeerId) -> bool {
        self@ == other@
    }
}

} // verus!
