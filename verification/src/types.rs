//! Core value types: hashes, signatures, signer keys and token kinds.

use vstd::prelude::*;
use crate::hex::{hex_decode, opt_bytes_view, prefixed_hex_of, decode_hex_to_vec,
    encode_prefixed_hex};

verus! {

/// Number of bytes in a hash value.
pub const HASH_LENGTH: usize = 32;

/// Number of bytes in a secp256k1 signature: the (r, s) pair.
pub const SECP256K1_SIGNATURE_LENGTH: usize = 64;

/// Number of bytes in an encoded secp256k1 public key.
pub const SECP256K1_PUBLIC_KEY_LENGTH: usize = 64;

/// The kind of a bridged asset: the chain's native token, a fungible
/// token, or a non-fungible token.
#[derive(Clone, Copy, Debug, PartialEq, Eq, Structural)]
pub enum TokenType {
    Native,
    FT,
    NFT,
}

/// A fixed 32-byte value: used as map key, signed message and
/// replay-ledger key. Its textual form is a `0x`-prefixed hex string.
#[derive(Debug)]
pub struct Hash {
    bytes: Vec<u8>,
}

impl View for Hash {
    type V = Seq<u8>;

    closed spec fn view(&self) -> Seq<u8> {
        self.bytes@
    }
}

/// What `Hash::from_hex` yields for a given text: the decoded bytes when
/// the text is well-formed prefixed hex of exactly 32 bytes.
pub open spec fn hash_from_hex_spec(s: Seq<char>) -> Option<Seq<u8>> {
    match hex_decode(s) {
        Some(b) => if b.len() == HASH_LENGTH {
            Some(b)
        } else {
            None
        },
        None => None,
    }
}

impl Hash {
    /// Every hash holds exactly 32 bytes; never partially filled.
    pub open spec fn well_formed(&self) -> bool {
        self@.len() == HASH_LENGTH
    }

    /// Every constructed hash satisfies its length invariant.
    #[verifier::type_invariant]
    pub open spec fn length_invariant(&self) -> bool {
        self.well_formed()
    }

    /// The all-zero hash.
    pub fn new() -> (r: Self)
        ensures
            r.well_formed(),
            r@ == Seq::new(HASH_LENGTH as nat, |i: int| 0u8),
    {
        let mut bytes: Vec<u8> = Vec::new();
        let mut i: usize = 0;
        while i < HASH_LENGTH
            invariant
                i <= HASH_LENGTH,
                bytes@.len() == i,
                forall|j: int| 0 <= j < i ==> bytes@[j] == 0u8,
            decreases HASH_LENGTH - i,
        {
            bytes.push(0u8);
            i += 1;
        }
        let r = Hash { bytes };
        proof {
            assert(r@ =~= Seq::new(HASH_LENGTH as nat, |i: int| 0u8));
        }
        r
    }

    /// Copies exactly 32 bytes out of the given slice.
    pub fn from_slice(slice: &[u8]) -> (r: Self)
        requires
            slice@.len() == HASH_LENGTH,
        ensures
            r.well_formed(),
            r@ == slice@,
    {
        Hash { bytes: vstd::slice::slice_to_vec(slice) }
    }

    /// Takes ownership of exactly 32 bytes.
    pub fn from_vec(bytes: Vec<u8>) -> (r: Self)
        requires
            bytes@.len() == HASH_LENGTH,
        ensures
            r.well_formed(),
            r@ == bytes@,
    {
        Hash { bytes }
    }

    /// Reads a hash from its `0x`-prefixed hexadecimal text; yields
    /// nothing when the text is malformed or does not denote 32 bytes.
    pub fn from_hex(text: String) -> (r: Option<Self>)
        ensures
            match r {
                Some(h) => h.well_formed() && hash_from_hex_spec(text@) == Some(h@),
                None => hash_from_hex_spec(text@) is None,
            },
    {
        match decode_hex_to_vec(text) {
            Some(bytes) => if bytes.len() == HASH_LENGTH {
                Some(Hash { bytes })
            } else {
                None
            },
            None => None,
        }
    }

    /// Borrows the 32 bytes.
    pub fn to_slice(&self) -> (r: &[u8])
        ensures
            r@ == self@,
    {
        self.bytes.as_slice()
    }

    /// Returns a copy of the 32 bytes.
    pub fn unwrap(&self) -> (r: Vec<u8>)
        ensures
            r@ == self@,
    {
        self.bytes.clone()
    }

    /// Returns an identical hash.
    pub fn duplicate(&self) -> (r: Self)
        ensures
            r@ == self@,
    {
        proof {
            use_type_invariant(self);
        }
        Hash { bytes: self.bytes.clone() }
    }

    /// The `0x`-prefixed lowercase hexadecimal text of the hash.
    pub fn as_str(&self) -> (r: String)
        ensures
            r@ == prefixed_hex_of(self@),
    {
        encode_prefixed_hex(&self.bytes)
    }

    /// Byte-wise equality of two hashes.
    pub fn equals(&self, other: &Hash) -> (r: bool)
        ensures
            r == (self@ == other@),
    {
        crate::types::bytes_equal(&self.bytes, &other.bytes)
    }
}

/// Byte-wise equality of two buffers.
pub fn bytes_equal(a: &Vec<u8>, b: &Vec<u8>) -> (r: bool)
    ensures
        r == (a@ == b@),
{
    if a.len() != b.len() {
        proof {
            assert(a@ != b@);
        }
        return false;
    }
    let n: usize = a.len();
    let mut i: usize = 0;
    while i < n
        invariant
            a@.len() == n,
            b@.len() == n,
            i <= n,
            forall|j: int| 0 <= j < i ==> a@[j] == b@[j],
        decreases n - i,
    {
        if a[i] != b[i] {
            proof {
                assert(a@[i as int] != b@[i as int]);
            }
            return false;
        }
        i += 1;
    }
    proof {
        assert(a@ =~= b@);
    }
    true
}

/// An opaque encoded secp256k1 public key: a base-58 string, validated at
/// construction to decode to exactly 64 bytes.
#[derive(Clone, Debug)]
pub struct SignerPublicKey {
    key: String,
}

impl View for SignerPublicKey {
    type V = Seq<char>;

    closed spec fn view(&self) -> Seq<char> {
        self.key@
    }
}

/// A signer key text is valid when it decodes from base-58 to exactly 64
/// bytes.
pub open spec fn valid_signer_key(s: Seq<char>) -> bool {
    match crate::crypto::base58_bytes_of(s) {
        Some(b) => b.len() == SECP256K1_PUBLIC_KEY_LENGTH,
        None => false,
    }
}

impl SignerPublicKey {
    /// Wraps an encoded public key; `validate` decides whether it is
    /// usable.
    pub fn new(public_key: String) -> (r: Self)
        ensures
            r@ == public_key@,
    {
        SignerPublicKey { key: public_key }
    }

    /// Whether the key decodes from base-58 to exactly 64 bytes.
    pub fn validate(&self) -> (r: bool)
        ensures
            r == valid_signer_key(self@),
    {
        match crate::crypto::base58_decode(&self.key) {
            Some(decoded) => decoded.len() == SECP256K1_PUBLIC_KEY_LENGTH,
            None => false,
        }
    }

    /// Textual equality of two encoded keys.
    pub fn equals(&self, other: &SignerPublicKey) -> (r: bool)
        ensures
            r == (self@ == other@),
    {
        self.key == other.key
    }

    /// The encoded textual form of the key.
    pub fn to_string(&self) -> (r: String)
        ensures
            r@ == self@,
    {
        self.key.clone()
    }
}

/// The single byte that selects which of the candidate public keys an
/// ECDSA recovery yields.
#[derive(Clone, Copy, Debug, PartialEq, Eq, Structural)]
pub struct RecoveryID {
    value: u8,
}

impl View for RecoveryID {
    type V = u8;

    closed spec fn view(&self) -> u8 {
        self.value
    }
}

impl RecoveryID {
    /// Wraps a recovery byte.
    pub fn new(value: u8) -> (r: Self)
        ensures
            r@ == value,
    {
        RecoveryID { value }
    }

    /// The raw recovery byte.
    pub fn unwrap(&self) -> (r: u8)
        ensures
            r == self@,
    {
        self.value
    }
}

/// What `Secp256K1Signature::from_hex` yields: the decoded bytes when the
/// text is well-formed prefixed hex of exactly 64 bytes.
pub open spec fn signature_from_hex_spec(s: Seq<char>) -> Option<Seq<u8>> {
    match hex_decode(s) {
        Some(b) => if b.len() == SECP256K1_SIGNATURE_LENGTH {
            Some(b)
        } else {
            None
        },
        None => None,
    }
}

/// A 64-byte secp256k1 signature: the (r, s) pair, always used together
/// with a `RecoveryID` to recover a public key from a message hash.
#[derive(Debug)]
pub struct Secp256K1Signature {
    arr: Vec<u8>,
}

impl View for Secp256K1Signature {
    type V = Seq<u8>;

    closed spec fn view(&self) -> Seq<u8> {
        self.arr@
    }
}

impl Secp256K1Signature {
    /// Every signature holds exactly 64 bytes.
    pub open spec fn well_formed(&self) -> bool {
        self@.len() == SECP256K1_SIGNATURE_LENGTH
    }

    /// Every constructed signature satisfies its length invariant.
    #[verifier::type_invariant]
    pub open spec fn length_invariant(&self) -> bool {
        self.well_formed()
    }

    /// The all-zero signature.
    pub fn new() -> (r: Self)
        ensures
            r.well_formed(),
            r@ == Seq::new(SECP256K1_SIGNATURE_LENGTH as nat, |i: int| 0u8),
    {
        let mut arr: Vec<u8> = Vec::new();
        let mut i: usize = 0;
        while i < SECP256K1_SIGNATURE_LENGTH
            invariant
                i <= SECP256K1_SIGNATURE_LENGTH,
                arr@.len() == i,
                forall|j: int| 0 <= j < i ==> arr@[j] == 0u8,
            decreases SECP256K1_SIGNATURE_LENGTH - i,
        {
            arr.push(0u8);
            i += 1;
        }
        let r = Secp256K1Signature { arr };
        proof {
            assert(r@ =~= Seq::new(SECP256K1_SIGNATURE_LENGTH as nat, |i: int| 0u8));
        }
        r
    }

    /// Reads a signature from its `0x`-prefixed hexadecimal text; yields
    /// nothing when the text is malformed or does not denote 64 bytes.
    pub fn from_hex(text: String) -> (r: Option<Self>)
        ensures
            match r {
                Some(s) => s.well_formed() && signature_from_hex_spec(text@) == Some(s@),
                None => signature_from_hex_spec(text@) is None,
            },
    {
        match decode_hex_to_vec(text) {
            Some(arr) => if arr.len() == SECP256K1_SIGNATURE_LENGTH {
                Some(Secp256K1Signature { arr })
            } else {
                None
            },
            None => None,
        }
    }

    /// Copies exactly 64 bytes out of the given slice.
    pub fn from_slice(slice: &[u8]) -> (r: Self)
        requires
            slice@.len() == SECP256K1_SIGNATURE_LENGTH,
        ensures
            r.well_formed(),
            r@ == slice@,
    {
        Secp256K1Signature { arr: vstd::slice::slice_to_vec(slice) }
    }

    /// Borrows the 64 bytes.
    pub fn as_slice(&self) -> (r: &[u8])
        ensures
            r@ == self@,
    {
        self.arr.as_slice()
    }

    /// Returns a copy of the 64 bytes.
    pub fn unwrap(&self) -> (r: Vec<u8>)
        ensures
            r@ == self@,
    {
        self.arr.clone()
    }
}

} // verus!
