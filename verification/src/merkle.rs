//! Content hashing and sorted-pair Merkle proof verification, and the
//! recoverable-signature check against the trusted signer.

use vstd::prelude::*;
use vstd::string::StrSliceExecFns;
use vstd::utf8::encode_utf8;
use crate::bytes::{append_bytes, be_val, bytes_ge};
use crate::crypto::{base58_chars_of, base58_encode, ecrecover, ecrecover_of, keccak256, keccak_of};
use crate::types::{RecoveryID, Secp256K1Signature, SignerPublicKey, HASH_LENGTH};

verus! {

/// A value with a deterministic byte encoding, used as the signed
/// payload of an operation.
pub trait Data {
    /// The encoded byte form.
    spec fn data_spec(&self) -> Seq<u8>;

    /// Produces the deterministic byte encoding.
    fn get_data(&self) -> (r: Vec<u8>)
        ensures
            r@ == self.data_spec(),
    ;
}

/// The view of an optional identity text.
pub open spec fn opt_chars_view(o: Option<String>) -> Option<Seq<char>> {
    match o {
        Some(s) => Some(s@),
        None => None,
    }
}

/// An ephemeral value binding an encoded operation to its context: the
/// origin transaction hash, the target chain, the bridge identity and an
/// optional receiver. Its hash is the Merkle leaf. Never persisted.
#[derive(Debug)]
pub struct ContentNode {
    /// Hash of the origin transaction being bridged.
    pub origin: crate::types::Hash,
    pub chain: String,
    pub receiver: Option<String>,
    pub bridge: String,
    pub data: Vec<u8>,
}

/// The exact byte concatenation whose keccak-256 digest is the content
/// hash: payload, origin, chain, optional receiver, bridge identity, in
/// this order. The order is a protocol invariant shared by both chains.
pub open spec fn content_hash_input(
    data: Seq<u8>,
    origin: Seq<u8>,
    chain: Seq<char>,
    receiver: Option<Seq<char>>,
    bridge: Seq<char>,
) -> Seq<u8> {
    data + origin + encode_utf8(chain) + (match receiver {
        Some(rc) => encode_utf8(rc),
        None => Seq::<u8>::empty(),
    }) + encode_utf8(bridge)
}

impl ContentNode {
    pub open spec fn hash_input(&self) -> Seq<u8> {
        content_hash_input(
            self.data@,
            self.origin@,
            self.chain@,
            opt_chars_view(self.receiver),
            self.bridge@,
        )
    }

    pub fn new(
        origin: crate::types::Hash,
        bridge: String,
        chain: String,
        data: Vec<u8>,
        receiver: Option<String>,
    ) -> (r: Self)
        ensures
            r.origin@ == origin@,
            r.bridge@ == bridge@,
            r.chain@ == chain@,
            r.data@ == data@,
            opt_chars_view(r.receiver) == opt_chars_view(receiver),
    {
        ContentNode { origin, receiver, chain, bridge, data }
    }

    /// The content hash: the keccak-256 digest of the concatenated
    /// binding data.
    pub fn hash(self) -> (r: Vec<u8>)
        ensures
            r@ == keccak_of(self.hash_input()),
            r@.len() == HASH_LENGTH,
    {
        let mut data: Vec<u8> = Vec::new();
        append_bytes(&mut data, self.data.as_slice());
        append_bytes(&mut data, self.origin.to_slice());
        let chain_bytes: Vec<u8> = self.chain.as_str().as_bytes_vec();
        append_bytes(&mut data, chain_bytes.as_slice());
        match &self.receiver {
            Some(receiver) => {
                let receiver_bytes: Vec<u8> = receiver.as_str().as_bytes_vec();
                append_bytes(&mut data, receiver_bytes.as_slice());
            },
            None => {},
        }
        let bridge_bytes: Vec<u8> = self.bridge.as_str().as_bytes_vec();
        append_bytes(&mut data, bridge_bytes.as_slice());
        proof {
            assert(data@ =~= self.hash_input());
        }
        keccak256(&data)
    }
}

/// One folding step: the pair is ordered by big-endian value, the
/// smaller first, and hashed.
pub open spec fn sorted_pair_hash(acc: Seq<u8>, sib: Seq<u8>) -> Seq<u8> {
    if be_val(sib) >= be_val(acc) {
        keccak_of(acc + sib)
    } else {
        keccak_of(sib + acc)
    }
}

/// Folds a leaf hash through an ordered sibling path. An empty path
/// yields the leaf itself. The scheme deliberately drops left/right
/// positional information: only the pair's value order decides.
pub open spec fn merkle_fold(leaf: Seq<u8>, path: Seq<Seq<u8>>) -> Seq<u8>
    decreases path.len(),
{
    if path.len() == 0 {
        leaf
    } else {
        merkle_fold(sorted_pair_hash(leaf, path.first()), path.drop_first())
    }
}

/// The byte views of a sequence of hashes.
pub open spec fn hashes_view(path: Seq<crate::types::Hash>) -> Seq<Seq<u8>> {
    Seq::new(path.len(), |i: int| path[i]@)
}

/// Folds the content hash with the ordered sibling path into the claimed
/// Merkle root, ordering each pair as big-endian 256-bit integers.
pub fn get_merkle_root(content: ContentNode, path: &Vec<crate::types::Hash>) -> (r: crate::types::Hash)
    ensures
        r.well_formed(),
        r@ == merkle_fold(keccak_of(content.hash_input()), hashes_view(path@)),
{
    let ghost leaf0: Seq<u8> = keccak_of(content.hash_input());
    let mut hash: Vec<u8> = content.hash();
    let mut i: usize = 0;
    proof {
        assert(hashes_view(path@).skip(0) =~= hashes_view(path@));
    }
    while i < path.len()
        invariant
            i <= path@.len(),
            hash@.len() == HASH_LENGTH,
            merkle_fold(leaf0, hashes_view(path@)) == merkle_fold(
                hash@,
                hashes_view(path@).skip(i as int),
            ),
        decreases path@.len() - i,
    {
        let leaf_entry: &crate::types::Hash = &path[i];
        proof {
            use_type_invariant(leaf_entry);
        }
        let leaf: Vec<u8> = leaf_entry.unwrap();
        let ghost rest: Seq<Seq<u8>> = hashes_view(path@).skip(i as int);
        let mut cat: Vec<u8> = Vec::new();
        if bytes_ge(&leaf, &hash) {
            append_bytes(&mut cat, hash.as_slice());
            append_bytes(&mut cat, leaf.as_slice());
            proof {
                assert(cat@ =~= hash@ + leaf@);
            }
        } else {
            append_bytes(&mut cat, leaf.as_slice());
            append_bytes(&mut cat, hash.as_slice());
            proof {
                assert(cat@ =~= leaf@ + hash@);
            }
        }
        let next: Vec<u8> = keccak256(&cat);
        proof {
            assert(rest.first() == leaf@);
            assert(next@ == sorted_pair_hash(hash@, leaf@));
            assert(rest.drop_first() =~= hashes_view(path@).skip(i + 1));
        }
        hash = next;
        i += 1;
    }
    proof {
        assert(hashes_view(path@).skip(path@.len() as int) =~= Seq::<Seq<u8>>::empty());
        assert(merkle_fold(hash@, Seq::<Seq<u8>>::empty()) == hash@);
    }
    crate::types::Hash::from_vec(hash)
}

/// Whether a signature over a message was produced by the signer: the
/// key that public-key recovery yields must encode, in base-58, to
/// exactly the signer's key text.
pub open spec fn signature_matches(
    signer: Seq<char>,
    msg: Seq<u8>,
    sig: Seq<u8>,
    rid: u8,
) -> bool {
    match ecrecover_of(msg, sig, rid) {
        Some(pk) => base58_chars_of(pk) == signer,
        None => false,
    }
}

/// Recovers a public key from the signature over the message and
/// compares it to the trusted signer's key. This is the single trust
/// anchor: exactly one signer key is authoritative at any time.
pub fn verify_ecdsa_signature(
    signer: &SignerPublicKey,
    msg: &crate::types::Hash,
    signature: &Secp256K1Signature,
    recovery_id: &RecoveryID,
) -> (r: bool)
    ensures
        r == signature_matches(signer@, msg@, signature@, recovery_id@),
{
    proof {
        use_type_invariant(msg);
    }
    let msg_bytes: Vec<u8> = msg.unwrap();
    let sig_bytes: Vec<u8> = signature.unwrap();
    match ecrecover(&msg_bytes, &sig_bytes, recovery_id.unwrap()) {
        Some(public_key) => {
            let encoded: String = base58_encode(&public_key);
            let signer_text: String = signer.to_string();
            encoded == signer_text
        },
        None => false,
    }
}

} // verus!
