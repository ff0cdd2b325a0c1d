//! Trusted boundary to the cryptographic primitives the core consumes:
//! the keccak-256 digest, secp256k1 public-key recovery, and the base-58
//! textual form of public keys. Each result is named by an
//! uninterpreted spec function: the library's contracts speak of those
//! names, and nothing else is assumed of the primitives.

use vstd::prelude::*;
use sha3::Digest;
use crate::hex::opt_bytes_view;

verus! {

/// The 32-byte keccak-256 digest of a byte sequence.
pub uninterp spec fn keccak_of(data: Seq<u8>) -> Seq<u8>;

/// Relies on `sha3::Keccak256`: the 32-byte keccak-256 digest of the
/// input, a function of the input alone.
#[verifier::external_body]
pub(crate) fn keccak256(data: &Vec<u8>) -> (r: Vec<u8>)
    ensures
        r@ == keccak_of(data@),
        r@.len() == 32,
{
    sha3::Keccak256::digest(data.as_slice()).to_vec()
}

/// The public key that secp256k1 recovery yields for a 32-byte message
/// hash, a 64-byte signature and a recovery id, or nothing when recovery
/// fails.
pub uninterp spec fn ecrecover_of(msg: Seq<u8>, sig: Seq<u8>, rid: u8) -> Option<Seq<u8>>;

/// Relies on `libsecp256k1::recover` (with `Message::parse`,
/// `Signature::parse_standard_slice`, `RecoveryId::parse` and
/// `PublicKey::serialize`): public-key recovery from a 32-byte message
/// hash, a function of the arguments alone. The 65-byte serialized key
/// carries a constant leading tag byte, which is dropped, leaving the
/// 64-byte key. Recovery fails on a malformed signature or recovery id.
#[verifier::external_body]
pub(crate) fn ecrecover(msg: &Vec<u8>, sig: &Vec<u8>, recovery_id: u8) -> (r: Option<Vec<u8>>)
    requires
        msg@.len() == 32,
    ensures
        opt_bytes_view(r) == ecrecover_of(msg@, sig@, recovery_id),
        r matches Some(v) ==> v@.len() == 64,
{
    let mut m = [0u8; 32];
    m.copy_from_slice(msg.as_slice());
    let message = libsecp256k1::Message::parse(&m);
    let signature = libsecp256k1::Signature::parse_standard_slice(sig.as_slice()).ok()?;
    let rid = libsecp256k1::RecoveryId::parse(recovery_id).ok()?;
    let pk = libsecp256k1::recover(&message, &signature, &rid).ok()?;
    Some(pk.serialize()[1..].to_vec())
}

/// The base-58 text of a byte sequence.
pub uninterp spec fn base58_chars_of(data: Seq<u8>) -> Seq<char>;

/// Relies on `bs58::encode`: the Bitcoin-alphabet base-58 text of the
/// input, a function of the input alone.
#[verifier::external_body]
pub(crate) fn base58_encode(data: &Vec<u8>) -> (r: String)
    ensures
        r@ == base58_chars_of(data@),
{
    bs58::encode(data.as_slice()).into_string()
}

/// The bytes a base-58 text denotes, or nothing for a malformed text.
pub uninterp spec fn base58_bytes_of(text: Seq<char>) -> Option<Seq<u8>>;

/// Relies on `bs58::decode`: the bytes denoted by a Bitcoin-alphabet
/// base-58 text, or nothing when the text holds a character outside the
/// alphabet; a function of the input alone.
#[verifier::external_body]
pub(crate) fn base58_decode(text: &String) -> (r: Option<Vec<u8>>)
    ensures
        opt_bytes_view(r) == base58_bytes_of(text@),
{
    bs58::decode(text.as_str()).into_vec().ok()
}

} // verus!
