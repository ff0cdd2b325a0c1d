use bridge_core::merkle::{get_merkle_root, verify_ecdsa_signature, ContentNode, Data};
use bridge_core::encoder::TransferOperation;
use bridge_core::types::{RecoveryID, Secp256K1Signature, SignerPublicKey};
use sha3::Digest;

fn s(x: &str) -> String {
    x.to_string()
}

fn keccak(data: &[u8]) -> Vec<u8> {
    sha3::Keccak256::digest(data).to_vec()
}

fn test_keypair(seed: u8) -> (libsecp256k1::SecretKey, SignerPublicKey) {
    let sk = libsecp256k1::SecretKey::parse(&[seed; 32]).unwrap();
    let pk = libsecp256k1::PublicKey::from_secret_key(&sk);
    let encoded = bs58::encode(&pk.serialize()[1..]).into_string();
    (sk, SignerPublicKey::new(encoded))
}

fn sign(sk: &libsecp256k1::SecretKey, msg32: &[u8]) -> (Secp256K1Signature, RecoveryID) {
    let m = libsecp256k1::Message::parse_slice(msg32).unwrap();
    let (sig, rid) = libsecp256k1::sign(&m, sk);
    (
        Secp256K1Signature::from_slice(&sig.serialize()),
        RecoveryID::new(rid.serialize()),
    )
}

fn sample_content(receiver: Option<&str>) -> ContentNode {
    let origin = bridge_core::types::Hash::from_slice(&[3u8; 32]);
    ContentNode::new(
        origin,
        s("bridge.near"),
        s("Near"),
        TransferOperation::new_native_transfer(42).get_data(),
        receiver.map(|r| s(r)),
    )
}

#[test]
fn content_hash_is_keccak_of_concatenation() {
    let content = sample_content(Some("alice.near"));
    let mut input: Vec<u8> = Vec::new();
    input.extend_from_slice(&TransferOperation::new_native_transfer(42).get_data());
    input.extend_from_slice(&[3u8; 32]);
    input.extend_from_slice(b"Near");
    input.extend_from_slice(b"alice.near");
    input.extend_from_slice(b"bridge.near");
    assert_eq!(content.hash(), keccak(&input));
}

#[test]
fn content_hash_without_receiver_skips_it() {
    let content = sample_content(None);
    let mut input: Vec<u8> = Vec::new();
    input.extend_from_slice(&TransferOperation::new_native_transfer(42).get_data());
    input.extend_from_slice(&[3u8; 32]);
    input.extend_from_slice(b"Near");
    input.extend_from_slice(b"bridge.near");
    assert_eq!(content.hash(), keccak(&input));
}

#[test]
fn empty_path_root_is_the_leaf() {
    // With an empty sibling path the Merkle root is the leaf hash itself.
    let leaf = sample_content(Some("alice.near")).hash();
    let root = get_merkle_root(sample_content(Some("alice.near")), &Vec::new());
    assert_eq!(root.unwrap(), leaf);
}

#[test]
fn merkle_fold_orders_pairs_by_value() {
    let content = sample_content(Some("alice.near"));
    let leaf = sample_content(Some("alice.near")).hash();

    // A sibling larger than every keccak output: it goes second.
    let big = bridge_core::types::Hash::from_slice(&[0xffu8; 32]);
    let root = get_merkle_root(content, &vec![big]);
    let mut cat: Vec<u8> = leaf.clone();
    cat.extend_from_slice(&[0xffu8; 32]);
    assert_eq!(root.unwrap(), keccak(&cat));

    // A sibling smaller than every output: it goes first.
    let content2 = sample_content(Some("alice.near"));
    let small = bridge_core::types::Hash::from_slice(&[0u8; 32]);
    let root2 = get_merkle_root(content2, &vec![small]);
    let mut cat2: Vec<u8> = vec![0u8; 32];
    cat2.extend_from_slice(&leaf);
    assert_eq!(root2.unwrap(), keccak(&cat2));
}

#[test]
fn signature_verification_accepts_the_signer() {
    let (sk, signer) = test_keypair(7);
    assert!(signer.validate());
    let root = get_merkle_root(sample_content(Some("alice.near")), &Vec::new());
    let (sig, rid) = sign(&sk, root.to_slice());
    assert!(verify_ecdsa_signature(&signer, &root, &sig, &rid));
}

#[test]
fn signature_verification_rejects_the_wrong_key() {
    let (sk, _signer) = test_keypair(7);
    let (_sk2, other_signer) = test_keypair(8);
    let root = get_merkle_root(sample_content(Some("alice.near")), &Vec::new());
    let (sig, rid) = sign(&sk, root.to_slice());
    assert!(!verify_ecdsa_signature(&other_signer, &root, &sig, &rid));
}

#[test]
fn signature_verification_rejects_a_flipped_bit() {
    let (sk, signer) = test_keypair(7);
    let root = get_merkle_root(sample_content(Some("alice.near")), &Vec::new());
    let (sig, rid) = sign(&sk, root.to_slice());

    let mut tampered = root.unwrap();
    tampered[0] ^= 1;
    let tampered_hash = bridge_core::types::Hash::from_slice(&tampered);
    assert!(!verify_ecdsa_signature(&signer, &tampered_hash, &sig, &rid));

    let mut bad_sig = sig.unwrap();
    bad_sig[10] ^= 1;
    let bad = Secp256K1Signature::from_slice(&bad_sig);
    assert!(!verify_ecdsa_signature(&signer, &root, &bad, &rid));

    let wrong_rid = RecoveryID::new(rid.unwrap() ^ 1);
    assert!(!verify_ecdsa_signature(&signer, &root, &sig, &wrong_rid));
}

#[test]
fn signature_verification_rejects_an_invalid_recovery_id() {
    let (sk, signer) = test_keypair(7);
    let root = get_merkle_root(sample_content(Some("alice.near")), &Vec::new());
    let (sig, _rid) = sign(&sk, root.to_slice());
    assert!(!verify_ecdsa_signature(&signer, &root, &sig, &RecoveryID::new(9)));
}

#[test]
fn signer_key_validation() {
    let (_sk, signer) = test_keypair(9);
    assert!(signer.validate());
    // A 32-byte value encodes to too short a key.
    let short = SignerPublicKey::new(bs58::encode(&[1u8; 32]).into_string());
    assert!(!short.validate());
    // Characters outside the base-58 alphabet do not decode at all.
    let bad = SignerPublicKey::new(s("0OIl"));
    assert!(!bad.validate());
}

#[test]
fn hash_text_round_trip() {
    let h = bridge_core::types::Hash::from_slice(&[0xabu8; 32]);
    let text = h.as_str();
    assert_eq!(text.len(), 66);
    let back = bridge_core::types::Hash::from_hex(text).unwrap();
    assert_eq!(back.unwrap(), vec![0xabu8; 32]);
    // A 31-byte text is refused.
    assert!(bridge_core::types::Hash::from_hex(format!("0x{}", "ab".repeat(31))).is_none());
}

#[test]
fn signature_text_round_trip() {
    let sig = Secp256K1Signature::from_slice(&[0x5au8; 64]);
    let text = prefix_hex::encode(sig.as_slice());
    let back = Secp256K1Signature::from_hex(text).unwrap();
    assert_eq!(back.unwrap(), vec![0x5au8; 64]);
    assert!(Secp256K1Signature::from_hex(s("0x5a5a")).is_none());
}
