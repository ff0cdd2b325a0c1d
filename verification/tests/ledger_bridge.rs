use bridge_core::bridge::{Bridge, BridgeError};
use bridge_core::hashes::Hashes;
use bridge_core::merkle::{get_merkle_root, ContentNode, Data};
use bridge_core::encoder::{TransferFullMetaOperation, TransferOperation};
use bridge_core::types::{RecoveryID, SignerPublicKey};

fn s(x: &str) -> String {
    x.to_string()
}

fn test_keypair(seed: u8) -> (libsecp256k1::SecretKey, SignerPublicKey) {
    let sk = libsecp256k1::SecretKey::parse(&[seed; 32]).unwrap();
    let pk = libsecp256k1::PublicKey::from_secret_key(&sk);
    let encoded = bs58::encode(&pk.serialize()[1..]).into_string();
    (sk, SignerPublicKey::new(encoded))
}

fn sign_hex(sk: &libsecp256k1::SecretKey, msg32: &[u8]) -> (String, RecoveryID) {
    let m = libsecp256k1::Message::parse_slice(msg32).unwrap();
    let (sig, rid) = libsecp256k1::sign(&m, sk);
    (prefix_hex::encode(&sig.serialize()[..]), RecoveryID::new(rid.serialize()))
}

fn new_bridge(seed: u8) -> (libsecp256k1::SecretKey, Bridge) {
    let (sk, signer) = test_keypair(seed);
    let bridge = Bridge::new(signer, s("feer.near"), s("Near")).unwrap();
    (sk, bridge)
}

#[test]
fn ledger_consumes_a_hash_exactly_once() {
    let mut ledger = Hashes::new();
    let h = bridge_core::types::Hash::from_slice(&[1u8; 32]);
    assert!(ledger.check_hash(&h));
    assert!(!ledger.check_hash(&h));
    assert!(!ledger.check_hash(&h));
    // The compensating rollback frees the hash for exactly one more use.
    ledger.change_hash(&h, false);
    assert!(ledger.check_hash(&h));
    assert!(!ledger.check_hash(&h));
    // An unrelated hash is unaffected.
    let other = bridge_core::types::Hash::from_slice(&[2u8; 32]);
    assert!(ledger.check_hash(&other));
}

#[test]
fn bridge_construction_validates_its_arguments() {
    let (_sk, signer) = test_keypair(5);
    assert!(matches!(
        Bridge::new(signer, s("feer.near"), s("")),
        Err(BridgeError::EmptyChain)
    ));
    let bad = SignerPublicKey::new(s("abc"));
    assert!(matches!(
        Bridge::new(bad, s("feer.near"), s("Near")),
        Err(BridgeError::InvalidSigner)
    ));
    let (_sk, signer) = test_keypair(5);
    let bridge = Bridge::new(signer, s("feer.near"), s("Near")).unwrap();
    assert_eq!(bridge.get_chain(), "Near");
    assert_eq!(bridge.get_fee_contract(), "feer.near");
    assert_eq!(bridge.nonce, 0);
}

#[test]
fn admin_operation_advances_the_nonce_and_rejects_replays() {
    let (sk, mut bridge) = new_bridge(6);
    let account = s("bridge.near");

    let hash = bridge.get_authorized_operation_hash(s("newfee.near"), &account);
    let (sig_hex, rid) = sign_hex(&sk, hash.to_slice());
    assert!(bridge.set_fee_contract(s("newfee.near"), sig_hex.clone(), rid, &account).is_ok());
    assert_eq!(bridge.nonce, 1);
    assert_eq!(bridge.get_fee_contract(), "newfee.near");

    // The same signed message carries the stale nonce: rejected.
    assert!(matches!(
        bridge.set_fee_contract(s("newfee.near"), sig_hex, rid, &account),
        Err(BridgeError::SignatureMismatch)
    ));
    assert_eq!(bridge.nonce, 1);

    // After two more successes the nonce is the initial value plus three.
    for expected in [2u128, 3u128] {
        let hash = bridge.get_authorized_operation_hash(s("newfee.near"), &account);
        let (sig_hex, rid) = sign_hex(&sk, hash.to_slice());
        assert!(bridge.set_fee_contract(s("newfee.near"), sig_hex, rid, &account).is_ok());
        assert_eq!(bridge.nonce, expected);
    }
}

#[test]
fn malformed_admin_signature_is_refused() {
    let (_sk, mut bridge) = new_bridge(6);
    let account = s("bridge.near");
    assert!(matches!(
        bridge.set_fee_contract(s("x.near"), s("0x1234"), RecoveryID::new(0), &account),
        Err(BridgeError::MalformedSignature)
    ));
    assert_eq!(bridge.nonce, 0);
    assert_eq!(bridge.get_fee_contract(), "feer.near");
}

#[test]
fn signer_rotation_requires_a_valid_new_key() {
    let (sk, mut bridge) = new_bridge(6);
    let (_sk2, new_signer) = test_keypair(7);
    let account = s("bridge.near");

    let hash = bridge.get_authorized_operation_hash(new_signer.to_string(), &account);
    let (sig_hex, rid) = sign_hex(&sk, hash.to_slice());
    assert!(bridge.set_signer(new_signer.clone(), sig_hex, rid, &account).is_ok());
    assert_eq!(bridge.get_signer().to_string(), new_signer.to_string());

    // The old key no longer authorizes anything.
    let hash = bridge.get_authorized_operation_hash(s("pause"), &account);
    let (old_sig, old_rid) = sign_hex(&sk, hash.to_slice());
    assert!(matches!(
        bridge.pause_bridge(old_sig, old_rid, &account),
        Err(BridgeError::SignatureMismatch)
    ));

    let invalid = SignerPublicKey::new(s("tooshort"));
    let hash = bridge.get_authorized_operation_hash(invalid.to_string(), &account);
    let (sig_hex, rid) = sign_hex(&sk, hash.to_slice());
    assert!(matches!(
        bridge.set_signer(invalid, sig_hex, rid, &account),
        Err(BridgeError::InvalidSigner)
    ));
}

#[test]
fn pause_blocks_withdrawals_until_resume() {
    let (sk, mut bridge) = new_bridge(6);
    let account = s("bridge.near");

    let hash = bridge.get_authorized_operation_hash(s("pause"), &account);
    let (sig_hex, rid) = sign_hex(&sk, hash.to_slice());
    assert!(bridge.pause_bridge(sig_hex, rid, &account).is_ok());
    assert!(bridge.paused);

    let r = bridge.ft_withdraw(
        s("tok.near"),
        5,
        s("alice.near"),
        false,
        s("0x0101"),
        &Vec::new(),
        s("0x00"),
        RecoveryID::new(0),
        &account,
    );
    assert!(matches!(r, Err(BridgeError::Paused)));

    let hash = bridge.get_authorized_operation_hash(s("resume"), &account);
    let (sig_hex, rid) = sign_hex(&sk, hash.to_slice());
    assert!(bridge.resume_bridge(sig_hex, rid, &account).is_ok());
    assert!(!bridge.paused);
    assert_eq!(bridge.nonce, 2);
}

#[test]
fn ft_withdraw_accepts_a_signed_proof_once() {
    let (sk, mut bridge) = new_bridge(6);
    let account = s("bridge.near");
    let origin_hex = prefix_hex::encode(&[0x11u8; 32][..]);

    // The signed root binds the encoded transfer to origin, chain,
    // receiver and bridge identity, folded with the (empty) path.
    let origin = bridge_core::types::Hash::from_slice(&[0x11u8; 32]);
    let payload = TransferFullMetaOperation::new_ft_transfer(s("tok.near"), 5).get_data();
    let content = ContentNode::new(origin, account.clone(), s("Near"), payload, Some(s("alice.near")));
    let root = get_merkle_root(content, &Vec::new());
    let (sig_hex, rid) = sign_hex(&sk, root.to_slice());

    let r = bridge.ft_withdraw(
        s("tok.near"),
        5,
        s("alice.near"),
        false,
        origin_hex.clone(),
        &Vec::new(),
        sig_hex.clone(),
        rid,
        &account,
    );
    assert_eq!(r.unwrap().unwrap(), vec![0x11u8; 32]);

    // Replaying the same proof fails on the ledger.
    let r = bridge.ft_withdraw(
        s("tok.near"),
        5,
        s("alice.near"),
        false,
        origin_hex.clone(),
        &Vec::new(),
        sig_hex.clone(),
        rid,
        &account,
    );
    assert!(matches!(r, Err(BridgeError::HashAlreadyUsed)));

    // A rollback after a failed downstream call frees the hash again.
    let origin = bridge_core::types::Hash::from_slice(&[0x11u8; 32]);
    bridge.handle_hash_callback(false, &origin);
    let r = bridge.ft_withdraw(
        s("tok.near"),
        5,
        s("alice.near"),
        false,
        origin_hex,
        &Vec::new(),
        sig_hex,
        rid,
        &account,
    );
    assert!(r.is_ok());
}

#[test]
fn ft_withdraw_rejects_any_changed_input() {
    let (sk, mut bridge) = new_bridge(6);
    let account = s("bridge.near");
    let origin_hex = prefix_hex::encode(&[0x22u8; 32][..]);

    let origin = bridge_core::types::Hash::from_slice(&[0x22u8; 32]);
    let payload = TransferFullMetaOperation::new_ft_transfer(s("tok.near"), 5).get_data();
    let content = ContentNode::new(origin, account.clone(), s("Near"), payload, Some(s("alice.near")));
    let root = get_merkle_root(content, &Vec::new());
    let (sig_hex, rid) = sign_hex(&sk, root.to_slice());

    // A different amount changes the root: the signature no longer fits.
    let r = bridge.ft_withdraw(
        s("tok.near"),
        6,
        s("alice.near"),
        false,
        origin_hex.clone(),
        &Vec::new(),
        sig_hex.clone(),
        rid,
        &account,
    );
    assert!(matches!(r, Err(BridgeError::SignatureMismatch)));

    // A different receiver as well.
    let r = bridge.ft_withdraw(
        s("tok.near"),
        5,
        s("mallory.near"),
        false,
        origin_hex.clone(),
        &Vec::new(),
        sig_hex.clone(),
        rid,
        &account,
    );
    assert!(matches!(r, Err(BridgeError::SignatureMismatch)));

    // An extra path element as well.
    let extra = vec![bridge_core::types::Hash::from_slice(&[9u8; 32])];
    let r = bridge.ft_withdraw(
        s("tok.near"),
        5,
        s("alice.near"),
        false,
        origin_hex.clone(),
        &extra,
        sig_hex.clone(),
        rid,
        &account,
    );
    assert!(matches!(r, Err(BridgeError::SignatureMismatch)));

    // Malformed texts are refused before any cryptography.
    let r = bridge.ft_withdraw(
        s("tok.near"),
        5,
        s("alice.near"),
        false,
        s("11"),
        &Vec::new(),
        sig_hex,
        rid,
        &account,
    );
    assert!(matches!(r, Err(BridgeError::MalformedOrigin)));
    assert_eq!(bridge.nonce, 0);
}

#[test]
fn native_withdraw_parses_the_amount() {
    let (sk, mut bridge) = new_bridge(6);
    let account = s("bridge.near");
    let origin_hex = prefix_hex::encode(&[0x33u8; 32][..]);

    let origin = bridge_core::types::Hash::from_slice(&[0x33u8; 32]);
    let payload = TransferOperation::new_native_transfer(12345).get_data();
    let content = ContentNode::new(origin, account.clone(), s("Near"), payload, Some(s("alice.near")));
    let root = get_merkle_root(content, &Vec::new());
    let (sig_hex, rid) = sign_hex(&sk, root.to_slice());

    let r = bridge.native_withdraw(
        s("alice.near"),
        s("12345"),
        origin_hex.clone(),
        &Vec::new(),
        sig_hex.clone(),
        rid,
        &account,
    );
    assert_eq!(r.unwrap().unwrap(), vec![0x33u8; 32]);

    let r = bridge.native_withdraw(
        s("alice.near"),
        s("12x45"),
        origin_hex,
        &Vec::new(),
        sig_hex,
        rid,
        &account,
    );
    assert!(matches!(r, Err(BridgeError::MalformedAmount)));
}

#[test]
fn nft_withdraw_signs_the_full_metadata() {
    let (sk, mut bridge) = new_bridge(6);
    let account = s("bridge.near");
    let origin_hex = prefix_hex::encode(&[0x44u8; 32][..]);

    let origin = bridge_core::types::Hash::from_slice(&[0x44u8; 32]);
    let payload = TransferFullMetaOperation::new_nft_transfer(
        s("7"),
        Some(s("nft.near")),
        s("title"),
        s("https://m"),
        vec![1, 2, 3],
    )
    .get_data();
    let content = ContentNode::new(origin, account.clone(), s("Near"), payload, Some(s("alice.near")));
    let root = get_merkle_root(content, &Vec::new());
    let (sig_hex, rid) = sign_hex(&sk, root.to_slice());

    let r = bridge.internal_nft_withdraw(
        s("nft.near"),
        s("7"),
        s("alice.near"),
        s("title"),
        s("https://m"),
        vec![1, 2, 3],
        true,
        origin_hex.clone(),
        &Vec::new(),
        sig_hex.clone(),
        rid,
        &account,
    );
    assert!(r.is_ok());

    // A different title invalidates the proof.
    let r = bridge.internal_nft_withdraw(
        s("nft.near"),
        s("7"),
        s("alice.near"),
        s("other title"),
        s("https://m"),
        vec![1, 2, 3],
        true,
        prefix_hex::encode(&[0x45u8; 32][..]),
        &Vec::new(),
        sig_hex,
        rid,
        &account,
    );
    assert!(matches!(r, Err(BridgeError::SignatureMismatch)));
}

#[test]
fn native_deposit_gatekeeping() {
    let (_sk, bridge) = new_bridge(6);
    assert!(bridge.native_deposit(&s("feer.near"), 10).is_ok());
    assert!(matches!(
        bridge.native_deposit(&s("mallory.near"), 10),
        Err(BridgeError::Unauthorized)
    ));
    assert!(matches!(
        bridge.native_deposit(&s("feer.near"), 0),
        Err(BridgeError::EmptyDeposit)
    ));
}

#[test]
fn deposit_notice_gatekeeping() {
    let (_sk, mut bridge) = new_bridge(6);
    assert!(bridge.accept_deposit_notice(&s("feer.near")).is_ok());
    assert!(matches!(
        bridge.accept_deposit_notice(&s("mallory.near")),
        Err(BridgeError::Unauthorized)
    ));
    bridge.paused = true;
    assert!(matches!(
        bridge.accept_deposit_notice(&s("feer.near")),
        Err(BridgeError::Paused)
    ));
}

#[test]
fn contract_update_is_nonce_protected() {
    let (sk, mut bridge) = new_bridge(6);
    let account = s("bridge.near");
    let code: Vec<u8> = vec![0u8, 1, 2, 3];
    // The signed hash covers the code digest and the nonce; signing an
    // admin value does not authorize an upgrade.
    let wrong = bridge.get_authorized_operation_hash(s("pause"), &account);
    let (wrong_sig, wrong_rid) = sign_hex(&sk, wrong.to_slice());
    assert!(matches!(
        bridge.update_contract(&code, wrong_sig, wrong_rid, &account),
        Err(BridgeError::SignatureMismatch)
    ));
    assert_eq!(bridge.nonce, 0);
}
