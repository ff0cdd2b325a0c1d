use bridge_core::fee_tokens::FeeToken;
use bridge_core::feer::{Feer, FeerError, ForwardAction, WithdrawAction, is_deposit_log_valid};
use bridge_core::feer::OperationData;
use bridge_core::feer_types::{DepositLog, FeeManageOperation, OperationType, TransferType};
use bridge_core::merkle::{get_merkle_root, ContentNode};
use bridge_core::types::{RecoveryID, SignerPublicKey, TokenType};

fn s(x: &str) -> String {
    x.to_string()
}

fn native_fee_token(fee: u128) -> FeeToken {
    FeeToken::new(None, fee, TokenType::Native)
}

fn new_feer(fee: u128) -> Feer {
    Feer::new(s("Near"), s("bridge.near"), Some(vec![native_fee_token(fee)]))
}

fn native_log(transfer_type: TransferType) -> DepositLog {
    DepositLog {
        fee_token_addr: None,
        token_addr: None,
        token_type: TokenType::Native,
        transfer_type,
        receiver: s("0xreceiver"),
        chain_to: s("Ethereum"),
        is_wrapped: false,
        bundle_data: None,
        bundle_salt: None,
    }
}

#[test]
fn deposit_log_validation() {
    let fee = native_log(TransferType::Fee);
    assert!(is_deposit_log_valid(&fee, TokenType::Native, None));

    // A fee leg delivered by a token contract must name that contract.
    assert!(!is_deposit_log_valid(&fee, TokenType::FT, Some(s("tok.near"))));

    let mut dep = native_log(TransferType::Deposit);
    assert!(is_deposit_log_valid(&dep, TokenType::Native, None));
    dep.token_addr = Some(s("tok.near"));
    assert!(!is_deposit_log_valid(&dep, TokenType::Native, None));

    let mut empty_receiver = native_log(TransferType::Fee);
    empty_receiver.receiver = s("");
    assert!(!is_deposit_log_valid(&empty_receiver, TokenType::Native, None));

    let mut empty_chain = native_log(TransferType::Fee);
    empty_chain.chain_to = s("");
    assert!(!is_deposit_log_valid(&empty_chain, TokenType::Native, None));
}

#[test]
fn fee_then_deposit_completes_and_forwards_once() {
    let mut feer = new_feer(10);
    assert!(feer.internal_register_account(&s("alice.near")));
    assert!(!feer.internal_register_account(&s("alice.near")));

    let fee = feer.charge_native(s("alice.near"), native_log(TransferType::Fee), 10);
    assert!(fee.unwrap().is_none());

    let done = feer.charge_native(s("alice.near"), native_log(TransferType::Deposit), 500);
    match done.unwrap().unwrap() {
        ForwardAction::NativeDeposit { bridge_addr, receiver, chain_to, attached, .. } => {
            assert_eq!(bridge_addr, "bridge.near");
            assert_eq!(receiver, "0xreceiver");
            assert_eq!(chain_to, "Ethereum");
            assert_eq!(attached, 500);
        },
        _ => panic!("expected a native forward"),
    }

    // The record is reset: the next leg starts a fresh deposit.
    let op = feer.get_deposit_op(s("alice.near")).unwrap();
    assert!(!op.fee_charged && !op.deposited);
    assert!(op.msg.is_none());
}

#[test]
fn deposit_then_fee_completes_the_same_way() {
    let mut feer = new_feer(10);
    assert!(feer.internal_register_account(&s("bob.near")));

    let dep = feer.charge_native(s("bob.near"), native_log(TransferType::Deposit), 500);
    assert!(dep.unwrap().is_none());

    let done = feer.charge_native(s("bob.near"), native_log(TransferType::Fee), 10);
    match done.unwrap().unwrap() {
        ForwardAction::NativeDeposit { receiver, attached, .. } => {
            assert_eq!(receiver, "0xreceiver");
            assert_eq!(attached, 500);
        },
        _ => panic!("expected a native forward"),
    }
}

#[test]
fn a_repeated_leg_is_rejected() {
    let mut feer = new_feer(10);
    assert!(feer.internal_register_account(&s("carol.near")));
    assert!(feer.charge_native(s("carol.near"), native_log(TransferType::Fee), 10).is_ok());
    let again = feer.charge_native(s("carol.near"), native_log(TransferType::Fee), 10);
    assert!(matches!(again, Err(FeerError::ChargeFailed)));
    // The record still holds exactly the first leg.
    let op = feer.get_deposit_op(s("carol.near")).unwrap();
    assert!(op.fee_charged && !op.deposited);
}

#[test]
fn a_conflicting_second_leg_is_rejected() {
    let mut feer = new_feer(10);
    assert!(feer.internal_register_account(&s("dave.near")));
    assert!(feer.charge_native(s("dave.near"), native_log(TransferType::Fee), 10).is_ok());

    let mut conflicting = native_log(TransferType::Deposit);
    conflicting.receiver = s("0xother");
    let r = feer.charge_native(s("dave.near"), conflicting, 500);
    assert!(matches!(r, Err(FeerError::ChargeFailed)));
    let op = feer.get_deposit_op(s("dave.near")).unwrap();
    assert!(op.fee_charged && !op.deposited);
}

#[test]
fn a_wrong_fee_amount_is_rejected() {
    let mut feer = new_feer(10);
    assert!(feer.internal_register_account(&s("erin.near")));
    assert!(matches!(
        feer.charge_native(s("erin.near"), native_log(TransferType::Fee), 9),
        Err(FeerError::ChargeFailed)
    ));
    assert!(matches!(
        feer.charge_native(s("erin.near"), native_log(TransferType::Fee), 11),
        Err(FeerError::ChargeFailed)
    ));
}

#[test]
fn an_unregistered_account_is_rejected() {
    let mut feer = new_feer(10);
    assert!(matches!(
        feer.charge_native(s("nobody.near"), native_log(TransferType::Fee), 10),
        Err(FeerError::ChargeFailed)
    ));
}

#[test]
fn an_unknown_fee_token_is_rejected() {
    let mut feer = new_feer(10);
    assert!(feer.internal_register_account(&s("fred.near")));
    let mut log = native_log(TransferType::Fee);
    log.fee_token_addr = Some(s("unknown.near"));
    // The log itself is invalid for a native charge; a fee leg naming an
    // unregistered fee token is rejected by the merge as well.
    assert!(feer.charge_native(s("fred.near"), log, 10).is_err());
}

#[test]
fn handle_transfer_receiver_merges_token_legs() {
    let mut feer = Feer::new(
        s("Near"),
        s("bridge.near"),
        Some(vec![FeeToken::new(Some(s("fee.near")), 3, TokenType::FT)]),
    );
    assert!(feer.internal_register_account(&s("gina.near")));

    let ft_log = DepositLog {
        fee_token_addr: Some(s("fee.near")),
        token_addr: Some(s("asset.near")),
        token_type: TokenType::FT,
        transfer_type: TransferType::Fee,
        receiver: s("0xreceiver"),
        chain_to: s("Ethereum"),
        is_wrapped: true,
        bundle_data: None,
        bundle_salt: None,
    };
    assert!(is_deposit_log_valid(&ft_log, TokenType::FT, Some(s("fee.near"))));
    assert!(feer.handle_transfer_receiver(s("gina.near"), &ft_log, Some(3), None));

    let mut dep_log = ft_log.duplicate();
    dep_log.transfer_type = TransferType::Deposit;
    assert!(feer.handle_transfer_receiver(s("gina.near"), &dep_log, Some(250), None));

    let action = feer.complete_deposit(s("gina.near")).unwrap().unwrap();
    match action {
        ForwardAction::FtTransferCall { token, bridge_addr, amount, msg } => {
            assert_eq!(token, "asset.near");
            assert_eq!(bridge_addr, "bridge.near");
            assert_eq!(amount, 250);
            assert_eq!(msg.sender, "gina.near");
            assert_eq!(msg.receiver, "0xreceiver");
            assert_eq!(msg.chain_to, "Ethereum");
            assert!(msg.is_wrapped);
        },
        _ => panic!("expected a fungible forward"),
    }
}

#[test]
fn fee_token_registry_operations() {
    let mut feer = new_feer(10);
    assert!(feer.get_fee_token(None).is_some());
    assert!(feer.get_fee_token(Some(s("tok.near"))).is_none());

    assert!(feer.tokens.add_fee_token(FeeToken::new(Some(s("tok.near")), 7, TokenType::FT)));
    // A second entry under the same identity is refused.
    assert!(!feer.tokens.add_fee_token(FeeToken::new(Some(s("tok.near")), 9, TokenType::FT)));

    feer.tokens.update_fee_token(FeeToken::new(Some(s("tok.near")), 9, TokenType::FT));
    assert_eq!(feer.get_fee_token(Some(s("tok.near"))).unwrap().fee, 9);
    // Updating an unknown identity changes nothing.
    feer.tokens.update_fee_token(FeeToken::new(Some(s("ghost.near")), 1, TokenType::FT));
    assert_eq!(feer.get_fee_tokens().len(), 2);

    feer.tokens.remove_fee_token(Some(s("tok.near")));
    assert!(feer.get_fee_token(Some(s("tok.near"))).is_none());
    assert_eq!(feer.get_fee_tokens().len(), 1);
}

fn test_keypair(seed: u8) -> (libsecp256k1::SecretKey, SignerPublicKey) {
    let sk = libsecp256k1::SecretKey::parse(&[seed; 32]).unwrap();
    let pk = libsecp256k1::PublicKey::from_secret_key(&sk);
    let encoded = bs58::encode(&pk.serialize()[1..]).into_string();
    (sk, SignerPublicKey::new(encoded))
}

fn signed_fee_operation(
    sk: &libsecp256k1::SecretKey,
    op_type: OperationType,
    token: FeeToken,
    amount: Option<u128>,
    origin_byte: u8,
    receiver: Option<String>,
) -> FeeManageOperation {
    let payload = OperationData::new(op_type, token.duplicate(), amount).get_data();
    let origin = bridge_core::types::Hash::from_slice(&[origin_byte; 32]);
    let content = ContentNode::new(origin, s("bridge.near"), s("Near"), payload, receiver);
    let root = get_merkle_root(content, &Vec::new());
    let m = libsecp256k1::Message::parse_slice(root.to_slice()).unwrap();
    let (sig, rid) = libsecp256k1::sign(&m, sk);
    FeeManageOperation {
        token,
        origin: prefix_hex::encode(&[origin_byte; 32][..]),
        path: Vec::new(),
        signature: prefix_hex::encode(&sig.serialize()[..]),
        recovery_id: RecoveryID::new(rid.serialize()),
    }
}

#[test]
fn fee_token_admin_operations_authenticate_against_the_bridge_signer() {
    let (sk, signer) = test_keypair(3);
    let mut feer = new_feer(10);
    let account = s("feer.near");
    let new_token = FeeToken::new(Some(s("paid.near")), 4, TokenType::FT);

    let op = signed_fee_operation(
        &sk,
        OperationType::AddFeeToken,
        new_token.duplicate(),
        None,
        0x51,
        None,
    );
    assert!(feer.add_fee_token_callback(&signer, op, &account).is_ok());
    assert_eq!(feer.get_fee_token(Some(s("paid.near"))).unwrap().fee, 4);

    // Re-registering the same identity is refused before any check.
    let op = signed_fee_operation(
        &sk,
        OperationType::AddFeeToken,
        new_token.duplicate(),
        None,
        0x52,
        None,
    );
    assert_eq!(feer.add_fee_token_callback(&signer, op, &account), Err(FeerError::TokenExists));

    // An update with a fresh origin succeeds; replaying it fails on the
    // ledger.
    let updated = FeeToken::new(Some(s("paid.near")), 6, TokenType::FT);
    let op = signed_fee_operation(
        &sk,
        OperationType::UpdateFeeToken,
        updated.duplicate(),
        None,
        0x53,
        None,
    );
    let replay = FeeManageOperation {
        token: op.token.duplicate(),
        origin: op.origin.clone(),
        path: Vec::new(),
        signature: op.signature.clone(),
        recovery_id: op.recovery_id,
    };
    assert!(feer.update_fee_token_callback(&signer, op, &account).is_ok());
    assert_eq!(feer.get_fee_token(Some(s("paid.near"))).unwrap().fee, 6);
    assert_eq!(
        feer.update_fee_token_callback(&signer, replay, &account),
        Err(FeerError::HashAlreadyUsed)
    );

    // A signature from another key is refused.
    let (other_sk, _other) = test_keypair(4);
    let op = signed_fee_operation(
        &other_sk,
        OperationType::RemoveFeeToken,
        new_token.duplicate(),
        None,
        0x54,
        None,
    );
    assert_eq!(
        feer.remove_fee_token_callback(&signer, op, &account),
        Err(FeerError::SignatureMismatch)
    );

    // A correctly signed removal goes through.
    let op = signed_fee_operation(
        &sk,
        OperationType::RemoveFeeToken,
        new_token,
        None,
        0x55,
        None,
    );
    assert!(feer.remove_fee_token_callback(&signer, op, &account).is_ok());
    assert!(feer.get_fee_token(Some(s("paid.near"))).is_none());
}

#[test]
fn fee_withdrawal_authenticates_and_decides_the_transfer() {
    let (sk, signer) = test_keypair(3);
    let mut feer = new_feer(10);
    let account = s("feer.near");

    // A withdrawal binds the fee collector's own identity as receiver.
    let op = signed_fee_operation(
        &sk,
        OperationType::Withdraw,
        native_fee_token(10),
        Some(123),
        0x61,
        Some(account.clone()),
    );
    let action = feer.withdraw_callback(&signer, op, 123, s("treasury.near"), &account).unwrap();
    match action {
        WithdrawAction::NativeTransfer { receiver, amount } => {
            assert_eq!(receiver, "treasury.near");
            assert_eq!(amount, 123);
        },
        _ => panic!("expected a native transfer"),
    }

    // Non-fungible fee tokens cannot be withdrawn.
    let nft = FeeToken::new(Some(s("nft.near")), 1, TokenType::NFT);
    let op = signed_fee_operation(
        &sk,
        OperationType::Withdraw,
        nft,
        Some(1),
        0x62,
        Some(account.clone()),
    );
    assert!(matches!(
        feer.withdraw_callback(&signer, op, 1, s("treasury.near"), &account),
        Err(FeerError::UnsupportedToken)
    ));
}

#[test]
fn account_registration_lifecycle() {
    let mut feer = new_feer(10);
    assert!(feer.internal_register_account(&s("henry.near")));

    // A busy record refuses to unregister without force.
    assert!(feer.charge_native(s("henry.near"), native_log(TransferType::Fee), 10).is_ok());
    assert!(matches!(
        feer.internal_storage_unregister(s("henry.near"), None),
        Err(FeerError::AccountBusy)
    ));
    let r = feer.internal_storage_unregister(s("henry.near"), Some(true)).unwrap().unwrap();
    assert_eq!(r.0, "henry.near");
    assert!(r.1.fee_charged);
    assert!(matches!(feer.internal_storage_unregister(s("henry.near"), None), Ok(None)));
}

#[test]
fn event_records_carry_their_fields() {
    let data = bridge_core::events::NativeDepositedData::new(
        55,
        &s("alice.near"),
        &s("0xreceiver"),
        &s("Ethereum"),
        None,
        Some(s("salt")),
    );
    assert_eq!(data.amount, 55);
    assert_eq!(data.sender, "alice.near");
    assert_eq!(data.bundle_salt, Some(s("salt")));
    let event = bridge_core::events::NearEvent::native_deposited(vec![data]);
    match event {
        bridge_core::events::NearEvent::Native(e) => {
            assert_eq!(e.version, "1.0.0");
        },
        _ => panic!("expected a native event"),
    }

    let path = vec![
        bridge_core::types::Hash::from_slice(&[1u8; 32]),
        bridge_core::types::Hash::from_slice(&[2u8; 32]),
    ];
    let rendered = bridge_core::events::path_to_str_vec(path);
    assert_eq!(rendered[0], format!("0x{}", "01".repeat(32)));
    assert_eq!(rendered[1], format!("0x{}", "02".repeat(32)));
}
