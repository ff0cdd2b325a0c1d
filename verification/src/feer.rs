//! The fee collector: validates deposit legs, merges them per account
//! exactly once, decides the forwarding call once both legs are in, and
//! authenticates fee-token admin operations against the bridge's signer.

use vstd::prelude::*;
use vstd::utf8::encode_utf8;
use crate::bytes::{append_bytes, be32_of, u128_to_bytes};
use crate::crypto::keccak_of;
use crate::deposit_operation::{empty_op, op_matches_log, populated_op, DepositOperation};
use crate::deposits::DepositsManager;
use crate::fee_tokens::{find_token, FeeToken, FeeTokensManager};
use crate::feer_types::{
    opt_string_duplicate, transfer_log_eq, DepositLog, TransferLog, TransferType,
};
use crate::feer_types::{op_type_tag, FeeManageOperation, OperationType};
use crate::hashes::{consumed, Hashes};
use crate::merkle::{
    content_hash_input, get_merkle_root, hashes_view, merkle_fold, opt_chars_view,
    verify_ecdsa_signature, signature_matches, ContentNode,
};
use crate::types::{
    hash_from_hex_spec, signature_from_hex_spec, RecoveryID, Secp256K1Signature, SignerPublicKey,
    TokenType,
};

verus! {

/// Why a fee-collector operation was refused. Soft rejections of a
/// deposit leg are returned as `false` from the merge instead, so a
/// calling token contract does not treat them as fatal.
#[derive(Clone, Copy, Debug, PartialEq, Eq, Structural)]
pub enum FeerError {
    /// The deposit log fails leg validation.
    InvalidDepositLog,
    /// The leg was rejected by the merge.
    ChargeFailed,
    /// No record exists for the account.
    UnknownAccount,
    /// The account's record still carries an unfinished deposit.
    AccountBusy,
    /// The record lacks a token kind.
    MissingTokenType,
    /// The record lacks an amount.
    MissingAmount,
    /// The record lacks a token identity.
    MissingTokenAddr,
    /// The record lacks a token instance id.
    MissingTokenId,
    /// The record lacks a canonical message.
    MissingMsg,
    /// The record lacks a receiver.
    MissingReceiver,
    /// A fee token with this identity is already registered.
    TokenExists,
    /// Fee withdrawal supports the native asset and fungible tokens only.
    UnsupportedToken,
    /// The signature text is not well-formed 64-byte prefixed hex.
    MalformedSignature,
    /// The origin text is not well-formed 32-byte prefixed hex.
    MalformedOrigin,
    /// Recovery failed or the recovered key is not the bridge's signer.
    SignatureMismatch,
    /// The origin hash was already consumed.
    HashAlreadyUsed,
}

/// The one outbound forwarding call a completed deposit dispatches.
#[derive(Debug)]
pub enum ForwardAction {
    /// A native balance deposit into the bridge.
    NativeDeposit {
        bridge_addr: String,
        receiver: String,
        chain_to: String,
        bundle_data: Option<String>,
        bundle_salt: Option<String>,
        attached: u128,
    },
    /// A fungible transfer into the bridge carrying the message.
    FtTransferCall { token: String, bridge_addr: String, amount: u128, msg: TransferLog },
    /// A non-fungible transfer into the bridge carrying the message.
    NftTransferCall { token: String, bridge_addr: String, token_id: String, msg: TransferLog },
}

/// The fee collector's persisted state.
pub struct Feer {
    pub chain: String,
    pub bridge_addr: String,
    pub hashes: Hashes,
    pub tokens: FeeTokensManager,
    pub deposit_operations: DepositsManager,
}

/// Whether a deposit leg's log is internally consistent with the kind of
/// transfer that delivered it and the token contract that sent it.
pub open spec fn deposit_log_valid(
    log: DepositLog,
    token_type: TokenType,
    token: Option<String>,
) -> bool {
    &&& match log.transfer_type {
        TransferType::Fee => {
            &&& (token is Some) == (log.fee_token_addr is Some)
            &&& (token matches Some(t) ==> log.fee_token_addr matches Some(f) && t@ == f@)
        },
        TransferType::Deposit => {
            &&& log.token_type == token_type
            &&& (token_type == TokenType::Native ==> log.token_addr is None)
            &&& (token_type != TokenType::Native ==> log.token_addr is Some && token is Some
                && log.token_addr.unwrap()@ == token.unwrap()@)
        },
    }
    &&& log.receiver@.len() > 0
    &&& log.chain_to@.len() > 0
}

/// Validates a deposit leg's log before the merge sees it.
pub fn is_deposit_log_valid(log: &DepositLog, token_type: TokenType, token: Option<String>) -> (r:
    bool)
    ensures
        r == deposit_log_valid(*log, token_type, token),
{
    let leg_ok: bool = match log.transfer_type {
        TransferType::Fee => {
            if log.fee_token_addr.is_none() != token.is_none() {
                false
            } else {
                match (&token, &log.fee_token_addr) {
                    (Some(t), Some(f)) => *t == *f,
                    _ => true,
                }
            }
        },
        TransferType::Deposit => {
            if !(log.token_type == token_type) {
                false
            } else {
                let is_native: bool = token_type == TokenType::Native;
                if is_native {
                    log.token_addr.is_none()
                } else {
                    match (&log.token_addr, &token) {
                        (Some(d), Some(t)) => *d == *t,
                        _ => false,
                    }
                }
            }
        },
    };
    if !leg_ok {
        return false;
    }
    if log.receiver.as_str().is_empty() {
        return false;
    }
    if log.chain_to.as_str().is_empty() {
        return false;
    }
    true
}

/// The fee-token entry a leg's log refers to.
pub open spec fn fee_token_of(tokens: Seq<FeeToken>, log: DepositLog) -> Option<FeeToken> {
    find_token(tokens, opt_chars_view(log.fee_token_addr))
}

/// Whether a leg is accepted by the merge: the account must have a
/// record, the referenced fee token must exist, a leg whose counterpart
/// already arrived must agree with everything recorded, a fee leg must
/// pay exactly the configured fee and may arrive once, and a deposit leg
/// may arrive once.
pub open spec fn leg_accepted(
    records: Map<Seq<char>, DepositOperation>,
    tokens: Seq<FeeToken>,
    sender_id: String,
    log: DepositLog,
    amount: Option<u128>,
    token_id: Option<String>,
) -> bool {
    &&& records.contains_key(sender_id@)
    &&& fee_token_of(tokens, log) is Some
    &&& {
        let op = populated_op(records[sender_id@], log, amount, token_id);
        let ft = fee_token_of(tokens, log).unwrap();
        &&& ((op.deposited || op.fee_charged) ==> op_matches_log(op, log))
        &&& match log.transfer_type {
            TransferType::Fee => !op.fee_charged && (amount matches Some(a) && a == ft.fee),
            TransferType::Deposit => !op.deposited,
        }
    }
}

/// The record an accepted leg leaves behind: the merged fields with the
/// leg's own flag flipped on.
pub open spec fn accepted_op(
    op0: DepositOperation,
    log: DepositLog,
    amount: Option<u128>,
    token_id: Option<String>,
) -> DepositOperation {
    let p = populated_op(op0, log, amount, token_id);
    match log.transfer_type {
        TransferType::Fee => DepositOperation {
            owner: p.owner,
            deposited: p.deposited,
            fee_charged: true,
            token_addr: p.token_addr,
            token_type: p.token_type,
            fee_token_addr: p.fee_token_addr,
            receiver: p.receiver,
            msg: p.msg,
            amount: p.amount,
            token_id: p.token_id,
        },
        TransferType::Deposit => DepositOperation {
            owner: p.owner,
            deposited: true,
            fee_charged: p.fee_charged,
            token_addr: p.token_addr,
            token_type: p.token_type,
            fee_token_addr: p.fee_token_addr,
            receiver: p.receiver,
            msg: p.msg,
            amount: p.amount,
            token_id: p.token_id,
        },
    }
}

impl Feer {
    /// Well-formed state: the ledger, registry and record store are.
    pub open spec fn wf(&self) -> bool {
        &&& self.hashes.wf()
        &&& self.tokens.wf()
        &&& self.deposit_operations.wf()
    }

    /// Constructs the fee collector. Initial fee tokens, if any, must
    /// carry unique identities.
    pub fn new(chain: String, bridge_addr: String, tokens: Option<Vec<FeeToken>>) -> (r: Self)
        requires
            match tokens {
                Some(list) => forall|i: int, j: int|
                    0 <= i < j < list@.len() ==> opt_chars_view(
                        (#[trigger] list@[i]).token_addr,
                    ) != opt_chars_view((#[trigger] list@[j]).token_addr),
                None => true,
            },
        ensures
            r.wf(),
            r.chain@ == chain@,
            r.bridge_addr@ == bridge_addr@,
            r.hashes.contents() == Map::<Seq<u8>, bool>::empty(),
            r.deposit_operations.contents() == Map::<Seq<char>, DepositOperation>::empty(),
            r.tokens.tokens@ == match tokens {
                Some(list) => list@,
                None => Seq::<FeeToken>::empty(),
            },
    {
        Feer {
            chain,
            bridge_addr,
            hashes: Hashes::new(),
            tokens: FeeTokensManager::new(tokens),
            deposit_operations: DepositsManager::new(),
        }
    }

    /// Merges one validated leg into the account's record: exactly when
    /// the leg is accepted, the merged record with the leg's flag set is
    /// stored; a rejected leg changes nothing.
    pub fn handle_transfer_receiver(
        &mut self,
        sender_id: String,
        log: &DepositLog,
        amount: Option<u128>,
        token_id: Option<String>,
    ) -> (r: bool)
        requires
            old(self).wf(),
        ensures
            final(self).wf(),
            r == leg_accepted(
                old(self).deposit_operations.contents(),
                old(self).tokens.tokens@,
                sender_id,
                *log,
                amount,
                token_id,
            ),
            r ==> final(self).deposit_operations.contents() == old(self).deposit_operations.contents().insert(
                sender_id@,
                accepted_op(
                    old(self).deposit_operations.contents()[sender_id@],
                    *log,
                    amount,
                    token_id,
                ),
            ),
            r ==> final(self).hashes == old(self).hashes && final(self).tokens == old(self).tokens
                && final(self).chain == old(self).chain && final(self).bridge_addr == old(self).bridge_addr,
            !r ==> *final(self) == *old(self),
    {
        let mut op: DepositOperation = match self.deposit_operations.get_deposit_op(
            sender_id.clone(),
        ) {
            Some(op) => op,
            None => {
                return false;
            },
        };
        let ft: FeeToken = match self.tokens.get_fee_token(
            opt_string_duplicate(&log.fee_token_addr),
        ) {
            Some(t) => t,
            None => {
                return false;
            },
        };
        op.populate_from_raw(log, amount, opt_string_duplicate(&token_id));
        if op.deposited || op.fee_charged {
            if !op.is_equals(log) {
                return false;
            }
        }
        match log.transfer_type {
            TransferType::Fee => {
                if op.fee_charged {
                    return false;
                }
                let a: u128 = match amount {
                    Some(a) => a,
                    None => {
                        return false;
                    },
                };
                if a != ft.fee {
                    return false;
                }
                op.fee_charged = true;
            },
            TransferType::Deposit => {
                if op.deposited {
                    return false;
                }
                op.deposited = true;
            },
        }
        self.deposit_operations.update_deposit_op(op);
        true
    }
}


/// The forwarding call a completed record describes, or why none can be
/// built. This is a total description: the executable decision returns
/// exactly this.
pub open spec fn forward_of(feer: Feer, op: DepositOperation) -> Result<
    ForwardAction,
    FeerError,
> {
    match op.token_type {
        None => Err(FeerError::MissingTokenType),
        Some(TokenType::Native) => {
            if op.msg is None {
                Err(FeerError::MissingMsg)
            } else if op.amount is None {
                Err(FeerError::MissingAmount)
            } else if op.receiver is None {
                Err(FeerError::MissingReceiver)
            } else {
                Ok(
                    ForwardAction::NativeDeposit {
                        bridge_addr: feer.bridge_addr,
                        receiver: op.receiver.unwrap(),
                        chain_to: op.msg.unwrap().chain_to,
                        bundle_data: op.msg.unwrap().bundle_data,
                        bundle_salt: op.msg.unwrap().bundle_salt,
                        attached: op.amount.unwrap(),
                    },
                )
            }
        },
        Some(TokenType::FT) => {
            if op.token_addr is None {
                Err(FeerError::MissingTokenAddr)
            } else if op.amount is None {
                Err(FeerError::MissingAmount)
            } else if op.msg is None {
                Err(FeerError::MissingMsg)
            } else {
                Ok(
                    ForwardAction::FtTransferCall {
                        token: op.token_addr.unwrap(),
                        bridge_addr: feer.bridge_addr,
                        amount: op.amount.unwrap(),
                        msg: op.msg.unwrap(),
                    },
                )
            }
        },
        Some(TokenType::NFT) => {
            if op.token_addr is None {
                Err(FeerError::MissingTokenAddr)
            } else if op.token_id is None {
                Err(FeerError::MissingTokenId)
            } else if op.msg is None {
                Err(FeerError::MissingMsg)
            } else {
                Ok(
                    ForwardAction::NftTransferCall {
                        token: op.token_addr.unwrap(),
                        bridge_addr: feer.bridge_addr,
                        token_id: op.token_id.unwrap(),
                        msg: op.msg.unwrap(),
                    },
                )
            }
        },
    }
}

/// A record is complete when both legs have arrived.
pub open spec fn record_complete(op: DepositOperation) -> bool {
    op.fee_charged && op.deposited
}

/// The forwarding call depends on the state only through the bridge
/// identity: states that agree on it decide the same forward.
proof fn lemma_forward_of_same_bridge(a: Feer, b: Feer, op: DepositOperation)
    requires
        a.bridge_addr == b.bridge_addr,
    ensures
        forward_of(a, op) == forward_of(b, op),
{
}

impl Feer {
    /// Builds the kind-specific forwarding call for a record: a native
    /// balance deposit, a fungible transfer-with-message, or a
    /// non-fungible transfer-with-message, each aimed at the bridge.
    pub fn handle_bridge_deposit(&self, op: &DepositOperation) -> (r: Result<
        ForwardAction,
        FeerError,
    >)
        ensures
            r == forward_of(*self, *op),
    {
        let tt: TokenType = match &op.token_type {
            Some(t) => *t,
            None => {
                return Err(FeerError::MissingTokenType);
            },
        };
        match tt {
            TokenType::Native => {
                let msg: &TransferLog = match &op.msg {
                    Some(m) => m,
                    None => {
                        return Err(FeerError::MissingMsg);
                    },
                };
                let attached: u128 = match &op.amount {
                    Some(a) => *a,
                    None => {
                        return Err(FeerError::MissingAmount);
                    },
                };
                let receiver: String = match &op.receiver {
                    Some(rc) => rc.clone(),
                    None => {
                        return Err(FeerError::MissingReceiver);
                    },
                };
                Ok(
                    ForwardAction::NativeDeposit {
                        bridge_addr: self.bridge_addr.clone(),
                        receiver,
                        chain_to: msg.chain_to.clone(),
                        bundle_data: opt_string_duplicate(&msg.bundle_data),
                        bundle_salt: opt_string_duplicate(&msg.bundle_salt),
                        attached,
                    },
                )
            },
            TokenType::FT => {
                let token: String = match &op.token_addr {
                    Some(t) => t.clone(),
                    None => {
                        return Err(FeerError::MissingTokenAddr);
                    },
                };
                let amount: u128 = match &op.amount {
                    Some(a) => *a,
                    None => {
                        return Err(FeerError::MissingAmount);
                    },
                };
                let msg: TransferLog = match &op.msg {
                    Some(m) => m.duplicate(),
                    None => {
                        return Err(FeerError::MissingMsg);
                    },
                };
                Ok(
                    ForwardAction::FtTransferCall {
                        token,
                        bridge_addr: self.bridge_addr.clone(),
                        amount,
                        msg,
                    },
                )
            },
            TokenType::NFT => {
                let token: String = match &op.token_addr {
                    Some(t) => t.clone(),
                    None => {
                        return Err(FeerError::MissingTokenAddr);
                    },
                };
                let token_id: String = match &op.token_id {
                    Some(t) => t.clone(),
                    None => {
                        return Err(FeerError::MissingTokenId);
                    },
                };
                let msg: TransferLog = match &op.msg {
                    Some(m) => m.duplicate(),
                    None => {
                        return Err(FeerError::MissingMsg);
                    },
                };
                Ok(
                    ForwardAction::NftTransferCall {
                        token,
                        bridge_addr: self.bridge_addr.clone(),
                        token_id,
                        msg,
                    },
                )
            },
        }
    }

    /// Once both legs of the account's record are in, decides the one
    /// forwarding call and resets the record to empty; with a leg still
    /// missing, nothing happens. The reset precedes the forwarding call's
    /// dispatch and is not compensated should that call later fail.
    pub fn complete_deposit(&mut self, sender_id: String) -> (r: Result<
        Option<ForwardAction>,
        FeerError,
    >)
        requires
            old(self).wf(),
        ensures
            final(self).wf(),
            final(self).hashes == old(self).hashes,
            final(self).tokens == old(self).tokens,
            final(self).chain == old(self).chain,
            final(self).bridge_addr == old(self).bridge_addr,
            ({
                let m = old(self).deposit_operations.contents();
                match r {
                    Ok(None) => m.contains_key(sender_id@) && !record_complete(m[sender_id@])
                        && *final(self) == *old(self),
                    Ok(Some(a)) => m.contains_key(sender_id@) && record_complete(m[sender_id@])
                        && forward_of(*old(self), m[sender_id@]) == Ok::<ForwardAction, FeerError>(
                        a,
                    ) && final(self).deposit_operations.contents() == m.insert(
                        sender_id@,
                        crate::deposit_operation::empty_op(m[sender_id@].owner),
                    ),
                    Err(FeerError::UnknownAccount) => !m.contains_key(sender_id@) && *final(self)
                        == *old(self),
                    Err(e) => m.contains_key(sender_id@) && record_complete(m[sender_id@])
                        && forward_of(*old(self), m[sender_id@]) == Err::<ForwardAction, FeerError>(
                        e,
                    ) && e != FeerError::UnknownAccount && *final(self) == *old(self),
                }
            }),
    {
        let op: DepositOperation = match self.deposit_operations.get_deposit_op(
            sender_id.clone(),
        ) {
            Some(op) => op,
            None => {
                return Err(FeerError::UnknownAccount);
            },
        };
        if !(op.fee_charged && op.deposited) {
            return Ok(None);
        }
        let action: ForwardAction = match self.handle_bridge_deposit(&op) {
            Ok(a) => a,
            Err(e) => {
                proof {
                    assert(e != FeerError::UnknownAccount);
                }
                return Err(e);
            },
        };
        let _reset: bool = self.deposit_operations.reset_deposit_op(sender_id);
        Ok(Some(action))
    }

    /// Accepts the native fee-or-deposit leg attached to a call: the log
    /// must validate for the native asset and the merge must accept the
    /// leg; a leg that completes the record decides the one forwarding
    /// call and resets the record, exactly as `complete_deposit` says.
    pub fn charge_native(&mut self, sender: String, deposit: DepositLog, deposit_amount: u128) -> (r:
        Result<Option<ForwardAction>, FeerError>)
        requires
            old(self).wf(),
        ensures
            final(self).wf(),
            final(self).hashes == old(self).hashes,
            final(self).tokens == old(self).tokens,
            final(self).chain == old(self).chain,
            final(self).bridge_addr == old(self).bridge_addr,
            ({
                let m = old(self).deposit_operations.contents();
                let merged = accepted_op(m[sender@], deposit, Some(deposit_amount), None);
                if !deposit_log_valid(deposit, TokenType::Native, None) {
                    r == Err::<Option<ForwardAction>, FeerError>(FeerError::InvalidDepositLog)
                        && *final(self) == *old(self)
                } else if !leg_accepted(
                    m,
                    old(self).tokens.tokens@,
                    sender,
                    deposit,
                    Some(deposit_amount),
                    None,
                ) {
                    r == Err::<Option<ForwardAction>, FeerError>(FeerError::ChargeFailed)
                        && *final(self) == *old(self)
                } else if !record_complete(merged) {
                    r == Ok::<Option<ForwardAction>, FeerError>(None)
                        && final(self).deposit_operations.contents() == m.insert(sender@, merged)
                } else {
                    match forward_of(*old(self), merged) {
                        Ok(a) => r == Ok::<Option<ForwardAction>, FeerError>(Some(a))
                            && final(self).deposit_operations.contents() == m.insert(
                            sender@,
                            crate::deposit_operation::empty_op(merged.owner),
                        ),
                        Err(e) => r == Err::<Option<ForwardAction>, FeerError>(e)
                            && final(self).deposit_operations.contents() == m.insert(
                            sender@,
                            merged,
                        ),
                    }
                }
            }),
    {
        let ghost sv: Seq<char> = sender@;
        if !is_deposit_log_valid(&deposit, TokenType::Native, None) {
            return Err(FeerError::InvalidDepositLog);
        }
        let ghost pre: Feer = *self;
        let ghost m: Map<Seq<char>, DepositOperation> = self.deposit_operations.contents();
        if !self.handle_transfer_receiver(sender.clone(), &deposit, Some(deposit_amount), None) {
            return Err(FeerError::ChargeFailed);
        }
        let ghost s1: Feer = *self;
        let ghost merged: DepositOperation = accepted_op(m[sv], deposit, Some(deposit_amount), None);
        proof {
            assert(s1.deposit_operations.contents()[sv] == merged);
            lemma_forward_of_same_bridge(s1, pre, merged);
        }
        let r: Result<Option<ForwardAction>, FeerError> = self.complete_deposit(sender);
        proof {
            match r {
                Ok(Some(_)) => {
                    assert(self.deposit_operations.contents() =~= m.insert(
                        sv,
                        crate::deposit_operation::empty_op(merged.owner),
                    ));
                },
                Ok(None) => {},
                Err(_) => {},
            }
        }
        r
    }
}


/// The deterministic payload of a fee-token admin operation: the kind's
/// tag byte, the token identity bytes (omitted entirely for the native
/// kind), and a 32-byte amount: the explicit argument when present, the
/// registry's stored fee otherwise.
pub open spec fn operation_payload(
    op_type: OperationType,
    token: FeeToken,
    amount: Option<u128>,
) -> Seq<u8> {
    seq![op_type_tag(op_type)] + (match token.token_type {
        TokenType::Native => Seq::<u8>::empty(),
        TokenType::FT => encode_utf8(token.token_addr.unwrap()@),
        TokenType::NFT => encode_utf8(token.token_addr.unwrap()@),
    }) + be32_of((match amount {
        Some(a) => a,
        None => token.fee,
    }) as nat)
}

/// A fee-token admin operation ready to be encoded as the signed
/// payload.
#[derive(Debug)]
pub struct OperationData {
    pub operation_type: OperationType,
    pub token: FeeToken,
    pub amount: Option<u128>,
}

impl OperationData {
    pub fn new(operation_type: OperationType, token: FeeToken, amount: Option<u128>) -> (r: Self)
        ensures
            r.operation_type == operation_type,
            r.token == token,
            r.amount == amount,
    {
        OperationData { operation_type, token, amount }
    }

    /// Produces the deterministic byte encoding. A non-native entry must
    /// carry its token identity.
    pub fn get_data(&self) -> (r: Vec<u8>)
        requires
            self.token.token_type != TokenType::Native ==> self.token.token_addr is Some,
        ensures
            r@ == operation_payload(self.operation_type, self.token, self.amount),
    {
        let mut data: Vec<u8> = Vec::new();
        data.push(self.operation_type.tag());
        match self.token.token_type {
            TokenType::Native => {},
            _ => {
                match &self.token.token_addr {
                    Some(addr) => {
                        let addr_bytes: Vec<u8> = vstd::string::StrSliceExecFns::as_bytes_vec(
                            addr.as_str(),
                        );
                        append_bytes(&mut data, addr_bytes.as_slice());
                    },
                    None => {},
                }
            },
        }
        let amount_value: u128 = match &self.amount {
            Some(a) => *a,
            None => self.token.fee,
        };
        let amount_bytes: Vec<u8> = u128_to_bytes(amount_value);
        append_bytes(&mut data, amount_bytes.as_slice());
        proof {
            assert(data@ =~= operation_payload(self.operation_type, self.token, self.amount));
        }
        data
    }
}

/// The full authentication decision for a fee-token admin operation:
/// decode the signature and origin texts, fold the encoded operation
/// (bound to origin, chain, the fee collector's own identity for a
/// withdrawal, and the bridge identity) with the sibling path, check the
/// signature over the root against the bridge's signer, and demand an
/// unconsumed origin hash.
pub open spec fn operation_auth(
    chain: Seq<char>,
    bridge_addr: Seq<char>,
    ledger: Map<Seq<u8>, bool>,
    signer: Seq<char>,
    op_type: OperationType,
    op: FeeManageOperation,
    amount: Option<u128>,
    self_account: Seq<char>,
) -> Result<(), FeerError> {
    let sb = signature_from_hex_spec(op.signature@);
    let ob = hash_from_hex_spec(op.origin@);
    if sb is None {
        Err(FeerError::MalformedSignature)
    } else if ob is None {
        Err(FeerError::MalformedOrigin)
    } else {
        let receiver = if op_type == OperationType::Withdraw {
            Some(self_account)
        } else {
            None
        };
        let root = merkle_fold(
            keccak_of(
                content_hash_input(
                    operation_payload(op_type, op.token, amount),
                    ob.unwrap(),
                    chain,
                    receiver,
                    bridge_addr,
                ),
            ),
            hashes_view(op.path@),
        );
        if !signature_matches(signer, root, sb.unwrap(), op.recovery_id@) {
            Err(FeerError::SignatureMismatch)
        } else if consumed(ledger, ob.unwrap()) {
            Err(FeerError::HashAlreadyUsed)
        } else {
            Ok(())
        }
    }
}

impl Feer {
    /// Authenticates a fee-token admin operation against the bridge's
    /// signer and consumes its origin hash. On success the ledger gains
    /// the hash; a refusal changes nothing.
    pub fn handle_operation(
        &mut self,
        signer: &SignerPublicKey,
        op_type: OperationType,
        op: FeeManageOperation,
        amount: Option<u128>,
        self_account: &String,
    ) -> (r: Result<(), FeerError>)
        requires
            old(self).wf(),
            op.token.token_type != TokenType::Native ==> op.token.token_addr is Some,
        ensures
            final(self).wf(),
            final(self).tokens == old(self).tokens,
            final(self).deposit_operations == old(self).deposit_operations,
            final(self).chain == old(self).chain,
            final(self).bridge_addr == old(self).bridge_addr,
            r == operation_auth(
                old(self).chain@,
                old(self).bridge_addr@,
                old(self).hashes.contents(),
                signer@,
                op_type,
                op,
                amount,
                self_account@,
            ),
            r is Ok ==> final(self).hashes.contents() == old(self).hashes.contents().insert(
                hash_from_hex_spec(op.origin@).unwrap(),
                true,
            ),
            r is Err ==> *final(self) == *old(self),
    {
        let signature: Secp256K1Signature = match Secp256K1Signature::from_hex(
            op.signature,
        ) {
            Some(s) => s,
            None => {
                return Err(FeerError::MalformedSignature);
            },
        };
        let origin: crate::types::Hash = match crate::types::Hash::from_hex(op.origin) {
            Some(h) => h,
            None => {
                return Err(FeerError::MalformedOrigin);
            },
        };
        let receiver: Option<String> = match op_type {
            OperationType::Withdraw => Some(self_account.clone()),
            _ => None,
        };
        let data: Vec<u8> = OperationData::new(op_type, op.token, amount).get_data();
        let content: ContentNode = ContentNode::new(
            origin.duplicate(),
            self.bridge_addr.clone(),
            self.chain.clone(),
            data,
            receiver,
        );
        let root: crate::types::Hash = get_merkle_root(content, &op.path);
        if !verify_ecdsa_signature(signer, &root, &signature, &op.recovery_id) {
            return Err(FeerError::SignatureMismatch);
        }
        if !self.hashes.check_hash(&origin) {
            return Err(FeerError::HashAlreadyUsed);
        }
        Ok(())
    }

    /// Registers a new fee token: the identity must be free, and the
    /// operation must authenticate. Nothing is written before both
    /// checks pass.
    pub fn add_fee_token_callback(
        &mut self,
        signer: &SignerPublicKey,
        op: FeeManageOperation,
        self_account: &String,
    ) -> (r: Result<(), FeerError>)
        requires
            old(self).wf(),
            op.token.token_type != TokenType::Native ==> op.token.token_addr is Some,
        ensures
            final(self).wf(),
            final(self).deposit_operations == old(self).deposit_operations,
            final(self).chain == old(self).chain,
            final(self).bridge_addr == old(self).bridge_addr,
            ({
                let auth = operation_auth(
                    old(self).chain@,
                    old(self).bridge_addr@,
                    old(self).hashes.contents(),
                    signer@,
                    OperationType::AddFeeToken,
                    op,
                    None,
                    self_account@,
                );
                let fresh = find_token(
                    old(self).tokens.tokens@,
                    opt_chars_view(op.token.token_addr),
                ) is None;
                match r {
                    Err(FeerError::TokenExists) => !fresh && *final(self) == *old(self),
                    Ok(()) => fresh && auth is Ok && final(self).tokens.tokens@ == old(self).tokens.tokens@.push(op.token) && final(self).hashes.contents() == old(self).hashes.contents().insert(hash_from_hex_spec(op.origin@).unwrap(), true),
                    Err(e) => fresh && auth == Err::<(), FeerError>(e) && *final(self) == *old(self),
                }
            }),
    {
        if !self.tokens.is_unique(opt_string_duplicate(&op.token.token_addr)) {
            return Err(FeerError::TokenExists);
        }
        let token: FeeToken = op.token.duplicate();
        match self.handle_operation(
            signer,
            OperationType::AddFeeToken,
            op,
            None,
            self_account,
        ) {
            Ok(()) => {},
            Err(e) => {
                return Err(e);
            },
        }
        let _added: bool = self.tokens.add_fee_token(token);
        Ok(())
    }

    /// Rewrites a fee token's kind and fee, once the operation
    /// authenticates.
    pub fn update_fee_token_callback(
        &mut self,
        signer: &SignerPublicKey,
        op: FeeManageOperation,
        self_account: &String,
    ) -> (r: Result<(), FeerError>)
        requires
            old(self).wf(),
            op.token.token_type != TokenType::Native ==> op.token.token_addr is Some,
        ensures
            final(self).wf(),
            final(self).deposit_operations == old(self).deposit_operations,
            final(self).chain == old(self).chain,
            final(self).bridge_addr == old(self).bridge_addr,
            r == operation_auth(
                old(self).chain@,
                old(self).bridge_addr@,
                old(self).hashes.contents(),
                signer@,
                OperationType::UpdateFeeToken,
                op,
                None,
                self_account@,
            ),
            r is Err ==> *final(self) == *old(self),
            r is Ok ==> final(self).hashes.contents() == old(self).hashes.contents().insert(
                hash_from_hex_spec(op.origin@).unwrap(),
                true,
            ) && final(self).tokens.tokens@.len() == old(self).tokens.tokens@.len() && (forall|
                j: int,
            |
                0 <= j < old(self).tokens.tokens@.len() && opt_chars_view(
                    (#[trigger] old(self).tokens.tokens@[j]).token_addr,
                ) != opt_chars_view(op.token.token_addr) ==> final(self).tokens.tokens@[j] == old(self).tokens.tokens@[j]) && (forall|j: int|
                0 <= j < old(self).tokens.tokens@.len() && opt_chars_view(
                    (#[trigger] old(self).tokens.tokens@[j]).token_addr,
                ) == opt_chars_view(op.token.token_addr) ==> (final(self).tokens.tokens@[j]).token_addr == old(self).tokens.tokens@[j].token_addr && (final(self).tokens.tokens@[j]).token_type == op.token.token_type && (final(self).tokens.tokens@[j]).fee == op.token.fee),
    {
        let token: FeeToken = op.token.duplicate();
        match self.handle_operation(
            signer,
            OperationType::UpdateFeeToken,
            op,
            None,
            self_account,
        ) {
            Ok(()) => {},
            Err(e) => {
                return Err(e);
            },
        }
        self.tokens.update_fee_token(token);
        Ok(())
    }

    /// Unregisters a fee token, once the operation authenticates.
    pub fn remove_fee_token_callback(
        &mut self,
        signer: &SignerPublicKey,
        op: FeeManageOperation,
        self_account: &String,
    ) -> (r: Result<(), FeerError>)
        requires
            old(self).wf(),
            op.token.token_type != TokenType::Native ==> op.token.token_addr is Some,
        ensures
            final(self).wf(),
            final(self).deposit_operations == old(self).deposit_operations,
            final(self).chain == old(self).chain,
            final(self).bridge_addr == old(self).bridge_addr,
            r == operation_auth(
                old(self).chain@,
                old(self).bridge_addr@,
                old(self).hashes.contents(),
                signer@,
                OperationType::RemoveFeeToken,
                op,
                None,
                self_account@,
            ),
            r is Err ==> *final(self) == *old(self),
            r is Ok ==> final(self).hashes.contents() == old(self).hashes.contents().insert(
                hash_from_hex_spec(op.origin@).unwrap(),
                true,
            ) && final(self).tokens.tokens@ == old(self).tokens.tokens@.filter(
                |t: FeeToken|
                    opt_chars_view(t.token_addr) != opt_chars_view(op.token.token_addr),
            ),
    {
        let addr: Option<String> = opt_string_duplicate(&op.token.token_addr);
        match self.handle_operation(
            signer,
            OperationType::RemoveFeeToken,
            op,
            None,
            self_account,
        ) {
            Ok(()) => {},
            Err(e) => {
                return Err(e);
            },
        }
        self.tokens.remove_fee_token(addr);
        Ok(())
    }

    /// The outbound transfer a fee withdrawal dispatches: a native
    /// balance transfer or a fungible transfer; non-fungible fee tokens
    /// are not supported.
    pub fn internal_withdraw(&self, fee_token: &FeeToken, amount: u128, receiver: String) -> (r:
        Result<WithdrawAction, FeerError>)
        ensures
            match r {
                Ok(a) => match fee_token.token_type {
                    TokenType::Native => a == (WithdrawAction::NativeTransfer {
                        receiver: receiver,
                        amount: amount,
                    }),
                    TokenType::FT => fee_token.token_addr is Some && a == (
                    WithdrawAction::FtTransfer {
                        token: fee_token.token_addr.unwrap(),
                        receiver: receiver,
                        amount: amount,
                    }),
                    TokenType::NFT => false,
                },
                Err(FeerError::UnsupportedToken) => fee_token.token_type == TokenType::NFT,
                Err(FeerError::MissingTokenAddr) => fee_token.token_type == TokenType::FT
                    && fee_token.token_addr is None,
                Err(_) => false,
            },
    {
        match fee_token.token_type {
            TokenType::Native => Ok(WithdrawAction::NativeTransfer { receiver, amount }),
            TokenType::FT => {
                match &fee_token.token_addr {
                    Some(token) => Ok(
                        WithdrawAction::FtTransfer { token: token.clone(), receiver, amount },
                    ),
                    None => Err(FeerError::MissingTokenAddr),
                }
            },
            TokenType::NFT => Err(FeerError::UnsupportedToken),
        }
    }

    /// Withdraws collected fees, once the operation authenticates: the
    /// transfer is decided first, so a refusal changes nothing.
    pub fn withdraw_callback(
        &mut self,
        signer: &SignerPublicKey,
        op: FeeManageOperation,
        amount: u128,
        receiver: String,
        self_account: &String,
    ) -> (r: Result<WithdrawAction, FeerError>)
        requires
            old(self).wf(),
            op.token.token_type != TokenType::Native ==> op.token.token_addr is Some,
        ensures
            final(self).wf(),
            final(self).tokens == old(self).tokens,
            final(self).deposit_operations == old(self).deposit_operations,
            final(self).chain == old(self).chain,
            final(self).bridge_addr == old(self).bridge_addr,
            ({
                let auth = operation_auth(
                    old(self).chain@,
                    old(self).bridge_addr@,
                    old(self).hashes.contents(),
                    signer@,
                    OperationType::Withdraw,
                    op,
                    Some(amount),
                    self_account@,
                );
                match r {
                    Err(FeerError::UnsupportedToken) => op.token.token_type == TokenType::NFT
                        && *final(self) == *old(self),
                    Ok(a) => auth is Ok && op.token.token_type != TokenType::NFT && final(self).hashes.contents() == old(self).hashes.contents().insert(
                        hash_from_hex_spec(op.origin@).unwrap(),
                        true,
                    ) && match op.token.token_type {
                        TokenType::Native => a == (WithdrawAction::NativeTransfer {
                            receiver: receiver,
                            amount: amount,
                        }),
                        TokenType::FT => a == (WithdrawAction::FtTransfer {
                            token: op.token.token_addr.unwrap(),
                            receiver: receiver,
                            amount: amount,
                        }),
                        TokenType::NFT => false,
                    },
                    Err(e) => op.token.token_type != TokenType::NFT && auth == Err::<
                        (),
                        FeerError,
                    >(e) && *final(self) == *old(self),
                }
            }),
    {
        let action: WithdrawAction = match self.internal_withdraw(&op.token, amount, receiver) {
            Ok(a) => a,
            Err(e) => {
                return Err(e);
            },
        };
        match self.handle_operation(signer, OperationType::Withdraw, op, Some(amount), self_account) {
            Ok(()) => {},
            Err(e) => {
                return Err(e);
            },
        }
        Ok(action)
    }

    /// Registers the account with an empty record; refused when a record
    /// already exists.
    pub fn internal_register_account(&mut self, account_id: &String) -> (r: bool)
        requires
            old(self).wf(),
        ensures
            final(self).wf(),
            final(self).hashes == old(self).hashes,
            final(self).tokens == old(self).tokens,
            final(self).chain == old(self).chain,
            final(self).bridge_addr == old(self).bridge_addr,
            r == !old(self).deposit_operations.contents().contains_key(account_id@),
            r ==> final(self).deposit_operations.contents() == old(self).deposit_operations.contents().insert(account_id@, empty_op(*account_id)),
            !r ==> *final(self) == *old(self),
    {
        if self.deposit_operations.is_exists(account_id) {
            return false;
        }
        self.deposit_operations.add_deposit_op(DepositOperation::empty(account_id.clone()));
        true
    }

    /// Unregisters the caller's account and yields its record back:
    /// refused without force while the record still carries a leg.
    pub fn internal_storage_unregister(&mut self, predecessor: String, force: Option<bool>) -> (r:
        Result<Option<(String, DepositOperation)>, FeerError>)
        requires
            old(self).wf(),
        ensures
            final(self).wf(),
            final(self).hashes == old(self).hashes,
            final(self).tokens == old(self).tokens,
            final(self).chain == old(self).chain,
            final(self).bridge_addr == old(self).bridge_addr,
            ({
                let m = old(self).deposit_operations.contents();
                let forced = force == Some(true);
                match r {
                    Ok(None) => !m.contains_key(predecessor@) && *final(self) == *old(self),
                    Ok(Some((who, op))) => m.contains_key(predecessor@) && who@ == predecessor@
                        && op == m[predecessor@] && (!(op.deposited || op.fee_charged) || forced)
                        && final(self).deposit_operations.contents() == m.remove(predecessor@),
                    Err(FeerError::AccountBusy) => m.contains_key(predecessor@) && (
                    m[predecessor@].deposited || m[predecessor@].fee_charged) && !forced && *final(self) == *old(self),
                    Err(_) => false,
                }
            }),
    {
        let forced: bool = match force {
            Some(b) => b,
            None => false,
        };
        let op: DepositOperation = match self.deposit_operations.get_deposit_op(
            predecessor.clone(),
        ) {
            Some(op) => op,
            None => {
                return Ok(None);
            },
        };
        if (op.deposited || op.fee_charged) && !forced {
            return Err(FeerError::AccountBusy);
        }
        self.deposit_operations.remove_deposit_op(predecessor.clone());
        Ok(Some((predecessor, op)))
    }

    /// The account's pending record, if any.
    pub fn get_deposit_op(&self, owner: String) -> (r: Option<DepositOperation>)
        requires
            self.wf(),
        ensures
            match r {
                Some(op) => self.deposit_operations.contents().contains_key(owner@) && op
                    == self.deposit_operations.contents()[owner@],
                None => !self.deposit_operations.contents().contains_key(owner@),
            },
    {
        self.deposit_operations.get_deposit_op(owner)
    }

    /// The fee-token entry for the identity, if any.
    pub fn get_fee_token(&self, token_addr: Option<String>) -> (r: Option<FeeToken>)
        ensures
            r == find_token(self.tokens.tokens@, opt_chars_view(token_addr)),
    {
        self.tokens.get_fee_token(token_addr)
    }

    /// A copy of every fee-token entry.
    pub fn get_fee_tokens(&self) -> (r: Vec<FeeToken>)
        ensures
            r@ == self.tokens.tokens@,
    {
        self.tokens.get_fee_tokens()
    }
}

/// The outbound transfer a fee withdrawal dispatches.
#[derive(Debug)]
pub enum WithdrawAction {
    NativeTransfer { receiver: String, amount: u128 },
    FtTransfer { token: String, receiver: String, amount: u128 },
}


/// Two legs describing the same deposit: one pays the fee, the other
/// delivers the asset, and every shared field reads the same.
pub open spec fn logs_match(fee_log: DepositLog, dep_log: DepositLog) -> bool {
    &&& fee_log.transfer_type == TransferType::Fee
    &&& dep_log.transfer_type == TransferType::Deposit
    &&& opt_chars_view(fee_log.token_addr) == opt_chars_view(dep_log.token_addr)
    &&& opt_chars_view(fee_log.fee_token_addr) == opt_chars_view(dep_log.fee_token_addr)
    &&& fee_log.token_type == dep_log.token_type
    &&& fee_log.receiver@ == dep_log.receiver@
    &&& fee_log.chain_to@ == dep_log.chain_to@
    &&& fee_log.is_wrapped == dep_log.is_wrapped
    &&& opt_chars_view(fee_log.bundle_data) == opt_chars_view(dep_log.bundle_data)
    &&& opt_chars_view(fee_log.bundle_salt) == opt_chars_view(dep_log.bundle_salt)
}

/// A record as an account registers it: no leg arrived, nothing set.
pub open spec fn fresh_record(op: DepositOperation) -> bool {
    &&& !op.deposited
    &&& !op.fee_charged
    &&& op.token_addr is None
    &&& op.token_type is None
    &&& op.fee_token_addr is None
    &&& op.receiver is None
    &&& op.msg is None
    &&& op.amount is None
    &&& op.token_id is None
}

/// Reconciler merge commutativity. Starting from a fresh record, a fee
/// leg paying exactly the configured fee and a matching deposit leg are
/// both accepted in either order, and either order ends in a complete
/// record with the same accumulated fields — so exactly one forward is
/// triggered, by whichever leg arrives second. Submitting the same leg
/// twice is rejected the second time, and a rejected leg leaves the
/// record untouched (`handle_transfer_receiver` changes nothing on
/// rejection).
pub proof fn lemma_reconciler_merge_commutes(
    records: Map<Seq<char>, DepositOperation>,
    tokens: Seq<FeeToken>,
    sender_id: String,
    fee_log: DepositLog,
    dep_log: DepositLog,
    dep_amount: Option<u128>,
    dep_tid: Option<String>,
)
    requires
        records.contains_key(sender_id@),
        fresh_record(records[sender_id@]),
        logs_match(fee_log, dep_log),
        fee_token_of(tokens, fee_log) is Some,
    ensures
        ({
            let r0 = records[sender_id@];
            let fee_amount = Some(fee_token_of(tokens, fee_log).unwrap().fee);
            let r1 = accepted_op(r0, fee_log, fee_amount, None);
            let r2 = accepted_op(r1, dep_log, dep_amount, dep_tid);
            let s1 = accepted_op(r0, dep_log, dep_amount, dep_tid);
            let s2 = accepted_op(s1, fee_log, fee_amount, None);
            &&& leg_accepted(records, tokens, sender_id, fee_log, fee_amount, None)
            &&& leg_accepted(records, tokens, sender_id, dep_log, dep_amount, dep_tid)
            &&& leg_accepted(
                records.insert(sender_id@, r1),
                tokens,
                sender_id,
                dep_log,
                dep_amount,
                dep_tid,
            )
            &&& leg_accepted(
                records.insert(sender_id@, s1),
                tokens,
                sender_id,
                fee_log,
                fee_amount,
                None,
            )
            &&& record_complete(r2)
            &&& record_complete(s2)
            &&& opt_chars_view(r2.token_addr) == opt_chars_view(s2.token_addr)
            &&& r2.token_type == s2.token_type
            &&& opt_chars_view(r2.fee_token_addr) == opt_chars_view(s2.fee_token_addr)
            &&& opt_chars_view(r2.receiver) == opt_chars_view(s2.receiver)
            &&& r2.amount == s2.amount
            &&& r2.token_id == s2.token_id
            &&& r2.msg is Some && s2.msg is Some && transfer_log_eq(
                r2.msg.unwrap(),
                s2.msg.unwrap(),
            )
            &&& !leg_accepted(
                records.insert(sender_id@, r1),
                tokens,
                sender_id,
                fee_log,
                fee_amount,
                None,
            )
            &&& !leg_accepted(
                records.insert(sender_id@, s1),
                tokens,
                sender_id,
                dep_log,
                dep_amount,
                dep_tid,
            )
        }),
{
    let r0 = records[sender_id@];
    let ft = fee_token_of(tokens, fee_log).unwrap();
    let fee_amount = Some(ft.fee);
    assert(fee_token_of(tokens, dep_log) == fee_token_of(tokens, fee_log)) by {
        assert(opt_chars_view(dep_log.fee_token_addr) == opt_chars_view(fee_log.fee_token_addr));
    }
    let r1 = accepted_op(r0, fee_log, fee_amount, None);
    let r2 = accepted_op(r1, dep_log, dep_amount, dep_tid);
    let s1 = accepted_op(r0, dep_log, dep_amount, dep_tid);
    let s2 = accepted_op(s1, fee_log, fee_amount, None);
    let p1 = populated_op(records.insert(sender_id@, r1)[sender_id@], dep_log, dep_amount, dep_tid);
    assert(op_matches_log(p1, dep_log));
    let q1 = populated_op(records.insert(sender_id@, s1)[sender_id@], fee_log, fee_amount, None);
    assert(op_matches_log(q1, fee_log));
}

} // verus!
