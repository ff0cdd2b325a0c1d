//! Value types of the fee-collector side: deposit legs, canonical
//! forward messages, and the admin operation envelope.

use vstd::prelude::*;
use crate::merkle::opt_chars_view;
use crate::types::{RecoveryID, TokenType};

verus! {

/// Which leg of a two-phase deposit a log describes: the fee payment or
/// the asset deposit.
#[derive(Clone, Copy, Debug, PartialEq, Eq, Structural)]
pub enum TransferType {
    Fee,
    Deposit,
}

/// The kind of a fee-token admin operation.
#[derive(Clone, Copy, Debug, PartialEq, Eq, Structural)]
pub enum OperationType {
    AddFeeToken,
    RemoveFeeToken,
    UpdateFeeToken,
    Withdraw,
}

/// The leading tag byte of each fee-token admin operation kind.
pub open spec fn op_type_tag(t: OperationType) -> u8 {
    match t {
        OperationType::AddFeeToken => 1,
        OperationType::RemoveFeeToken => 2,
        OperationType::UpdateFeeToken => 3,
        OperationType::Withdraw => 4,
    }
}

impl OperationType {
    /// The operation kind's tag byte.
    pub fn tag(&self) -> (r: u8)
        ensures
            r == op_type_tag(*self),
    {
        match self {
            OperationType::AddFeeToken => 1,
            OperationType::RemoveFeeToken => 2,
            OperationType::UpdateFeeToken => 3,
            OperationType::Withdraw => 4,
        }
    }
}

/// The canonical description of an intended forward: who sent the
/// deposit, where it goes, and the optional bundle metadata. Both legs
/// of a deposit must describe the same forward.
#[derive(Debug)]
pub struct TransferLog {
    pub sender: String,
    pub receiver: String,
    pub chain_to: String,
    pub is_wrapped: bool,
    pub bundle_data: Option<String>,
    pub bundle_salt: Option<String>,
}

impl TransferLog {
    /// An identical message.
    pub fn duplicate(&self) -> (r: Self)
        ensures
            r == *self,
    {
        TransferLog {
            sender: self.sender.clone(),
            receiver: self.receiver.clone(),
            chain_to: self.chain_to.clone(),
            is_wrapped: self.is_wrapped,
            bundle_data: opt_string_duplicate(&self.bundle_data),
            bundle_salt: opt_string_duplicate(&self.bundle_salt),
        }
    }

    /// Field-wise equality of two messages.
    pub fn equals(&self, other: &TransferLog) -> (r: bool)
        ensures
            r == transfer_log_eq(*self, *other),
    {
        self.sender == other.sender && self.receiver == other.receiver && self.chain_to
            == other.chain_to && self.is_wrapped == other.is_wrapped && opt_str_eq(
            &self.bundle_data,
            &other.bundle_data,
        ) && opt_str_eq(&self.bundle_salt, &other.bundle_salt)
    }
}

/// Two messages describe the same forward when every field reads the
/// same.
pub open spec fn transfer_log_eq(a: TransferLog, b: TransferLog) -> bool {
    &&& a.sender@ == b.sender@
    &&& a.receiver@ == b.receiver@
    &&& a.chain_to@ == b.chain_to@
    &&& a.is_wrapped == b.is_wrapped
    &&& opt_chars_view(a.bundle_data) == opt_chars_view(b.bundle_data)
    &&& opt_chars_view(a.bundle_salt) == opt_chars_view(b.bundle_salt)
}

/// The canonical message one leg's log describes for the given sender:
/// both legs must derive the same message.
pub open spec fn message_of(sender: String, log: DepositLog) -> TransferLog {
    TransferLog {
        sender: sender,
        receiver: log.receiver,
        chain_to: log.chain_to,
        is_wrapped: log.is_wrapped,
        bundle_data: log.bundle_data,
        bundle_salt: log.bundle_salt,
    }
}

/// Builds the canonical message a leg's log describes.
pub fn msg_from_deposit_log(sender: String, log: &DepositLog) -> (r: TransferLog)
    ensures
        r == message_of(sender, *log),
{
    TransferLog {
        sender,
        receiver: log.receiver.clone(),
        chain_to: log.chain_to.clone(),
        is_wrapped: log.is_wrapped,
        bundle_data: opt_string_duplicate(&log.bundle_data),
        bundle_salt: opt_string_duplicate(&log.bundle_salt),
    }
}

/// An identical optional text.
pub fn opt_string_duplicate(o: &Option<String>) -> (r: Option<String>)
    ensures
        r == *o,
{
    match o {
        Some(s) => Some(s.clone()),
        None => None,
    }
}

/// Textual equality of two optional texts.
pub fn opt_str_eq(a: &Option<String>, b: &Option<String>) -> (r: bool)
    ensures
        r == (opt_chars_view(*a) == opt_chars_view(*b)),
{
    match (a, b) {
        (Some(x), Some(y)) => *x == *y,
        (None, None) => true,
        _ => {
            proof {
                assert(opt_chars_view(*a) != opt_chars_view(*b));
            }
            false
        },
    }
}

/// One validated log carried by a deposit leg: the leg kind, the asset
/// and fee-token identities, and the intended forward's fields.
#[derive(Debug)]
pub struct DepositLog {
    pub fee_token_addr: Option<String>,
    pub token_addr: Option<String>,
    pub token_type: TokenType,
    pub transfer_type: TransferType,
    pub receiver: String,
    pub chain_to: String,
    pub is_wrapped: bool,
    pub bundle_data: Option<String>,
    pub bundle_salt: Option<String>,
}

impl DepositLog {
    /// An identical log.
    pub fn duplicate(&self) -> (r: Self)
        ensures
            r == *self,
    {
        DepositLog {
            fee_token_addr: opt_string_duplicate(&self.fee_token_addr),
            token_addr: opt_string_duplicate(&self.token_addr),
            token_type: self.token_type,
            transfer_type: self.transfer_type,
            receiver: self.receiver.clone(),
            chain_to: self.chain_to.clone(),
            is_wrapped: self.is_wrapped,
            bundle_data: opt_string_duplicate(&self.bundle_data),
            bundle_salt: opt_string_duplicate(&self.bundle_salt),
        }
    }
}

/// A signed fee-token admin operation: the token entry it concerns and
/// the proof material that authenticates it.
#[derive(Debug)]
pub struct FeeManageOperation {
    pub token: crate::fee_tokens::FeeToken,
    pub origin: String,
    pub path: Vec<crate::types::Hash>,
    pub signature: String,
    pub recovery_id: RecoveryID,
}

} // verus!
