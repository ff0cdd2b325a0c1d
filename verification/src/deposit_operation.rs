//! The per-account pending-deposit record: fields accumulate from
//! whichever leg arrives first, and two independent flags mark the fee
//! and deposit legs.

use vstd::prelude::*;
use crate::feer_types::{
    message_of, msg_from_deposit_log, opt_str_eq, opt_string_duplicate, transfer_log_eq,
    DepositLog, TransferLog, TransferType,
};
use crate::types::TokenType;

verus! {

/// A per-account record accumulating what the legs of a two-phase
/// deposit have established so far. Fields populate monotonically and
/// are unset only by a full reset.
#[derive(Debug)]
pub struct DepositOperation {
    pub owner: String,
    pub deposited: bool,
    pub fee_charged: bool,
    pub token_addr: Option<String>,
    pub token_type: Option<TokenType>,
    pub fee_token_addr: Option<String>,
    pub receiver: Option<String>,
    pub msg: Option<TransferLog>,
    pub amount: Option<u128>,
    pub token_id: Option<String>,
}

/// The record after merging one leg's log: every still-unset field takes
/// the log's value; set fields stay. The amount follows a deposit leg;
/// the flags are untouched.
pub open spec fn populated_op(
    op: DepositOperation,
    log: DepositLog,
    amount: Option<u128>,
    token_id: Option<String>,
) -> DepositOperation {
    DepositOperation {
        owner: op.owner,
        deposited: op.deposited,
        fee_charged: op.fee_charged,
        token_addr: if op.token_addr is Some {
            op.token_addr
        } else {
            log.token_addr
        },
        token_type: if op.token_type is Some {
            op.token_type
        } else {
            Some(log.token_type)
        },
        fee_token_addr: if op.fee_token_addr is Some {
            op.fee_token_addr
        } else {
            log.fee_token_addr
        },
        receiver: if op.receiver is Some {
            op.receiver
        } else {
            Some(log.receiver)
        },
        msg: if op.msg is Some {
            op.msg
        } else {
            Some(message_of(op.owner, log))
        },
        amount: if log.transfer_type == TransferType::Deposit && amount is Some {
            amount
        } else {
            op.amount
        },
        token_id: if op.token_id is None && token_id is Some {
            token_id
        } else {
            op.token_id
        },
    }
}

/// Whether a later leg's log agrees with what the record already holds:
/// the token identity, fee-token identity, receiver, canonical message
/// and token kind it would re-establish must read exactly as recorded.
pub open spec fn op_matches_log(op: DepositOperation, log: DepositLog) -> bool {
    &&& (op.token_addr matches Some(ta) ==> log.token_addr matches Some(lta) && ta@ == lta@)
    &&& ((op.fee_token_addr is None) == (log.fee_token_addr is None))
    &&& (op.fee_token_addr matches Some(fa) ==> log.fee_token_addr matches Some(lfa) && fa@
        == lfa@)
    &&& (op.receiver matches Some(rc) ==> rc@ == log.receiver@)
    &&& (op.msg matches Some(m) ==> transfer_log_eq(m, message_of(op.owner, log)))
    &&& (op.token_type matches Some(tt) ==> tt == log.token_type)
}

impl DepositOperation {
    /// An empty record for the account: no field set, no leg arrived.
    pub fn empty(owner: String) -> (r: Self)
        ensures
            r == empty_op(owner),
    {
        DepositOperation {
            owner,
            deposited: false,
            fee_charged: false,
            token_addr: None,
            token_type: None,
            fee_token_addr: None,
            receiver: None,
            msg: None,
            amount: None,
            token_id: None,
        }
    }

    /// An identical record.
    pub fn duplicate(&self) -> (r: Self)
        ensures
            r == *self,
    {
        DepositOperation {
            owner: self.owner.clone(),
            deposited: self.deposited,
            fee_charged: self.fee_charged,
            token_addr: opt_string_duplicate(&self.token_addr),
            token_type: self.token_type,
            fee_token_addr: opt_string_duplicate(&self.fee_token_addr),
            receiver: opt_string_duplicate(&self.receiver),
            msg: match &self.msg {
                Some(m) => Some(m.duplicate()),
                None => None,
            },
            amount: self.amount,
            token_id: opt_string_duplicate(&self.token_id),
        }
    }

    /// Merges one leg's log into the record: exactly the still-unset
    /// fields take the log's values.
    pub fn populate_from_raw(
        &mut self,
        log: &DepositLog,
        amount: Option<u128>,
        token_id: Option<String>,
    )
        ensures
            *final(self) == populated_op(*old(self), *log, amount, token_id),
    {
        if self.token_addr.is_none() {
            self.token_addr = opt_string_duplicate(&log.token_addr);
        }
        if self.token_type.is_none() {
            self.token_type = Some(log.token_type);
        }
        if self.fee_token_addr.is_none() {
            self.fee_token_addr = opt_string_duplicate(&log.fee_token_addr);
        }
        if self.receiver.is_none() {
            self.receiver = Some(log.receiver.clone());
        }
        if self.msg.is_none() {
            self.msg = Some(msg_from_deposit_log(self.owner.clone(), log));
        }
        let is_deposit: bool = match log.transfer_type {
            TransferType::Deposit => true,
            TransferType::Fee => false,
        };
        if is_deposit && amount.is_some() {
            self.amount = amount;
        }
        if self.token_id.is_none() && token_id.is_some() {
            self.token_id = token_id;
        }
    }

    /// Whether the log agrees with the fields already recorded.
    pub fn is_equals(&self, log: &DepositLog) -> (r: bool)
        ensures
            r == op_matches_log(*self, *log),
    {
        match &self.token_addr {
            Some(ta) => {
                match &log.token_addr {
                    Some(lta) => {
                        if !(*ta == *lta) {
                            return false;
                        }
                    },
                    None => {
                        return false;
                    },
                }
            },
            None => {},
        }
        if self.fee_token_addr.is_none() != log.fee_token_addr.is_none() {
            return false;
        }
        match (&self.fee_token_addr, &log.fee_token_addr) {
            (Some(fa), Some(lfa)) => {
                if !(*fa == *lfa) {
                    return false;
                }
            },
            _ => {},
        }
        match &self.receiver {
            Some(rc) => {
                if !(*rc == log.receiver) {
                    return false;
                }
            },
            None => {},
        }
        match &self.msg {
            Some(m) => {
                let expected: TransferLog = msg_from_deposit_log(self.owner.clone(), log);
                if !m.equals(&expected) {
                    return false;
                }
            },
            None => {},
        }
        match &self.token_type {
            Some(tt) => {
                if !(*tt == log.token_type) {
                    return false;
                }
            },
            None => {},
        }
        true
    }
}

/// The record an account registers with, and returns to after a reset:
/// the owner alone, everything else unset.
pub open spec fn empty_op(owner: String) -> DepositOperation {
    DepositOperation {
        owner: owner,
        deposited: false,
        fee_charged: false,
        token_addr: None,
        token_type: None,
        fee_token_addr: None,
        receiver: None,
        msg: None,
        amount: None,
        token_id: None,
    }
}

} // verus!
