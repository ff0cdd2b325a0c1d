//! Structured event records the bridge emits for off-chain indexers:
//! deposited and withdrawn events for the native asset, fungible tokens
//! and non-fungible tokens, each versioned and tagged by standard. The
//! records are built here; the emission is the host's work.

use vstd::prelude::*;
use crate::hex::prefixed_hex_of;
use crate::types::RecoveryID;

verus! {

/// An inbound non-fungible deposit, as indexers see it.
#[derive(Debug)]
pub struct NftDepositedData {
    pub token: String,
    pub token_id: String,
    pub sender: String,
    pub receiver: String,
    pub chain_to: String,
    pub is_wrapped: bool,
    pub bundle_data: Option<String>,
    pub bundle_salt: Option<String>,
}

impl NftDepositedData {
    pub fn new(
        token: &String,
        token_id: &String,
        sender: &String,
        receiver: &String,
        chain_to: &String,
        is_wrapped: bool,
        bundle_data: Option<String>,
        bundle_salt: Option<String>,
    ) -> (r: NftDepositedData)
        ensures
            r.token@ == token@,
            r.token_id@ == token_id@,
            r.sender@ == sender@,
            r.receiver@ == receiver@,
            r.chain_to@ == chain_to@,
            r.is_wrapped == is_wrapped,
            r.bundle_data == bundle_data,
            r.bundle_salt == bundle_salt,
    {
        NftDepositedData {
            token: token.clone(),
            token_id: token_id.clone(),
            sender: sender.clone(),
            receiver: receiver.clone(),
            chain_to: chain_to.clone(),
            is_wrapped,
            bundle_data,
            bundle_salt,
        }
    }
}

/// An inbound fungible deposit, as indexers see it.
#[derive(Debug)]
pub struct FtDepositedData {
    pub token: String,
    pub amount: u128,
    pub sender: String,
    pub receiver: String,
    pub chain_to: String,
    pub is_wrapped: bool,
    pub bundle_data: Option<String>,
    pub bundle_salt: Option<String>,
}

impl FtDepositedData {
    pub fn new(
        token: &String,
        amount: u128,
        sender: &String,
        receiver: &String,
        chain_to: &String,
        is_wrapped: bool,
        bundle_data: Option<String>,
        bundle_salt: Option<String>,
    ) -> (r: FtDepositedData)
        ensures
            r.token@ == token@,
            r.amount == amount,
            r.sender@ == sender@,
            r.receiver@ == receiver@,
            r.chain_to@ == chain_to@,
            r.is_wrapped == is_wrapped,
            r.bundle_data == bundle_data,
            r.bundle_salt == bundle_salt,
    {
        FtDepositedData {
            token: token.clone(),
            amount,
            sender: sender.clone(),
            receiver: receiver.clone(),
            chain_to: chain_to.clone(),
            is_wrapped,
            bundle_data,
            bundle_salt,
        }
    }
}

/// An inbound native deposit, as indexers see it.
#[derive(Debug)]
pub struct NativeDepositedData {
    pub amount: u128,
    pub sender: String,
    pub receiver: String,
    pub chain_to: String,
    pub bundle_data: Option<String>,
    pub bundle_salt: Option<String>,
}

impl NativeDepositedData {
    pub fn new(
        amount: u128,
        sender: &String,
        receiver: &String,
        chain_to: &String,
        bundle_data: Option<String>,
        bundle_salt: Option<String>,
    ) -> (r: NativeDepositedData)
        ensures
            r.amount == amount,
            r.sender@ == sender@,
            r.receiver@ == receiver@,
            r.chain_to@ == chain_to@,
            r.bundle_data == bundle_data,
            r.bundle_salt == bundle_salt,
    {
        NativeDepositedData {
            amount,
            sender: sender.clone(),
            receiver: receiver.clone(),
            chain_to: chain_to.clone(),
            bundle_data,
            bundle_salt,
        }
    }
}

/// The sibling path rendered as prefixed hexadecimal texts.
pub fn path_to_str_vec(path: Vec<crate::types::Hash>) -> (r: Vec<String>)
    ensures
        r@.len() == path@.len(),
        forall|i: int| 0 <= i < path@.len() ==> (#[trigger] r@[i])@ == prefixed_hex_of(path@[i]@),
{
    let n: usize = path.len();
    let mut out: Vec<String> = Vec::new();
    let mut i: usize = 0;
    while i < n
        invariant
            path@.len() == n,
            i <= n,
            out@.len() == i,
            forall|j: int|
                0 <= j < i ==> (#[trigger] out@[j])@ == prefixed_hex_of(path@[j]@),
        decreases n - i,
    {
        out.push(path[i].as_str());
        i += 1;
    }
    out
}

/// An outbound non-fungible withdrawal, as indexers see it.
#[derive(Debug)]
pub struct NftWithdrawnData {
    pub token: String,
    pub token_id: String,
    pub sender: String,
    pub receiver: String,
    pub origin: String,
    pub signature: String,
    pub path: Vec<String>,
    pub recovery_id: RecoveryID,
    pub is_wrapped: bool,
}

impl NftWithdrawnData {
    pub fn new(
        token: &String,
        token_id: &String,
        sender: &String,
        receiver: &String,
        origin: &String,
        signature: &String,
        path: Vec<crate::types::Hash>,
        recovery_id: RecoveryID,
        is_wrapped: bool,
    ) -> (r: NftWithdrawnData)
        ensures
            r.token@ == token@,
            r.token_id@ == token_id@,
            r.sender@ == sender@,
            r.receiver@ == receiver@,
            r.origin@ == origin@,
            r.signature@ == signature@,
            r.path@.len() == path@.len(),
            forall|i: int|
                0 <= i < path@.len() ==> (#[trigger] r.path@[i])@ == prefixed_hex_of(path@[i]@),
            r.recovery_id == recovery_id,
            r.is_wrapped == is_wrapped,
    {
        NftWithdrawnData {
            token: token.clone(),
            token_id: token_id.clone(),
            sender: sender.clone(),
            receiver: receiver.clone(),
            origin: origin.clone(),
            signature: signature.clone(),
            path: path_to_str_vec(path),
            recovery_id,
            is_wrapped,
        }
    }
}

/// An outbound fungible withdrawal, as indexers see it.
#[derive(Debug)]
pub struct FtWithdrawnData {
    pub token: String,
    pub sender: String,
    pub receiver: String,
    pub origin: String,
    pub signature: String,
    pub amount: u128,
    pub path: Vec<String>,
    pub recovery_id: RecoveryID,
    pub is_wrapped: bool,
}

impl FtWithdrawnData {
    pub fn new(
        token: &String,
        amount: u128,
        sender: &String,
        receiver: &String,
        origin: &String,
        signature: &String,
        path: Vec<crate::types::Hash>,
        recovery_id: RecoveryID,
        is_wrapped: bool,
    ) -> (r: FtWithdrawnData)
        ensures
            r.token@ == token@,
            r.amount == amount,
            r.sender@ == sender@,
            r.receiver@ == receiver@,
            r.origin@ == origin@,
            r.signature@ == signature@,
            r.path@.len() == path@.len(),
            forall|i: int|
                0 <= i < path@.len() ==> (#[trigger] r.path@[i])@ == prefixed_hex_of(path@[i]@),
            r.recovery_id == recovery_id,
            r.is_wrapped == is_wrapped,
    {
        FtWithdrawnData {
            token: token.clone(),
            sender: sender.clone(),
            receiver: receiver.clone(),
            amount,
            origin: origin.clone(),
            signature: signature.clone(),
            path: path_to_str_vec(path),
            recovery_id,
            is_wrapped,
        }
    }
}

/// An outbound native withdrawal, as indexers see it.
#[derive(Debug)]
pub struct NativeWithdrawnData {
    pub sender: String,
    pub receiver: String,
    pub amount: u128,
    pub origin: String,
    pub signature: String,
    pub path: Vec<String>,
    pub recovery_id: RecoveryID,
}

impl NativeWithdrawnData {
    pub fn new(
        amount: u128,
        sender: &String,
        receiver: &String,
        origin: &String,
        signature: &String,
        path: Vec<crate::types::Hash>,
        recovery_id: RecoveryID,
    ) -> (r: NativeWithdrawnData)
        ensures
            r.amount == amount,
            r.sender@ == sender@,
            r.receiver@ == receiver@,
            r.origin@ == origin@,
            r.signature@ == signature@,
            r.path@.len() == path@.len(),
            forall|i: int|
                0 <= i < path@.len() ==> (#[trigger] r.path@[i])@ == prefixed_hex_of(path@[i]@),
            r.recovery_id == recovery_id,
    {
        NativeWithdrawnData {
            sender: sender.clone(),
            receiver: receiver.clone(),
            amount,
            origin: origin.clone(),
            signature: signature.clone(),
            path: path_to_str_vec(path),
            recovery_id,
        }
    }
}

/// The deposit and withdrawal events of the non-fungible standard.
#[derive(Debug)]
pub enum Nep171EventKind {
    NftDeposited(Vec<NftDepositedData>),
    NftWithdrawn(Vec<NftWithdrawnData>),
}

/// The deposit and withdrawal events of the fungible standard.
#[derive(Debug)]
pub enum Nep141EventKind {
    FtDeposited(Vec<FtDepositedData>),
    FtWithdrawn(Vec<FtWithdrawnData>),
}

/// The deposit and withdrawal events of the native asset.
#[derive(Debug)]
pub enum NativeEventKind {
    NativeDeposited(Vec<NativeDepositedData>),
    NativeWithdrawn(Vec<NativeWithdrawnData>),
}

/// A versioned non-fungible event.
#[derive(Debug)]
pub struct Nep171Event {
    pub version: String,
    pub event_kind: Nep171EventKind,
}

/// A versioned fungible event.
#[derive(Debug)]
pub struct Nep141Event {
    pub version: String,
    pub event_kind: Nep141EventKind,
}

/// A versioned native-asset event.
#[derive(Debug)]
pub struct NativeEvent {
    pub version: String,
    pub event_kind: NativeEventKind,
}

/// One emitted event, tagged by the standard it follows.
#[derive(Debug)]
pub enum NearEvent {
    Nep171(Nep171Event),
    Nep141(Nep141Event),
    Native(NativeEvent),
}

impl NearEvent {
    pub fn new_171(version: String, event_kind: Nep171EventKind) -> (r: Self)
        ensures
            r == NearEvent::Nep171(Nep171Event { version, event_kind }),
    {
        NearEvent::Nep171(Nep171Event { version, event_kind })
    }

    pub fn new_141(version: String, event_kind: Nep141EventKind) -> (r: Self)
        ensures
            r == NearEvent::Nep141(Nep141Event { version, event_kind }),
    {
        NearEvent::Nep141(Nep141Event { version, event_kind })
    }

    pub fn new_native(version: String, event_kind: NativeEventKind) -> (r: Self)
        ensures
            r == NearEvent::Native(NativeEvent { version, event_kind }),
    {
        NearEvent::Native(NativeEvent { version, event_kind })
    }

    pub fn new_171_v1(event_kind: Nep171EventKind) -> (r: Self)
        ensures
            r matches NearEvent::Nep171(e) && e.version@ == "1.0.0"@ && e.event_kind
                == event_kind,
    {
        NearEvent::new_171(<String as vstd::string::StringExecFns>::from_str("1.0.0"), event_kind)
    }

    pub fn new_141_v1(event_kind: Nep141EventKind) -> (r: Self)
        ensures
            r matches NearEvent::Nep141(e) && e.version@ == "1.0.0"@ && e.event_kind
                == event_kind,
    {
        NearEvent::new_141(<String as vstd::string::StringExecFns>::from_str("1.0.0"), event_kind)
    }

    pub fn new_native_v1(event_kind: NativeEventKind) -> (r: Self)
        ensures
            r matches NearEvent::Native(e) && e.version@ == "1.0.0"@ && e.event_kind
                == event_kind,
    {
        NearEvent::new_native(
            <String as vstd::string::StringExecFns>::from_str("1.0.0"),
            event_kind,
        )
    }

    pub fn nft_deposited(data: Vec<NftDepositedData>) -> (r: Self)
        ensures
            r matches NearEvent::Nep171(e) && e.version@ == "1.0.0"@ && e.event_kind
                == Nep171EventKind::NftDeposited(data),
    {
        NearEvent::new_171_v1(Nep171EventKind::NftDeposited(data))
    }

    pub fn nft_withdrawn(data: Vec<NftWithdrawnData>) -> (r: Self)
        ensures
            r matches NearEvent::Nep171(e) && e.version@ == "1.0.0"@ && e.event_kind
                == Nep171EventKind::NftWithdrawn(data),
    {
        NearEvent::new_171_v1(Nep171EventKind::NftWithdrawn(data))
    }

    pub fn ft_deposited(data: Vec<FtDepositedData>) -> (r: Self)
        ensures
            r matches NearEvent::Nep141(e) && e.version@ == "1.0.0"@ && e.event_kind
                == Nep141EventKind::FtDeposited(data),
    {
        NearEvent::new_141_v1(Nep141EventKind::FtDeposited(data))
    }

    pub fn ft_withdrawn(data: Vec<FtWithdrawnData>) -> (r: Self)
        ensures
            r matches NearEvent::Nep141(e) && e.version@ == "1.0.0"@ && e.event_kind
                == Nep141EventKind::FtWithdrawn(data),
    {
        NearEvent::new_141_v1(Nep141EventKind::FtWithdrawn(data))
    }

    pub fn native_deposited(data: Vec<NativeDepositedData>) -> (r: Self)
        ensures
            r matches NearEvent::Native(e) && e.version@ == "1.0.0"@ && e.event_kind
                == NativeEventKind::NativeDeposited(data),
    {
        NearEvent::new_native_v1(NativeEventKind::NativeDeposited(data))
    }

    pub fn native_withdrawn(data: Vec<NativeWithdrawnData>) -> (r: Self)
        ensures
            r matches NearEvent::Native(e) && e.version@ == "1.0.0"@ && e.event_kind
                == NativeEventKind::NativeWithdrawn(data),
    {
        NearEvent::new_native_v1(NativeEventKind::NativeWithdrawn(data))
    }
}

} // verus!
