//! The bridge's authentication state and operations: admin operations
//! protected by a signature and a nonce, and inbound withdrawals
//! protected by a Merkle proof, a signature and the replay ledger.

use vstd::prelude::*;
use vstd::utf8::encode_utf8;
use crate::bytes::{be32_of, lemma_be_val_be32_of, lemma_pow256_8, lemma_pow256_adds, pow256};
use crate::crypto::keccak_of;
use crate::encoder::{TransferFullMetaOperation, TransferOperation};
use crate::hashes::{consumed, Hashes};
use crate::merkle::{
    content_hash_input, get_merkle_root, hashes_view, merkle_fold, signature_matches,
    verify_ecdsa_signature, ContentNode, Data,
};
use crate::types::{
    hash_from_hex_spec, signature_from_hex_spec, valid_signer_key, RecoveryID, Secp256K1Signature,
    SignerPublicKey,
};

verus! {

/// Why a bridge operation was refused. Every failure leaves the state
/// unchanged: no field is written before all checks pass.
#[derive(Clone, Copy, Debug, PartialEq, Eq, Structural)]
pub enum BridgeError {
    /// The bridge is paused.
    Paused,
    /// Construction requires a non-empty chain identifier.
    EmptyChain,
    /// The signer key does not decode to a 64-byte public key.
    InvalidSigner,
    /// The signature text is not well-formed 64-byte prefixed hex.
    MalformedSignature,
    /// The origin text is not well-formed 32-byte prefixed hex.
    MalformedOrigin,
    /// The amount text is not a decimal number that fits 128 bits.
    MalformedAmount,
    /// Recovery failed or the recovered key is not the trusted signer.
    SignatureMismatch,
    /// The origin hash was already consumed.
    HashAlreadyUsed,
    /// The caller is not the configured fee contract.
    Unauthorized,
    /// A native deposit needs a positive attached amount.
    EmptyDeposit,
}

/// The bridge's persisted state: the trusted signer, the replay ledger,
/// the chain identifier, the fee-contract identity, the admin nonce and
/// the pause flag.
pub struct Bridge {
    pub signer: SignerPublicKey,
    pub hashes: Hashes,
    pub chain: String,
    pub fee_contract: String,
    pub nonce: u128,
    pub paused: bool,
}

/// The contract-bound suffix mixed into every admin message: the chain
/// identifier, the current nonce as a 32-byte big-endian buffer, and the
/// contract's own account identity. The nonce makes every admin message
/// unique.
pub open spec fn contract_hash_data(chain: Seq<char>, nonce: u128, account: Seq<char>) -> Seq<
    u8,
> {
    encode_utf8(chain) + be32_of(nonce as nat) + encode_utf8(account)
}

/// The signed hash of an admin operation: the operation's semantic value
/// followed by the contract-bound suffix, digested.
pub open spec fn authorized_operation_hash(
    value: Seq<char>,
    chain: Seq<char>,
    nonce: u128,
    account: Seq<char>,
) -> Seq<u8> {
    keccak_of(encode_utf8(value) + contract_hash_data(chain, nonce, account))
}

/// The signed hash of a code upgrade: the new code's digest followed by
/// the contract-bound suffix, digested.
pub open spec fn update_contract_hash(
    code: Seq<u8>,
    chain: Seq<char>,
    nonce: u128,
    account: Seq<char>,
) -> Seq<u8> {
    keccak_of(keccak_of(code) + contract_hash_data(chain, nonce, account))
}

/// The configuration fields an inbound withdrawal never touches.
pub open spec fn same_config(pre: Bridge, post: Bridge) -> bool {
    &&& post.signer == pre.signer
    &&& post.chain == pre.chain
    &&& post.fee_contract == pre.fee_contract
    &&& post.nonce == pre.nonce
    &&& post.paused == pre.paused
}

/// One successful admin operation: the nonce advances by exactly one.
pub open spec fn admin_step(pre: Bridge, post: Bridge) -> bool {
    post.nonce == pre.nonce + 1
}

impl Bridge {
    /// Well-formed bridge state: the ledger is well-formed.
    pub open spec fn wf(&self) -> bool {
        self.hashes.wf()
    }

    /// Constructs the bridge. The chain identifier must be non-empty and
    /// the first signer must decode to a 64-byte public key: this is the
    /// self-referential bootstrap, the only signer not installed through
    /// a signed admin operation.
    pub fn new(signer: SignerPublicKey, fee_contract: String, chain: String) -> (r: Result<
        Bridge,
        BridgeError,
    >)
        ensures
            match r {
                Ok(b) => chain@.len() > 0 && valid_signer_key(signer@) && b.wf() && b.signer@
                    == signer@ && b.chain@ == chain@ && b.fee_contract@ == fee_contract@
                    && b.nonce == 0 && b.paused == false && b.hashes.contents() == Map::<
                    Seq<u8>,
                    bool,
                >::empty(),
                Err(e) => (e == BridgeError::EmptyChain && chain@.len() == 0) || (e
                    == BridgeError::InvalidSigner && chain@.len() > 0 && !valid_signer_key(
                    signer@,
                )),
            },
    {
        if chain.as_str().is_empty() {
            return Err(BridgeError::EmptyChain);
        }
        proof {
            broadcast use vstd::string::is_ascii_spec_bytes;
        }
        if !signer.validate() {
            return Err(BridgeError::InvalidSigner);
        }
        Ok(
            Bridge {
                signer,
                hashes: Hashes::new(),
                nonce: 0,
                fee_contract,
                chain,
                paused: false,
            },
        )
    }

    /// The configured chain identifier.
    pub fn get_chain(&self) -> (r: String)
        ensures
            r@ == self.chain@,
    {
        self.chain.clone()
    }

    /// The configured fee-contract identity.
    pub fn get_fee_contract(&self) -> (r: String)
        ensures
            r@ == self.fee_contract@,
    {
        self.fee_contract.clone()
    }

    /// The trusted signer's encoded key.
    pub fn get_signer(&self) -> (r: SignerPublicKey)
        ensures
            r@ == self.signer@,
    {
        SignerPublicKey::new(self.signer.to_string())
    }

    /// The contract-bound suffix for the current nonce.
    fn get_contract_based_hash_data(&self, self_account: &String) -> (r: Vec<u8>)
        ensures
            r@ == contract_hash_data(self.chain@, self.nonce, self_account@),
    {
        let mut data: Vec<u8> = Vec::new();
        let chain_bytes: Vec<u8> = vstd::string::StrSliceExecFns::as_bytes_vec(
            self.chain.as_str(),
        );
        crate::bytes::append_bytes(&mut data, chain_bytes.as_slice());
        let nonce_bytes: Vec<u8> = crate::bytes::u128_to_bytes(self.nonce);
        crate::bytes::append_bytes(&mut data, nonce_bytes.as_slice());
        let account_bytes: Vec<u8> = vstd::string::StrSliceExecFns::as_bytes_vec(
            self_account.as_str(),
        );
        crate::bytes::append_bytes(&mut data, account_bytes.as_slice());
        proof {
            assert(data@ =~= contract_hash_data(self.chain@, self.nonce, self_account@));
        }
        data
    }

    /// The signed hash of an admin operation over the given semantic
    /// value, bound to this contract and the current nonce.
    pub fn get_authorized_operation_hash(&self, value: String, self_account: &String) -> (r:
        crate::types::Hash)
        ensures
            r@ == authorized_operation_hash(value@, self.chain@, self.nonce, self_account@),
    {
        let mut data: Vec<u8> = vstd::string::StrSliceExecFns::as_bytes_vec(value.as_str());
        let contract_data: Vec<u8> = self.get_contract_based_hash_data(self_account);
        crate::bytes::append_bytes(&mut data, contract_data.as_slice());
        proof {
            assert(data@ =~= encode_utf8(value@) + contract_hash_data(
                self.chain@,
                self.nonce,
                self_account@,
            ));
        }
        let digest: Vec<u8> = crate::crypto::keccak256(&data);
        crate::types::Hash::from_vec(digest)
    }

    /// The signed hash of a code upgrade, bound to this contract and the
    /// current nonce.
    fn get_update_contract_hash(&self, code: &Vec<u8>, self_account: &String) -> (r:
        crate::types::Hash)
        ensures
            r@ == update_contract_hash(code@, self.chain@, self.nonce, self_account@),
    {
        let mut data: Vec<u8> = crate::crypto::keccak256(code);
        let contract_data: Vec<u8> = self.get_contract_based_hash_data(self_account);
        crate::bytes::append_bytes(&mut data, contract_data.as_slice());
        proof {
            assert(data@ =~= keccak_of(code@) + contract_hash_data(
                self.chain@,
                self.nonce,
                self_account@,
            ));
        }
        let digest: Vec<u8> = crate::crypto::keccak256(&data);
        crate::types::Hash::from_vec(digest)
    }

    /// Checks a signature over a message against the trusted signer.
    pub fn check_signature(
        &self,
        msg: &crate::types::Hash,
        signature: &Secp256K1Signature,
        recovery_id: &RecoveryID,
    ) -> (r: bool)
        ensures
            r == signature_matches(self.signer@, msg@, signature@, recovery_id@),
    {
        verify_ecdsa_signature(&self.signer, msg, signature, recovery_id)
    }

    /// Checks a signature and, on success, advances the nonce by exactly
    /// one, making every subsequent admin message unique. On failure
    /// nothing changes.
    pub fn check_signature_and_increment_nonce(
        &mut self,
        msg: &crate::types::Hash,
        signature: &Secp256K1Signature,
        recovery_id: &RecoveryID,
    ) -> (r: bool)
        requires
            old(self).nonce < u128::MAX,
        ensures
            r == signature_matches(old(self).signer@, msg@, signature@, recovery_id@),
            final(self).signer == old(self).signer,
            final(self).hashes == old(self).hashes,
            final(self).chain == old(self).chain,
            final(self).fee_contract == old(self).fee_contract,
            final(self).paused == old(self).paused,
            r ==> admin_step(*old(self), *final(self)),
            !r ==> final(self).nonce == old(self).nonce,
    {
        if self.check_signature(msg, signature, recovery_id) {
            self.nonce = self.nonce + 1;
            true
        } else {
            false
        }
    }

    /// Installs a new fee contract, authorized by a signature over the
    /// new identity bound to this contract and the current nonce.
    pub fn set_fee_contract(
        &mut self,
        fee_contract: String,
        signature: String,
        recovery_id: RecoveryID,
        self_account: &String,
    ) -> (r: Result<(), BridgeError>)
        requires
            old(self).nonce < u128::MAX,
        ensures
            final(self).signer == old(self).signer,
            final(self).hashes == old(self).hashes,
            final(self).chain == old(self).chain,
            final(self).paused == old(self).paused,
            match r {
                Ok(()) => {
                    let sig = signature_from_hex_spec(signature@);
                    &&& sig is Some
                    &&& signature_matches(
                        old(self).signer@,
                        authorized_operation_hash(
                            fee_contract@,
                            old(self).chain@,
                            old(self).nonce,
                            self_account@,
                        ),
                        sig.unwrap(),
                        recovery_id@,
                    )
                    &&& final(self).fee_contract@ == fee_contract@
                    &&& admin_step(*old(self), *final(self))
                },
                Err(BridgeError::MalformedSignature) => signature_from_hex_spec(signature@)
                    is None && *final(self) == *old(self),
                Err(BridgeError::SignatureMismatch) => {
                    let sig = signature_from_hex_spec(signature@);
                    &&& sig is Some
                    &&& !signature_matches(
                        old(self).signer@,
                        authorized_operation_hash(
                            fee_contract@,
                            old(self).chain@,
                            old(self).nonce,
                            self_account@,
                        ),
                        sig.unwrap(),
                        recovery_id@,
                    )
                    &&& *final(self) == *old(self)
                },
                Err(_) => false,
            },
    {
        let sign: Secp256K1Signature = match Secp256K1Signature::from_hex(signature) {
            Some(s) => s,
            None => {
                return Err(BridgeError::MalformedSignature);
            },
        };
        let value: String = fee_contract.clone();
        let hash: crate::types::Hash = self.get_authorized_operation_hash(value, self_account);
        if !self.check_signature_and_increment_nonce(&hash, &sign, &recovery_id) {
            return Err(BridgeError::SignatureMismatch);
        }
        self.fee_contract = fee_contract;
        Ok(())
    }

    /// Rotates the trusted signer, authorized by a signature over the new
    /// key's text bound to this contract and the current nonce. The new
    /// key must itself decode to a 64-byte public key.
    pub fn set_signer(
        &mut self,
        signer: SignerPublicKey,
        signature: String,
        recovery_id: RecoveryID,
        self_account: &String,
    ) -> (r: Result<(), BridgeError>)
        requires
            old(self).nonce < u128::MAX,
        ensures
            final(self).hashes == old(self).hashes,
            final(self).chain == old(self).chain,
            final(self).fee_contract == old(self).fee_contract,
            final(self).paused == old(self).paused,
            match r {
                Ok(()) => {
                    let sig = signature_from_hex_spec(signature@);
                    &&& sig is Some
                    &&& valid_signer_key(signer@)
                    &&& signature_matches(
                        old(self).signer@,
                        authorized_operation_hash(
                            signer@,
                            old(self).chain@,
                            old(self).nonce,
                            self_account@,
                        ),
                        sig.unwrap(),
                        recovery_id@,
                    )
                    &&& final(self).signer@ == signer@
                    &&& admin_step(*old(self), *final(self))
                },
                Err(BridgeError::MalformedSignature) => signature_from_hex_spec(signature@)
                    is None && *final(self) == *old(self),
                Err(BridgeError::InvalidSigner) => signature_from_hex_spec(signature@) is Some
                    && !valid_signer_key(signer@) && *final(self) == *old(self),
                Err(BridgeError::SignatureMismatch) => {
                    let sig = signature_from_hex_spec(signature@);
                    &&& sig is Some
                    &&& valid_signer_key(signer@)
                    &&& !signature_matches(
                        old(self).signer@,
                        authorized_operation_hash(
                            signer@,
                            old(self).chain@,
                            old(self).nonce,
                            self_account@,
                        ),
                        sig.unwrap(),
                        recovery_id@,
                    )
                    &&& *final(self) == *old(self)
                },
                Err(_) => false,
            },
    {
        let sign: Secp256K1Signature = match Secp256K1Signature::from_hex(signature) {
            Some(s) => s,
            None => {
                return Err(BridgeError::MalformedSignature);
            },
        };
        if !signer.validate() {
            return Err(BridgeError::InvalidSigner);
        }
        let hash: crate::types::Hash = self.get_authorized_operation_hash(
            signer.to_string(),
            self_account,
        );
        if !self.check_signature_and_increment_nonce(&hash, &sign, &recovery_id) {
            return Err(BridgeError::SignatureMismatch);
        }
        self.signer = signer;
        Ok(())
    }

    /// Pauses the bridge, authorized like every admin operation.
    pub fn pause_bridge(
        &mut self,
        signature: String,
        recovery_id: RecoveryID,
        self_account: &String,
    ) -> (r: Result<(), BridgeError>)
        requires
            old(self).nonce < u128::MAX,
        ensures
            final(self).signer == old(self).signer,
            final(self).hashes == old(self).hashes,
            final(self).chain == old(self).chain,
            final(self).fee_contract == old(self).fee_contract,
            match r {
                Ok(()) => {
                    let sig = signature_from_hex_spec(signature@);
                    &&& sig is Some
                    &&& signature_matches(
                        old(self).signer@,
                        authorized_operation_hash(
                            "pause"@,
                            old(self).chain@,
                            old(self).nonce,
                            self_account@,
                        ),
                        sig.unwrap(),
                        recovery_id@,
                    )
                    &&& final(self).paused == true
                    &&& admin_step(*old(self), *final(self))
                },
                Err(BridgeError::MalformedSignature) => signature_from_hex_spec(signature@)
                    is None && *final(self) == *old(self),
                Err(BridgeError::SignatureMismatch) => *final(self) == *old(self) && {
                    let sig = signature_from_hex_spec(signature@);
                    &&& sig is Some
                    &&& !signature_matches(
                        old(self).signer@,
                        authorized_operation_hash(
                            "pause"@,
                            old(self).chain@,
                            old(self).nonce,
                            self_account@,
                        ),
                        sig.unwrap(),
                        recovery_id@,
                    )
                },
                Err(_) => false,
            },
    {
        let sign: Secp256K1Signature = match Secp256K1Signature::from_hex(signature) {
            Some(s) => s,
            None => {
                return Err(BridgeError::MalformedSignature);
            },
        };
        let value: String = <String as vstd::string::StringExecFns>::from_str("pause");
        let hash: crate::types::Hash = self.get_authorized_operation_hash(value, self_account);
        if !self.check_signature_and_increment_nonce(&hash, &sign, &recovery_id) {
            return Err(BridgeError::SignatureMismatch);
        }
        self.paused = true;
        Ok(())
    }

    /// Resumes the bridge, authorized like every admin operation.
    pub fn resume_bridge(
        &mut self,
        signature: String,
        recovery_id: RecoveryID,
        self_account: &String,
    ) -> (r: Result<(), BridgeError>)
        requires
            old(self).nonce < u128::MAX,
        ensures
            final(self).signer == old(self).signer,
            final(self).hashes == old(self).hashes,
            final(self).chain == old(self).chain,
            final(self).fee_contract == old(self).fee_contract,
            match r {
                Ok(()) => {
                    let sig = signature_from_hex_spec(signature@);
                    &&& sig is Some
                    &&& signature_matches(
                        old(self).signer@,
                        authorized_operation_hash(
                            "resume"@,
                            old(self).chain@,
                            old(self).nonce,
                            self_account@,
                        ),
                        sig.unwrap(),
                        recovery_id@,
                    )
                    &&& final(self).paused == false
                    &&& admin_step(*old(self), *final(self))
                },
                Err(BridgeError::MalformedSignature) => signature_from_hex_spec(signature@)
                    is None && *final(self) == *old(self),
                Err(BridgeError::SignatureMismatch) => *final(self) == *old(self) && {
                    let sig = signature_from_hex_spec(signature@);
                    &&& sig is Some
                    &&& !signature_matches(
                        old(self).signer@,
                        authorized_operation_hash(
                            "resume"@,
                            old(self).chain@,
                            old(self).nonce,
                            self_account@,
                        ),
                        sig.unwrap(),
                        recovery_id@,
                    )
                },
                Err(_) => false,
            },
    {
        let sign: Secp256K1Signature = match Secp256K1Signature::from_hex(signature) {
            Some(s) => s,
            None => {
                return Err(BridgeError::MalformedSignature);
            },
        };
        let value: String = <String as vstd::string::StringExecFns>::from_str("resume");
        let hash: crate::types::Hash = self.get_authorized_operation_hash(value, self_account);
        if !self.check_signature_and_increment_nonce(&hash, &sign, &recovery_id) {
            return Err(BridgeError::SignatureMismatch);
        }
        self.paused = false;
        Ok(())
    }

    /// Authorizes a code upgrade: a signature over the new code's digest
    /// bound to this contract and the current nonce. The deployment
    /// itself is the host's work; this only decides and advances the
    /// nonce.
    pub fn update_contract(
        &mut self,
        code: &Vec<u8>,
        signature: String,
        recovery_id: RecoveryID,
        self_account: &String,
    ) -> (r: Result<(), BridgeError>)
        requires
            old(self).nonce < u128::MAX,
        ensures
            final(self).signer == old(self).signer,
            final(self).hashes == old(self).hashes,
            final(self).chain == old(self).chain,
            final(self).fee_contract == old(self).fee_contract,
            final(self).paused == old(self).paused,
            match r {
                Ok(()) => {
                    let sig = signature_from_hex_spec(signature@);
                    &&& sig is Some
                    &&& signature_matches(
                        old(self).signer@,
                        update_contract_hash(
                            code@,
                            old(self).chain@,
                            old(self).nonce,
                            self_account@,
                        ),
                        sig.unwrap(),
                        recovery_id@,
                    )
                    &&& admin_step(*old(self), *final(self))
                },
                Err(BridgeError::MalformedSignature) => signature_from_hex_spec(signature@)
                    is None && *final(self) == *old(self),
                Err(BridgeError::SignatureMismatch) => *final(self) == *old(self) && {
                    let sig = signature_from_hex_spec(signature@);
                    &&& sig is Some
                    &&& !signature_matches(
                        old(self).signer@,
                        update_contract_hash(
                            code@,
                            old(self).chain@,
                            old(self).nonce,
                            self_account@,
                        ),
                        sig.unwrap(),
                        recovery_id@,
                    )
                },
                Err(_) => false,
            },
    {
        let sign: Secp256K1Signature = match Secp256K1Signature::from_hex(signature) {
            Some(s) => s,
            None => {
                return Err(BridgeError::MalformedSignature);
            },
        };
        let hash: crate::types::Hash = self.get_update_contract_hash(code, self_account);
        if !self.check_signature_and_increment_nonce(&hash, &sign, &recovery_id) {
            return Err(BridgeError::SignatureMismatch);
        }
        Ok(())
    }

    /// Returns a consumed origin hash to unconsumed when the downstream
    /// asynchronous call reports failure, so the same proof can be
    /// resubmitted; after a success nothing changes.
    pub fn handle_hash_callback(&mut self, success: bool, hash: &crate::types::Hash)
        requires
            old(self).wf(),
        ensures
            final(self).wf(),
            same_config(*old(self), *final(self)),
            !success ==> final(self).hashes.contents() == old(self).hashes.contents().insert(
                hash@,
                false,
            ),
            success ==> final(self).hashes.contents() == old(self).hashes.contents(),
    {
        if !success {
            self.hashes.change_hash(hash, false);
        }
    }

    /// Accepts a native deposit notification: only the configured fee
    /// contract may deposit, only while unpaused, and only with a
    /// positive attached amount. The event emission is the caller's work.
    pub fn native_deposit(&self, predecessor: &String, attached_deposit: u128) -> (r: Result<
        (),
        BridgeError,
    >)
        ensures
            match r {
                Ok(()) => !self.paused && predecessor@ == self.fee_contract@ && attached_deposit
                    > 0,
                Err(BridgeError::Paused) => self.paused,
                Err(BridgeError::Unauthorized) => !self.paused && predecessor@
                    != self.fee_contract@,
                Err(BridgeError::EmptyDeposit) => !self.paused && predecessor@
                    == self.fee_contract@ && attached_deposit == 0,
                Err(_) => false,
            },
    {
        if self.paused {
            return Err(BridgeError::Paused);
        }
        if !(*predecessor == self.fee_contract) {
            return Err(BridgeError::Unauthorized);
        }
        if attached_deposit == 0 {
            return Err(BridgeError::EmptyDeposit);
        }
        Ok(())
    }

    /// Accepts a token-deposit notification arriving through a token
    /// contract: only the configured fee contract may forward deposits,
    /// and only while unpaused. The burn of a wrapped deposit and the
    /// event emission are the caller's work.
    pub fn accept_deposit_notice(&self, sender: &String) -> (r: Result<(), BridgeError>)
        ensures
            match r {
                Ok(()) => !self.paused && sender@ == self.fee_contract@,
                Err(BridgeError::Paused) => self.paused,
                Err(BridgeError::Unauthorized) => !self.paused && sender@
                    != self.fee_contract@,
                Err(_) => false,
            },
    {
        if self.paused {
            return Err(BridgeError::Paused);
        }
        if !(*sender == self.fee_contract) {
            return Err(BridgeError::Unauthorized);
        }
        Ok(())
    }

    /// Checks an inbound fungible-token withdrawal: decodes the
    /// signature and origin texts, folds the encoded transfer with the
    /// sibling path into the claimed root, verifies the signature over
    /// the root against the trusted signer, and consumes the origin hash
    /// exactly once. On success it returns the consumed origin hash, for
    /// the caller to roll back should the asset transfer fail; the asset
    /// transfer itself is the caller's work.
    #[allow(unused_variables)]
    pub fn ft_withdraw(
        &mut self,
        token: String,
        amount: u128,
        receiver_id: String,
        is_wrapped: bool,
        origin: String,
        path: &Vec<crate::types::Hash>,
        signature: String,
        recovery_id: RecoveryID,
        self_account: &String,
    ) -> (r: Result<crate::types::Hash, BridgeError>)
        requires
            old(self).wf(),
        ensures
            final(self).wf(),
            same_config(*old(self), *final(self)),
            ({
                let ob = hash_from_hex_spec(origin@);
                let sb = signature_from_hex_spec(signature@);
                let root = withdraw_root(
                    ft_transfer_payload(token@, amount),
                    if ob is Some {
                        ob.unwrap()
                    } else {
                        Seq::<u8>::empty()
                    },
                    old(self).chain@,
                    receiver_id@,
                    self_account@,
                    path@,
                );
                match r {
                    Ok(h) => {
                        &&& !old(self).paused
                        &&& sb is Some
                        &&& ob is Some
                        &&& h@ == ob.unwrap()
                        &&& signature_matches(old(self).signer@, root, sb.unwrap(), recovery_id@)
                        &&& !consumed(old(self).hashes.contents(), ob.unwrap())
                        &&& final(self).hashes.contents() == old(self).hashes.contents().insert(
                            ob.unwrap(),
                            true,
                        )
                    },
                    Err(BridgeError::Paused) => old(self).paused && *final(self) == *old(self),
                    Err(BridgeError::MalformedSignature) => !old(self).paused && sb is None
                        && *final(self) == *old(self),
                    Err(BridgeError::MalformedOrigin) => !old(self).paused && sb is Some
                        && ob is None && *final(self) == *old(self),
                    Err(BridgeError::SignatureMismatch) => !old(self).paused && sb is Some
                        && ob is Some && !signature_matches(
                        old(self).signer@,
                        root,
                        sb.unwrap(),
                        recovery_id@,
                    ) && *final(self) == *old(self),
                    Err(BridgeError::HashAlreadyUsed) => !old(self).paused && sb is Some
                        && ob is Some && signature_matches(
                        old(self).signer@,
                        root,
                        sb.unwrap(),
                        recovery_id@,
                    ) && consumed(old(self).hashes.contents(), ob.unwrap()) && final(self).hashes.contents() == old(self).hashes.contents(),
                    Err(_) => false,
                }
            }),
    {
        if self.paused {
            return Err(BridgeError::Paused);
        }
        let sign: Secp256K1Signature = match Secp256K1Signature::from_hex(signature) {
            Some(s) => s,
            None => {
                return Err(BridgeError::MalformedSignature);
            },
        };
        let origin_hash: crate::types::Hash = match crate::types::Hash::from_hex(origin) {
            Some(h) => h,
            None => {
                return Err(BridgeError::MalformedOrigin);
            },
        };
        let ghost token_view: Seq<char> = token@;
        let op: TransferFullMetaOperation = TransferFullMetaOperation::new_ft_transfer(
            token,
            amount,
        );
        let data: Vec<u8> = op.get_data();
        proof {
            assert(data@ == ft_transfer_payload(token_view, amount));
        }
        let content: ContentNode = ContentNode::new(
            origin_hash.duplicate(),
            self_account.clone(),
            self.chain.clone(),
            data,
            Some(receiver_id),
        );
        let root: crate::types::Hash = get_merkle_root(content, path);
        if !self.check_signature(&root, &sign, &recovery_id) {
            return Err(BridgeError::SignatureMismatch);
        }
        if !self.hashes.check_hash(&origin_hash) {
            return Err(BridgeError::HashAlreadyUsed);
        }
        Ok(origin_hash)
    }

    /// Checks an inbound native-asset withdrawal: parses the decimal
    /// amount, then proceeds exactly like a fungible withdrawal over the
    /// native payload. The balance transfer itself is the caller's work.
    pub fn native_withdraw(
        &mut self,
        receiver_id: String,
        amount: String,
        origin: String,
        path: &Vec<crate::types::Hash>,
        signature: String,
        recovery_id: RecoveryID,
        self_account: &String,
    ) -> (r: Result<crate::types::Hash, BridgeError>)
        requires
            old(self).wf(),
        ensures
            final(self).wf(),
            same_config(*old(self), *final(self)),
            ({
                let ob = hash_from_hex_spec(origin@);
                let sb = signature_from_hex_spec(signature@);
                let amount_ok = crate::decimal::is_dec_digits(amount@) && crate::decimal::dec_val(
                    amount@,
                ) <= u128::MAX;
                let root = withdraw_root(
                    be32_of(crate::decimal::dec_val(amount@)),
                    if ob is Some {
                        ob.unwrap()
                    } else {
                        Seq::<u8>::empty()
                    },
                    old(self).chain@,
                    receiver_id@,
                    self_account@,
                    path@,
                );
                match r {
                    Ok(h) => {
                        &&& !old(self).paused
                        &&& amount_ok
                        &&& sb is Some
                        &&& ob is Some
                        &&& h@ == ob.unwrap()
                        &&& signature_matches(old(self).signer@, root, sb.unwrap(), recovery_id@)
                        &&& !consumed(old(self).hashes.contents(), ob.unwrap())
                        &&& final(self).hashes.contents() == old(self).hashes.contents().insert(
                            ob.unwrap(),
                            true,
                        )
                    },
                    Err(BridgeError::Paused) => old(self).paused && *final(self) == *old(self),
                    Err(BridgeError::MalformedAmount) => !old(self).paused && !amount_ok && *final(self) == *old(self),
                    Err(BridgeError::MalformedSignature) => !old(self).paused && amount_ok
                        && sb is None && *final(self) == *old(self),
                    Err(BridgeError::MalformedOrigin) => !old(self).paused && amount_ok
                        && sb is Some && ob is None && *final(self) == *old(self),
                    Err(BridgeError::SignatureMismatch) => !old(self).paused && amount_ok
                        && sb is Some && ob is Some && !signature_matches(
                        old(self).signer@,
                        root,
                        sb.unwrap(),
                        recovery_id@,
                    ) && *final(self) == *old(self),
                    Err(BridgeError::HashAlreadyUsed) => !old(self).paused && amount_ok
                        && sb is Some && ob is Some && signature_matches(
                        old(self).signer@,
                        root,
                        sb.unwrap(),
                        recovery_id@,
                    ) && consumed(old(self).hashes.contents(), ob.unwrap()) && final(self).hashes.contents() == old(self).hashes.contents(),
                    Err(_) => false,
                }
            }),
    {
        if self.paused {
            return Err(BridgeError::Paused);
        }
        let amnt: u128 = match crate::decimal::parse_u128(amount.as_str()) {
            Some(v) => v,
            None => {
                return Err(BridgeError::MalformedAmount);
            },
        };
        let sign: Secp256K1Signature = match Secp256K1Signature::from_hex(signature) {
            Some(s) => s,
            None => {
                return Err(BridgeError::MalformedSignature);
            },
        };
        let origin_hash: crate::types::Hash = match crate::types::Hash::from_hex(origin) {
            Some(h) => h,
            None => {
                return Err(BridgeError::MalformedOrigin);
            },
        };
        let op: TransferOperation = TransferOperation::new_native_transfer(amnt);
        let data: Vec<u8> = op.get_data();
        let content: ContentNode = ContentNode::new(
            origin_hash.duplicate(),
            self_account.clone(),
            self.chain.clone(),
            data,
            Some(receiver_id),
        );
        let root: crate::types::Hash = get_merkle_root(content, path);
        if !self.check_signature(&root, &sign, &recovery_id) {
            return Err(BridgeError::SignatureMismatch);
        }
        if !self.hashes.check_hash(&origin_hash) {
            return Err(BridgeError::HashAlreadyUsed);
        }
        Ok(origin_hash)
    }

    /// Checks an inbound non-fungible withdrawal over the full-metadata
    /// payload: token, title, padded instance id, media URL and media
    /// hash all feed the signed encoding. The mint or transfer itself is
    /// the caller's work.
    #[allow(unused_variables)]
    pub fn internal_nft_withdraw(
        &mut self,
        token: String,
        token_id: String,
        receiver_id: String,
        title: String,
        media_url: String,
        media_hash: Vec<u8>,
        is_wrapped: bool,
        origin: String,
        path: &Vec<crate::types::Hash>,
        signature: String,
        recovery_id: RecoveryID,
        self_account: &String,
    ) -> (r: Result<crate::types::Hash, BridgeError>)
        requires
            old(self).wf(),
        ensures
            final(self).wf(),
            same_config(*old(self), *final(self)),
            ({
                let ob = hash_from_hex_spec(origin@);
                let sb = signature_from_hex_spec(signature@);
                let root = withdraw_root(
                    nft_transfer_payload(token@, token_id@, title@, media_url@, media_hash@),
                    if ob is Some {
                        ob.unwrap()
                    } else {
                        Seq::<u8>::empty()
                    },
                    old(self).chain@,
                    receiver_id@,
                    self_account@,
                    path@,
                );
                match r {
                    Ok(h) => {
                        &&& !old(self).paused
                        &&& sb is Some
                        &&& ob is Some
                        &&& h@ == ob.unwrap()
                        &&& signature_matches(old(self).signer@, root, sb.unwrap(), recovery_id@)
                        &&& !consumed(old(self).hashes.contents(), ob.unwrap())
                        &&& final(self).hashes.contents() == old(self).hashes.contents().insert(
                            ob.unwrap(),
                            true,
                        )
                    },
                    Err(BridgeError::Paused) => old(self).paused && *final(self) == *old(self),
                    Err(BridgeError::MalformedSignature) => !old(self).paused && sb is None
                        && *final(self) == *old(self),
                    Err(BridgeError::MalformedOrigin) => !old(self).paused && sb is Some
                        && ob is None && *final(self) == *old(self),
                    Err(BridgeError::SignatureMismatch) => !old(self).paused && sb is Some
                        && ob is Some && !signature_matches(
                        old(self).signer@,
                        root,
                        sb.unwrap(),
                        recovery_id@,
                    ) && *final(self) == *old(self),
                    Err(BridgeError::HashAlreadyUsed) => !old(self).paused && sb is Some
                        && ob is Some && signature_matches(
                        old(self).signer@,
                        root,
                        sb.unwrap(),
                        recovery_id@,
                    ) && consumed(old(self).hashes.contents(), ob.unwrap()) && final(self).hashes.contents() == old(self).hashes.contents(),
                    Err(_) => false,
                }
            }),
    {
        if self.paused {
            return Err(BridgeError::Paused);
        }
        let sign: Secp256K1Signature = match Secp256K1Signature::from_hex(signature) {
            Some(s) => s,
            None => {
                return Err(BridgeError::MalformedSignature);
            },
        };
        let origin_hash: crate::types::Hash = match crate::types::Hash::from_hex(origin) {
            Some(h) => h,
            None => {
                return Err(BridgeError::MalformedOrigin);
            },
        };
        let ghost token_view: Seq<char> = token@;
        let ghost token_id_view: Seq<char> = token_id@;
        let ghost title_view: Seq<char> = title@;
        let ghost url_view: Seq<char> = media_url@;
        let ghost media_view: Seq<u8> = media_hash@;
        let op: TransferFullMetaOperation = TransferFullMetaOperation::new_nft_transfer(
            token_id,
            Some(token),
            title,
            media_url,
            media_hash,
        );
        let data: Vec<u8> = op.get_data();
        proof {
            assert(data@ == nft_transfer_payload(
                token_view,
                token_id_view,
                title_view,
                url_view,
                media_view,
            ));
        }
        let content: ContentNode = ContentNode::new(
            origin_hash.duplicate(),
            self_account.clone(),
            self.chain.clone(),
            data,
            Some(receiver_id),
        );
        let root: crate::types::Hash = get_merkle_root(content, path);
        if !self.check_signature(&root, &sign, &recovery_id) {
            return Err(BridgeError::SignatureMismatch);
        }
        if !self.hashes.check_hash(&origin_hash) {
            return Err(BridgeError::HashAlreadyUsed);
        }
        Ok(origin_hash)
    }
}

/// The payload of a fungible transfer: the token identity and the amount
/// present, every other field absent.
pub open spec fn ft_transfer_payload(token: Seq<char>, amount: u128) -> Seq<u8> {
    crate::encoder::enc_opt_field(Some(encode_utf8(token))) + crate::encoder::enc_opt_field(
        None,
    ) + crate::encoder::enc_opt_field(None) + crate::encoder::enc_opt_field(
        Some(be32_of(amount as nat)),
    ) + crate::encoder::enc_opt_field(None) + crate::encoder::enc_opt_field(None)
}

/// The payload of a non-fungible transfer: token, title, padded instance
/// id, media URL and media hash present, the amount absent.
pub open spec fn nft_transfer_payload(
    token: Seq<char>,
    token_id: Seq<char>,
    title: Seq<char>,
    media_url: Seq<char>,
    media_hash: Seq<u8>,
) -> Seq<u8> {
    crate::encoder::enc_opt_field(Some(encode_utf8(token))) + crate::encoder::enc_opt_field(
        Some(encode_utf8(title)),
    ) + crate::encoder::enc_opt_field(
        Some(crate::bytes::padded_32(encode_utf8(token_id))),
    ) + crate::encoder::enc_opt_field(None) + crate::encoder::enc_opt_field(
        Some(encode_utf8(media_url)),
    ) + crate::encoder::enc_opt_field(Some(media_hash))
}

/// The Merkle root an inbound withdrawal must carry a signature over:
/// the encoded payload bound to origin, chain, receiver and bridge
/// identity, folded with the sibling path.
pub open spec fn withdraw_root(
    payload: Seq<u8>,
    origin: Seq<u8>,
    chain: Seq<char>,
    receiver: Seq<char>,
    account: Seq<char>,
    path: Seq<crate::types::Hash>,
) -> Seq<u8> {
    merkle_fold(
        keccak_of(content_hash_input(payload, origin, chain, Some(receiver), account)),
        hashes_view(path),
    )
}

/// Nonce monotonicity: across any run of successful admin operations the
/// nonce ends at its initial value plus the number of operations.
pub proof fn lemma_nonce_monotonic(states: Seq<Bridge>)
    requires
        states.len() > 0,
        forall|i: int| 0 <= i < states.len() - 1 ==> admin_step(#[trigger] states[i], states[i + 1]),
    ensures
        states.last().nonce == states.first().nonce + states.len() - 1,
    decreases states.len(),
{
    if states.len() > 1 {
        let t = states.drop_last();
        assert(forall|i: int|
            0 <= i < t.len() - 1 ==> admin_step(#[trigger] t[i], t[i + 1]) && t[i] == states[i]);
        lemma_nonce_monotonic(t);
        assert(admin_step(states[states.len() - 2], states.last()));
    }
}

/// The value of the sixteen-byte weight: no 128-bit nonce reaches it.
proof fn lemma_pow256_16()
    ensures
        pow256(16) == pow256(8) * pow256(8),
        pow256(16) > u128::MAX,
{
    lemma_pow256_adds(8, 8);
    lemma_pow256_8();
}

/// Admin messages built for different nonces have different signed
/// preimages: a message signed for a stale nonce never carries the
/// current preimage. (That the stale message's digest then differs rests
/// on the hash primitive, which the model does not interpret.)
pub proof fn lemma_admin_preimage_distinct(
    value: Seq<char>,
    chain: Seq<char>,
    account: Seq<char>,
    n0: u128,
    n1: u128,
)
    requires
        n0 != n1,
    ensures
        encode_utf8(value) + contract_hash_data(chain, n0, account) != encode_utf8(value)
            + contract_hash_data(chain, n1, account),
{
    let a = encode_utf8(value) + contract_hash_data(chain, n0, account);
    let b = encode_utf8(value) + contract_hash_data(chain, n1, account);
    let p = encode_utf8(value).len() + encode_utf8(chain).len();
    lemma_pow256_16();
    assert(pow256(16) <= pow256(32)) by {
        crate::bytes::lemma_pow256_monotone(16, 32);
    }
    lemma_be_val_be32_of(n0 as nat);
    lemma_be_val_be32_of(n1 as nat);
    assert(be32_of(n0 as nat) != be32_of(n1 as nat));
    let j = choose|j: int| 0 <= j < 32 && be32_of(n0 as nat)[j] != (#[trigger] be32_of(
        n1 as nat,
    )[j]);
    assert(exists|j: int|
        0 <= j < 32 && be32_of(n0 as nat)[j] != (#[trigger] be32_of(n1 as nat)[j])) by {
        if forall|j: int| 0 <= j < 32 ==> be32_of(n0 as nat)[j] == (#[trigger] be32_of(
            n1 as nat,
        )[j]) {
            assert(be32_of(n0 as nat) =~= be32_of(n1 as nat));
        }
    }
    assert(a[p + j] == be32_of(n0 as nat)[j]);
    assert(b[p + j] == be32_of(n1 as nat)[j]);
    assert(a[p + j] != b[p + j]);
}

} // verus!
