//! The flashtestations transactions of a block.
//!
//! Each block gets a TEE registration transaction and, when block proofs are
//! enabled, a block builder proof transaction. Each of them takes a permit
//! nonce from the registry, has the contract hash the permit (struct hash,
//! then EIP-712 typed data hash), has the TEE key sign that hash, sends the
//! permit transaction with the builder key, and checks that the contract
//! logged its event.
//!
//! The contract calls run on the payload that is being built, outside this
//! library: the executor is a state machine that names the next call and
//! takes the call's reply, and any error of a call ends the run with that
//! error.

use vstd::prelude::*;
use crate::crypto::{be_value, eip191_sign, keccak256, keccak256_digest, signer_address};
use crate::service::{FlashtestationsError, FlashtestationsManager};
use crate::signer::{BuilderSigner, SignerError};

verus! {

/// The block that the transactions go into.
#[derive(Debug, Clone, Copy, PartialEq, Eq)]
pub struct BlockContext {
    /// The parent hash that the block content hash commits to (the parent
    /// header's `parent_hash`).
    pub parent_hash: [u8; 32],
    /// The number of the block.
    pub block_number: u64,
    /// The timestamp of the block, which is also the permit deadline.
    pub timestamp: u64,
}

/// The events that the contracts log.
#[derive(Debug, Clone, Copy, PartialEq, Eq, Structural)]
pub enum ContractEvent {
    /// The registry registered the TEE service.
    TeeServiceRegistered,
    /// The policy verified a block builder proof.
    BlockBuilderProofVerified,
}

/// A call on the payload. Which key makes each call is `call_signer`, and
/// which calls carry the raw quote and the extended registration data is
/// `carries_registration_data`; the executor hands both out with
/// `signer_of` and `registration_data`.
#[derive(Debug, Clone, Copy, PartialEq, Eq)]
pub enum RuntimeCall {
    /// `nonces(owner)` of the registry.
    RegistryNonce { contract: [u8; 20], owner: [u8; 20] },
    /// `computeStructHash(rawQuote, extendedRegistrationData, nonce, deadline)`
    /// of the registry.
    RegistryStructHash { contract: [u8; 20], nonce: [u8; 32], deadline: u64 },
    /// `hashTypedDataV4(structHash)` of the registry.
    RegistryTypedDataHash { contract: [u8; 20], struct_hash: [u8; 32] },
    /// `computeStructHash(version, blockContentHash, nonce)` of the policy.
    PolicyStructHash { contract: [u8; 20], version: u8, block_content_hash: [u8; 32], nonce: [u8; 32] },
    /// `getHashedTypeDataV4(structHash)` of the policy.
    PolicyTypedDataHash { contract: [u8; 20], struct_hash: [u8; 32] },
    /// The 2718 encodings of the transactions of the payload so far.
    PayloadTransactions,
    /// The transaction `permitRegisterTEEService(rawQuote,
    /// extendedRegistrationData, nonce, deadline, signature)` to the registry.
    ExecuteRegistration { contract: [u8; 20], nonce: [u8; 32], deadline: u64, signature: [u8; 65] },
    /// The transaction `permitVerifyBlockBuilderProof(version,
    /// blockContentHash, nonce, eip712Sig)` to the policy.
    ExecuteBlockProof { contract: [u8; 20], version: u8, block_content_hash: [u8; 32], nonce: [u8; 32], signature: [u8; 65] },
    /// Check that the last transaction logged this event.
    ValidateEvent(ContractEvent),
}

/// The key that a call is made with: the contract calls are simulated with
/// the TEE key, the two permit transactions are sent with the builder key,
/// and reading the payload or its logs takes no key.
#[derive(Debug, Clone, Copy, PartialEq, Eq, Structural)]
pub enum CallSigner {
    /// The TEE key.
    Tee,
    /// The builder key.
    Builder,
    /// No key.
    NoKey,
}

/// The key of each call.
pub open spec fn call_signer(call: RuntimeCall) -> CallSigner {
    match call {
        RuntimeCall::ExecuteRegistration { .. } | RuntimeCall::ExecuteBlockProof { .. } => CallSigner::Builder,
        RuntimeCall::PayloadTransactions | RuntimeCall::ValidateEvent(_) => CallSigner::NoKey,
        _ => CallSigner::Tee,
    }
}

/// The calls that carry the raw quote and the extended registration data:
/// the registration's struct hash and its permit transaction.
pub open spec fn carries_registration_data(call: RuntimeCall) -> bool {
    call is RegistryStructHash || call is ExecuteRegistration
}

/// Whether a transaction is sent from its signer's address: the permit
/// transactions are, the simulated calls leave the sender unset.
pub open spec fn sent_from_signer(call: RuntimeCall) -> bool {
    call_signer(call) == CallSigner::Builder
}

/// The fields of the transaction that makes a contract call on the payload.
#[derive(Debug, Clone, Copy, PartialEq, Eq)]
pub struct TransactionFields {
    /// The sender, set on the permit transactions only.
    pub from: Option<[u8; 20]>,
    /// The nonce of the signer's account in the payload.
    pub nonce: u64,
    /// The gas limit of the parent block.
    pub gas_limit: u64,
    /// The base fee of the block.
    pub max_fee_per_gas: u128,
    /// The contract called.
    pub to: [u8; 20],
}

/// The reply to a call.
#[derive(Debug)]
pub enum RuntimeReply {
    /// The permit nonce.
    Nonce([u8; 32]),
    /// A hash computed by a contract.
    Hash([u8; 32]),
    /// The encoded transactions of the payload.
    Transactions(Vec<Vec<u8>>),
    /// The transaction went into the payload.
    Executed,
    /// The event was logged.
    EventFound,
    /// The call failed with this error.
    Failed(String),
}

/// What the executor asks for next.
#[derive(Debug)]
pub enum ExecutorAction {
    /// Make this call and hand back its reply.
    Call(RuntimeCall),
    /// The transactions are in the payload.
    Done,
    /// The run failed; the payload of the failed run is not to be used.
    Fail(FlashtestationsError),
}

/// Where the run stands: which reply it waits for, and what it has so far.
#[derive(Debug, Clone, Copy, PartialEq, Eq)]
pub enum Stage {
    Idle,
    RegistrationNonce,
    RegistrationStructHash { nonce: [u8; 32] },
    RegistrationTypedHash { nonce: [u8; 32] },
    RegistrationExecuted,
    RegistrationEvent,
    ProofNonce,
    ProofTransactions { nonce: [u8; 32] },
    ProofStructHash { nonce: [u8; 32], block_content_hash: [u8; 32] },
    ProofTypedHash { nonce: [u8; 32], block_content_hash: [u8; 32] },
    ProofExecuted,
    ProofEvent,
    Finished,
}

/// A 32-byte ABI word of an unsigned integer: big-endian, zero-padded.
pub open spec fn abi_word(v: u64) -> Seq<u8> {
    Seq::new(32, |i: int| if i < 24 { 0u8 } else { ((v >> ((31 - i) * 8) as u64) & 0xffu64) as u8 })
}

/// The big-endian value of two byte strings one after the other.
proof fn lemma_be_value_append(a: Seq<u8>, b: Seq<u8>)
    ensures
        be_value(a + b) == be_value(a) * vstd::arithmetic::power::pow(256, b.len()) + be_value(b),
    decreases b.len(),
{
    vstd::arithmetic::power::lemma_pow0(256);
    if b.len() == 0 {
        assert(a + b =~= a);
    } else {
        let c = a + b;
        assert(c.drop_last() =~= a + b.drop_last());
        assert(c.last() == b.last());
        lemma_be_value_append(a, b.drop_last());
        vstd::arithmetic::power::lemma_pow_adds(256, (b.len() - 1) as nat, 1);
        vstd::arithmetic::power::lemma_pow1(256);
        let p = vstd::arithmetic::power::pow(256, (b.len() - 1) as nat);
        let x = be_value(a);
        let y = be_value(b.drop_last());
        assert((x * p + y) * 256 + b.last() == x * (p * 256) + (y * 256 + b.last())) by (nonlinear_arith);
    }
}

proof fn lemma_be_value_zeros(n: nat)
    ensures
        be_value(Seq::new(n, |i: int| 0u8)) == 0,
    decreases n,
{
    if n > 0 {
        assert(Seq::new(n, |i: int| 0u8).drop_last() =~= Seq::new((n - 1) as nat, |i: int| 0u8));
        lemma_be_value_zeros((n - 1) as nat);
    }
}

/// An ABI word is the 32-byte big-endian encoding of its value.
pub proof fn lemma_abi_word_value(v: u64)
    ensures
        abi_word(v).len() == 32,
        be_value(abi_word(v)) == v,
{
    let w = abi_word(v);
    let zeros = Seq::new(24, |i: int| 0u8);
    let tail = w.subrange(24, 32);
    assert(w =~= zeros + tail);
    lemma_be_value_append(zeros, tail);
    lemma_be_value_zeros(24);
    let b0 = ((v >> 56u64) & 0xffu64) as u8;
    let b1 = ((v >> 48u64) & 0xffu64) as u8;
    let b2 = ((v >> 40u64) & 0xffu64) as u8;
    let b3 = ((v >> 32u64) & 0xffu64) as u8;
    let b4 = ((v >> 24u64) & 0xffu64) as u8;
    let b5 = ((v >> 16u64) & 0xffu64) as u8;
    let b6 = ((v >> 8u64) & 0xffu64) as u8;
    let b7 = ((v >> 0u64) & 0xffu64) as u8;
    assert(tail =~= seq![b0, b1, b2, b3, b4, b5, b6, b7]);
    reveal_with_fuel(be_value, 9);
    assert(tail.drop_last() =~= seq![b0, b1, b2, b3, b4, b5, b6]);
    assert(tail.drop_last().drop_last() =~= seq![b0, b1, b2, b3, b4, b5]);
    assert(tail.drop_last().drop_last().drop_last() =~= seq![b0, b1, b2, b3, b4]);
    assert(tail.drop_last().drop_last().drop_last().drop_last() =~= seq![b0, b1, b2, b3]);
    assert(tail.drop_last().drop_last().drop_last().drop_last().drop_last() =~= seq![b0, b1, b2]);
    assert(tail.drop_last().drop_last().drop_last().drop_last().drop_last().drop_last() =~= seq![b0, b1]);
    assert(tail.drop_last().drop_last().drop_last().drop_last().drop_last().drop_last().drop_last() =~= seq![b0]);
    assert(seq![b0].drop_last() =~= Seq::<u8>::empty());
    assert(v == ((((((b0 as u64 * 256 + b1 as u64) * 256 + b2 as u64) * 256 + b3 as u64) * 256 + b4 as u64) * 256 + b5 as u64) * 256 + b6 as u64) * 256 + b7 as u64) by (bit_vector)
        requires
            b0 == ((v >> 56u64) & 0xffu64) as u8,
            b1 == ((v >> 48u64) & 0xffu64) as u8,
            b2 == ((v >> 40u64) & 0xffu64) as u8,
            b3 == ((v >> 32u64) & 0xffu64) as u8,
            b4 == ((v >> 24u64) & 0xffu64) as u8,
            b5 == ((v >> 16u64) & 0xffu64) as u8,
            b6 == ((v >> 8u64) & 0xffu64) as u8,
            b7 == ((v >> 0u64) & 0xffu64) as u8,
    ;
}

/// The byte strings one after the other.
pub open spec fn concat_all(parts: Seq<Seq<u8>>) -> Seq<u8>
    decreases parts.len(),
{
    if parts.len() == 0 {
        Seq::empty()
    } else {
        concat_all(parts.drop_last()) + parts.last()
    }
}

/// The ABI encoding of `BlockData { bytes32 parentHash; uint256 blockNumber;
/// uint256 timestamp; bytes32[] transactionHashes }` as a single value: the
/// offset of the struct, its three static fields, the offset of the array,
/// the array's length and its elements.
pub open spec fn block_data_encoding(parent_hash: Seq<u8>, block_number: u64, timestamp: u64, tx_hashes: Seq<Seq<u8>>) -> Seq<u8> {
    abi_word(32) + parent_hash + abi_word(block_number) + abi_word(timestamp) + abi_word(128)
        + abi_word(tx_hashes.len() as u64) + concat_all(tx_hashes)
}

/// The Keccak-256 hashes of the encoded transactions.
pub open spec fn transaction_hashes(encoded: Seq<Seq<u8>>) -> Seq<Seq<u8>> {
    Seq::new(encoded.len(), |i: int| keccak256(encoded[i]))
}

/// The block content hash: Keccak-256 of the ABI encoded block data, whose
/// transaction hashes are those of the payload's transactions.
pub open spec fn spec_block_content_hash(block: BlockContext, encoded_transactions: Seq<Seq<u8>>) -> Seq<u8> {
    keccak256(block_data_encoding(
        block.parent_hash@,
        block.block_number,
        block.timestamp,
        transaction_hashes(encoded_transactions),
    ))
}

/// The views of the encoded transactions.
pub open spec fn views_of(txs: Seq<Vec<u8>>) -> Seq<Seq<u8>> {
    Seq::new(txs.len(), |i: int| txs[i]@)
}

fn push_word(out: &mut Vec<u8>, v: u64)
    ensures
        final(out)@ == old(out)@ + abi_word(v),
{
    let ghost start = out@;
    let mut i: usize = 0;
    while i < 24
        invariant
            i <= 24,
            out@.len() == start.len() + i,
            forall|j: int| 0 <= j < start.len() ==> #[trigger] out@[j] == start[j],
            forall|j: int| 0 <= j < i ==> #[trigger] out@[start.len() + j] == abi_word(v)[j],
        decreases 24 - i,
    {
        out.push(0u8);
        i += 1;
    }
    let mut k: u64 = 0;
    while k < 8
        invariant
            k <= 8,
            out@.len() == start.len() + 24 + k,
            forall|j: int| 0 <= j < start.len() ==> #[trigger] out@[j] == start[j],
            forall|j: int| 0 <= j < 24 + k ==> #[trigger] out@[start.len() + j] == abi_word(v)[j],
        decreases 8 - k,
    {
        let shift: u64 = (7 - k) * 8;
        let byte = #[verifier::truncate] (((v >> shift) & 0xffu64) as u8);
        assert(((31 - (24 + k)) * 8) as u64 == shift);
        out.push(byte);
        k += 1;
    }
    assert forall|j: int| 0 <= j < 32 implies out@[start.len() + j] == abi_word(v)[j] by {}
    assert(out@ =~= start + abi_word(v));
}

fn push_bytes(out: &mut Vec<u8>, bytes: &[u8])
    ensures
        final(out)@ == old(out)@ + bytes@,
{
    let ghost start = out@;
    let mut i: usize = 0;
    while i < bytes.len()
        invariant
            i <= bytes@.len(),
            out@ == start + bytes@.subrange(0, i as int),
        decreases bytes@.len() - i,
    {
        out.push(bytes[i]);
        i += 1;
        assert(start + bytes@.subrange(0, i as int) =~= (start + bytes@.subrange(0, (i - 1) as int)).push(bytes@[i - 1]));
    }
    assert(bytes@.subrange(0, bytes@.len() as int) =~= bytes@);
}

/// Computes the block content hash of the payload's transactions.
pub fn compute_block_content_hash(block: &BlockContext, encoded_transactions: &Vec<Vec<u8>>) -> (r: [u8; 32])
    ensures
        r@ == spec_block_content_hash(*block, views_of(encoded_transactions@)),
{
    let ghost hashes = transaction_hashes(views_of(encoded_transactions@));
    let mut encoded: Vec<u8> = Vec::new();
    push_word(&mut encoded, 32);
    push_bytes(&mut encoded, &block.parent_hash);
    push_word(&mut encoded, block.block_number);
    push_word(&mut encoded, block.timestamp);
    push_word(&mut encoded, 128);
    push_word(&mut encoded, encoded_transactions.len() as u64);
    let ghost head = encoded@;
    let mut i: usize = 0;
    while i < encoded_transactions.len()
        invariant
            i <= encoded_transactions@.len(),
            hashes == transaction_hashes(views_of(encoded_transactions@)),
            encoded@ == head + concat_all(hashes.subrange(0, i as int)),
        decreases encoded_transactions@.len() - i,
    {
        let tx_hash = keccak256_digest(encoded_transactions[i].as_slice());
        push_bytes(&mut encoded, &tx_hash);
        proof {
            let next = hashes.subrange(0, i + 1);
            assert(next.drop_last() =~= hashes.subrange(0, i as int));
            assert(next.last() == tx_hash@);
        }
        i += 1;
    }
    assert(hashes.subrange(0, hashes.len() as int) =~= hashes);
    assert(encoded@ =~= block_data_encoding(block.parent_hash@, block.block_number, block.timestamp, hashes));
    keccak256_digest(encoded.as_slice())
}

/// One step of the protocol: the call or outcome that answers `reply` in
/// `stage`, and the stage after it. A failed call, or a reply that does not
/// answer the call that was made, ends the run. Signing can fail, which also
/// ends the run.
pub open spec fn protocol_step(
    m: FlashtestationsManager,
    block: BlockContext,
    stage: Stage,
    reply: RuntimeReply,
    action: ExecutorAction,
    next: Stage,
) -> bool {
    let tee = m.tee_signer.secret();
    let expected = match (stage, reply) {
        (Stage::Idle, _) => false,
        (Stage::Finished, _) => false,
        (_, RuntimeReply::Failed(_)) => false,
        (Stage::RegistrationNonce, RuntimeReply::Nonce(_)) => true,
        (Stage::RegistrationStructHash { .. }, RuntimeReply::Hash(_)) => true,
        (Stage::RegistrationTypedHash { .. }, RuntimeReply::Hash(_)) => true,
        (Stage::RegistrationExecuted, RuntimeReply::Executed) => true,
        (Stage::RegistrationEvent, RuntimeReply::EventFound) => true,
        (Stage::ProofNonce, RuntimeReply::Nonce(_)) => true,
        (Stage::ProofTransactions { .. }, RuntimeReply::Transactions(_)) => true,
        (Stage::ProofStructHash { .. }, RuntimeReply::Hash(_)) => true,
        (Stage::ProofTypedHash { .. }, RuntimeReply::Hash(_)) => true,
        (Stage::ProofExecuted, RuntimeReply::Executed) => true,
        (Stage::ProofEvent, RuntimeReply::EventFound) => true,
        _ => false,
    };
    if reply is Failed && stage != Stage::Idle && stage != Stage::Finished {
        action == ExecutorAction::Fail(FlashtestationsError::Runtime(reply->Failed_0)) && next == Stage::Finished
    } else if !expected {
        action == ExecutorAction::Fail(FlashtestationsError::UnexpectedReply) && next == Stage::Finished
    } else {
        match (stage, reply) {
            (Stage::RegistrationNonce, RuntimeReply::Nonce(nonce)) => {
                &&& action == ExecutorAction::Call(RuntimeCall::RegistryStructHash {
                    contract: m.registry_address,
                    nonce,
                    deadline: block.timestamp,
                })
                &&& next == Stage::RegistrationStructHash { nonce }
            },
            (Stage::RegistrationStructHash { nonce }, RuntimeReply::Hash(struct_hash)) => {
                &&& action == ExecutorAction::Call(RuntimeCall::RegistryTypedDataHash {
                    contract: m.registry_address,
                    struct_hash,
                })
                &&& next == Stage::RegistrationTypedHash { nonce }
            },
            (Stage::RegistrationTypedHash { nonce }, RuntimeReply::Hash(typed_hash)) => {
                match eip191_sign(tee, typed_hash@) {
                    Some(sig) => {
                        &&& action matches ExecutorAction::Call(RuntimeCall::ExecuteRegistration { contract, nonce: n, deadline, signature })
                        &&& contract == m.registry_address && n == nonce && deadline == block.timestamp
                        &&& signature@ == sig
                        &&& next == Stage::RegistrationExecuted
                    },
                    None => {
                        &&& action == ExecutorAction::Fail(FlashtestationsError::Signing(SignerError::SigningFailed))
                        &&& next == Stage::Finished
                    },
                }
            },
            (Stage::RegistrationExecuted, RuntimeReply::Executed) => {
                &&& action == ExecutorAction::Call(RuntimeCall::ValidateEvent(ContractEvent::TeeServiceRegistered))
                &&& next == Stage::RegistrationEvent
            },
            (Stage::RegistrationEvent, RuntimeReply::EventFound) => {
                if m.enable_block_proofs {
                    &&& action matches ExecutorAction::Call(RuntimeCall::RegistryNonce { contract, owner })
                    &&& contract == m.registry_address && owner@ == signer_address(tee)
                    &&& next == Stage::ProofNonce
                } else {
                    action == ExecutorAction::Done && next == Stage::Finished
                }
            },
            (Stage::ProofNonce, RuntimeReply::Nonce(nonce)) => {
                &&& action == ExecutorAction::Call(RuntimeCall::PayloadTransactions)
                &&& next == Stage::ProofTransactions { nonce }
            },
            (Stage::ProofTransactions { nonce }, RuntimeReply::Transactions(txs)) => {
                &&& action matches ExecutorAction::Call(RuntimeCall::PolicyStructHash { contract, version, block_content_hash, nonce: n })
                &&& contract == m.builder_policy_address && version == m.builder_proof_version && n == nonce
                &&& block_content_hash@ == spec_block_content_hash(block, views_of(txs@))
                &&& next == Stage::ProofStructHash { nonce, block_content_hash }
            },
            (Stage::ProofStructHash { nonce, block_content_hash }, RuntimeReply::Hash(struct_hash)) => {
                &&& action == ExecutorAction::Call(RuntimeCall::PolicyTypedDataHash {
                    contract: m.builder_policy_address,
                    struct_hash,
                })
                &&& next == Stage::ProofTypedHash { nonce, block_content_hash }
            },
            (Stage::ProofTypedHash { nonce, block_content_hash }, RuntimeReply::Hash(typed_hash)) => {
                match eip191_sign(tee, typed_hash@) {
                    Some(sig) => {
                        &&& action matches ExecutorAction::Call(RuntimeCall::ExecuteBlockProof { contract, version, block_content_hash: c, nonce: n, signature })
                        &&& contract == m.builder_policy_address && version == m.builder_proof_version
                        &&& c == block_content_hash && n == nonce
                        &&& signature@ == sig
                        &&& next == Stage::ProofExecuted
                    },
                    None => {
                        &&& action == ExecutorAction::Fail(FlashtestationsError::Signing(SignerError::SigningFailed))
                        &&& next == Stage::Finished
                    },
                }
            },
            (Stage::ProofExecuted, RuntimeReply::Executed) => {
                &&& action == ExecutorAction::Call(RuntimeCall::ValidateEvent(ContractEvent::BlockBuilderProofVerified))
                &&& next == Stage::ProofEvent
            },
            (Stage::ProofEvent, RuntimeReply::EventFound) => {
                action == ExecutorAction::Done && next == Stage::Finished
            },
            _ => false,
        }
    }
}

/// With block proofs disabled, a run ends once the registration event is
/// found: the block builder policy is never called.
pub proof fn lemma_no_block_proof_when_disabled(
    m: FlashtestationsManager,
    block: BlockContext,
    action: ExecutorAction,
    next: Stage,
)
    requires
        !m.enable_block_proofs,
        protocol_step(m, block, Stage::RegistrationEvent, RuntimeReply::EventFound, action, next),
    ensures
        action == ExecutorAction::Done,
        next == Stage::Finished,
{
}

/// The block proof starts only after the registration event was found, and
/// only when block proofs are enabled.
pub proof fn lemma_block_proof_follows_registration(
    m: FlashtestationsManager,
    block: BlockContext,
    stage: Stage,
    reply: RuntimeReply,
    action: ExecutorAction,
)
    requires
        protocol_step(m, block, stage, reply, action, Stage::ProofNonce),
    ensures
        stage == Stage::RegistrationEvent,
        reply is EventFound,
        m.enable_block_proofs,
{
}

/// An error of any call ends the run with that error, and a finished run
/// answers nothing more.
pub proof fn lemma_errors_end_the_run(
    m: FlashtestationsManager,
    block: BlockContext,
    stage: Stage,
    reply: RuntimeReply,
    action: ExecutorAction,
    next: Stage,
)
    requires
        protocol_step(m, block, stage, reply, action, next),
    ensures
        (stage != Stage::Idle && stage != Stage::Finished && reply is Failed) ==> (
            action == ExecutorAction::Fail(FlashtestationsError::Runtime(reply->Failed_0)) && next == Stage::Finished),
        stage == Stage::Finished ==> (
            action == ExecutorAction::Fail(FlashtestationsError::UnexpectedReply) && next == Stage::Finished),
        action is Done ==> next == Stage::Finished,
        action is Fail ==> next == Stage::Finished,
{
}

/// Builds and submits the flashtestation transactions of one block (TEE
/// registration, and the block proof when enabled).
pub struct FlashteststationsExecutor<'a> {
    manager: &'a FlashtestationsManager,
    block: BlockContext,
    attestation: Vec<u8>,
    stage: Stage,
}

impl<'a> FlashteststationsExecutor<'a> {
    /// The manager whose settings and keys the run uses.
    pub closed spec fn spec_manager(self) -> FlashtestationsManager {
        *self.manager
    }

    /// The block of the run.
    pub closed spec fn spec_block(self) -> BlockContext {
        self.block
    }

    /// The attestation (raw quote) of the run.
    pub closed spec fn spec_attestation(self) -> Seq<u8> {
        self.attestation@
    }

    /// Where the run stands.
    pub closed spec fn stage(self) -> Stage {
        self.stage
    }

    pub fn new(manager: &'a FlashtestationsManager) -> (r: Self)
        ensures
            r.spec_manager() == *manager,
            r.stage() == Stage::Idle,
    {
        FlashteststationsExecutor {
            manager,
            block: BlockContext { parent_hash: [0u8; 32], block_number: 0, timestamp: 0 },
            attestation: Vec::new(),
            stage: Stage::Idle,
        }
    }

    /// The attestation (raw quote) that the registration calls carry.
    pub fn attestation(&self) -> (r: &Vec<u8>)
        ensures
            r@ == self.spec_attestation(),
    {
        &self.attestation
    }

    /// The key that this call is made with.
    pub fn signer_of(&self, call: &RuntimeCall) -> (r: Option<BuilderSigner>)
        ensures
            match call_signer(*call) {
                CallSigner::Tee => r == Some(self.spec_manager().tee_signer),
                CallSigner::Builder => r == Some(self.spec_manager().builder_key),
                CallSigner::NoKey => r is None,
            },
    {
        match call {
            RuntimeCall::ExecuteRegistration { .. } | RuntimeCall::ExecuteBlockProof { .. } => Some(self.manager.builder_key),
            RuntimeCall::PayloadTransactions | RuntimeCall::ValidateEvent(_) => None,
            _ => Some(self.manager.tee_signer),
        }
    }

    /// The raw quote and extended registration data that this call carries:
    /// the attestation of the run and the manager's data, on the registration
    /// calls only.
    pub fn registration_data(&self, call: &RuntimeCall) -> (r: Option<(&Vec<u8>, &Vec<u8>)>)
        ensures
            carries_registration_data(*call) ==> (r matches Some((quote, extra))
                && quote@ == self.spec_attestation()
                && extra@ == self.spec_manager().extra_registration_data@),
            !carries_registration_data(*call) ==> r is None,
    {
        match call {
            RuntimeCall::RegistryStructHash { .. } | RuntimeCall::ExecuteRegistration { .. } => {
                Some((&self.attestation, &self.manager.extra_registration_data))
            },
            _ => None,
        }
    }

    /// Starts a run for a block with this attestation: the first call takes
    /// the permit nonce of the TEE signer from the registry.
    pub fn add_transactions(&mut self, block: BlockContext, attestation: Vec<u8>) -> (r: ExecutorAction)
        ensures
            final(self).spec_manager() == old(self).spec_manager(),
            final(self).spec_block() == block,
            final(self).spec_attestation() == attestation@,
            final(self).stage() == Stage::RegistrationNonce,
            r matches ExecutorAction::Call(RuntimeCall::RegistryNonce { contract, owner })
                && contract == old(self).spec_manager().registry_address
                && owner@ == signer_address(old(self).spec_manager().tee_signer.secret()),
    {
        self.block = block;
        self.attestation = attestation;
        self.stage = Stage::RegistrationNonce;
        self.fetch_permit_nonce()
    }

    fn fetch_permit_nonce(&self) -> (r: ExecutorAction)
        ensures
            r matches ExecutorAction::Call(RuntimeCall::RegistryNonce { contract, owner })
                && contract == self.spec_manager().registry_address
                && owner@ == signer_address(self.spec_manager().tee_signer.secret()),
    {
        ExecutorAction::Call(RuntimeCall::RegistryNonce {
            contract: self.manager.registry_address,
            owner: self.manager.tee_signer.address(),
        })
    }

    fn fail(&mut self, e: FlashtestationsError) -> (r: ExecutorAction)
        ensures
            r == ExecutorAction::Fail(e),
            final(self).stage() == Stage::Finished,
            final(self).spec_manager() == old(self).spec_manager(),
            final(self).spec_block() == old(self).spec_block(),
            final(self).spec_attestation() == old(self).spec_attestation(),
    {
        self.stage = Stage::Finished;
        ExecutorAction::Fail(e)
    }

    /// Takes the reply to the last call and names the next call, or ends the
    /// run.
    pub fn resume(&mut self, reply: RuntimeReply) -> (r: ExecutorAction)
        ensures
            protocol_step(old(self).spec_manager(), old(self).spec_block(), old(self).stage(), reply, r, final(self).stage()),
            final(self).spec_manager() == old(self).spec_manager(),
            final(self).spec_block() == old(self).spec_block(),
            final(self).spec_attestation() == old(self).spec_attestation(),
    {
        let stage = self.stage;
        if let Stage::Idle = stage {
            return self.fail(FlashtestationsError::UnexpectedReply);
        }
        if let Stage::Finished = stage {
            return self.fail(FlashtestationsError::UnexpectedReply);
        }
        match reply {
            RuntimeReply::Failed(msg) => self.fail(FlashtestationsError::Runtime(msg)),
            RuntimeReply::Nonce(nonce) => match stage {
                Stage::RegistrationNonce => {
                    self.stage = Stage::RegistrationStructHash { nonce };
                    ExecutorAction::Call(RuntimeCall::RegistryStructHash {
                        contract: self.manager.registry_address,
                        nonce,
                        deadline: self.block.timestamp,
                    })
                },
                Stage::ProofNonce => {
                    self.stage = Stage::ProofTransactions { nonce };
                    ExecutorAction::Call(RuntimeCall::PayloadTransactions)
                },
                _ => self.fail(FlashtestationsError::UnexpectedReply),
            },
            RuntimeReply::Hash(hash) => match stage {
                Stage::RegistrationStructHash { nonce } => {
                    self.stage = Stage::RegistrationTypedHash { nonce };
                    ExecutorAction::Call(RuntimeCall::RegistryTypedDataHash {
                        contract: self.manager.registry_address,
                        struct_hash: hash,
                    })
                },
                Stage::RegistrationTypedHash { nonce } => {
                    match self.manager.tee_signer.sign_message(&hash) {
                        Ok(signature) => {
                            self.stage = Stage::RegistrationExecuted;
                            ExecutorAction::Call(RuntimeCall::ExecuteRegistration {
                                contract: self.manager.registry_address,
                                nonce,
                                deadline: self.block.timestamp,
                                signature,
                            })
                        },
                        Err(e) => self.fail(FlashtestationsError::Signing(e)),
                    }
                },
                Stage::ProofStructHash { nonce, block_content_hash } => {
                    self.stage = Stage::ProofTypedHash { nonce, block_content_hash };
                    ExecutorAction::Call(RuntimeCall::PolicyTypedDataHash {
                        contract: self.manager.builder_policy_address,
                        struct_hash: hash,
                    })
                },
                Stage::ProofTypedHash { nonce, block_content_hash } => {
                    match self.manager.tee_signer.sign_message(&hash) {
                        Ok(signature) => {
                            self.stage = Stage::ProofExecuted;
                            ExecutorAction::Call(RuntimeCall::ExecuteBlockProof {
                                contract: self.manager.builder_policy_address,
                                version: self.manager.builder_proof_version,
                                block_content_hash,
                                nonce,
                                signature,
                            })
                        },
                        Err(e) => self.fail(FlashtestationsError::Signing(e)),
                    }
                },
                _ => self.fail(FlashtestationsError::UnexpectedReply),
            },
            RuntimeReply::Transactions(txs) => match stage {
                Stage::ProofTransactions { nonce } => {
                    let block_content_hash = compute_block_content_hash(&self.block, &txs);
                    self.stage = Stage::ProofStructHash { nonce, block_content_hash };
                    ExecutorAction::Call(RuntimeCall::PolicyStructHash {
                        contract: self.manager.builder_policy_address,
                        version: self.manager.builder_proof_version,
                        block_content_hash,
                        nonce,
                    })
                },
                _ => self.fail(FlashtestationsError::UnexpectedReply),
            },
            RuntimeReply::Executed => match stage {
                Stage::RegistrationExecuted => {
                    self.stage = Stage::RegistrationEvent;
                    ExecutorAction::Call(RuntimeCall::ValidateEvent(ContractEvent::TeeServiceRegistered))
                },
                Stage::ProofExecuted => {
                    self.stage = Stage::ProofEvent;
                    ExecutorAction::Call(RuntimeCall::ValidateEvent(ContractEvent::BlockBuilderProofVerified))
                },
                _ => self.fail(FlashtestationsError::UnexpectedReply),
            },
            RuntimeReply::EventFound => match stage {
                Stage::RegistrationEvent => {
                    if self.manager.enable_block_proofs {
                        self.stage = Stage::ProofNonce;
                        self.fetch_permit_nonce()
                    } else {
                        self.stage = Stage::Finished;
                        ExecutorAction::Done
                    }
                },
                Stage::ProofEvent => {
                    self.stage = Stage::Finished;
                    ExecutorAction::Done
                },
                _ => self.fail(FlashtestationsError::UnexpectedReply),
            },
        }
    }
}

/// The result of a transaction in a checkpoint.
#[derive(Debug)]
pub enum ExecutionOutcome {
    /// It succeeded and logged these logs, each with its topics.
    Success { logs: Vec<Vec<[u8; 32]>> },
    /// It reverted.
    Revert,
    /// It halted.
    Halt,
}

/// Some log of a successful transaction has this topic.
pub open spec fn logs_contain(logs: Seq<Vec<[u8; 32]>>, topic: [u8; 32]) -> bool {
    exists|i: int, j: int| 0 <= i < logs.len() && 0 <= j < logs[i]@.len() && (#[trigger] logs[i]@[j])@ == topic@
}

fn topic_eq(a: &[u8; 32], b: &[u8; 32]) -> (r: bool)
    ensures
        r == (a@ == b@),
{
    let mut i: usize = 0;
    while i < 32
        invariant
            i <= 32,
            forall|j: int| 0 <= j < i ==> a@[j] == b@[j],
        decreases 32 - i,
    {
        if a[i] != b[i] {
            assert(a@[i as int] != b@[i as int]);
            return false;
        }
        i += 1;
    }
    assert(a@ =~= b@);
    true
}

/// Checks that the checkpoint's transaction logged the expected event: a
/// barrier checkpoint or one without a result is an error, and a successful
/// transaction must have the topic among its logs' topics; a reverted or
/// halted one is not checked.
#[verifier::loop_isolation(false)]
pub fn validate_event(results: Option<&Vec<ExecutionOutcome>>, expected_topic: &[u8; 32]) -> (r: Result<(), FlashtestationsError>)
    ensures
        match results {
            None => r == Err::<(), FlashtestationsError>(FlashtestationsError::NotExecuted),
            Some(outcomes) => if outcomes@.len() == 0 {
                r == Err::<(), FlashtestationsError>(FlashtestationsError::NoExecutionResult)
            } else {
                match outcomes@[0] {
                    ExecutionOutcome::Success { logs } => if logs_contain(logs@, *expected_topic) {
                        r is Ok
                    } else {
                        r == Err::<(), FlashtestationsError>(FlashtestationsError::MissingEvent(*expected_topic))
                    },
                    _ => r is Ok,
                }
            },
        },
{
    let outcomes = match results {
        Some(o) => o,
        None => return Err(FlashtestationsError::NotExecuted),
    };
    if outcomes.len() == 0 {
        return Err(FlashtestationsError::NoExecutionResult);
    }
    match &outcomes[0] {
        ExecutionOutcome::Success { logs } => {
            let mut i: usize = 0;
            while i < logs.len()
                invariant
                    i <= logs@.len(),
                    forall|a: int, b: int| 0 <= a < i && 0 <= b < logs@[a]@.len() ==> (#[trigger] logs@[a]@[b])@ != expected_topic@,
                decreases logs@.len() - i,
            {
                let topics = &logs[i];
                let mut j: usize = 0;
                while j < topics.len()
                    invariant
                        i < logs@.len(),
                        *topics == logs@[i as int],
                        j <= topics@.len(),
                        forall|a: int, b: int| 0 <= a < i && 0 <= b < logs@[a]@.len() ==> (#[trigger] logs@[a]@[b])@ != expected_topic@,
                        forall|b: int| 0 <= b < j ==> (#[trigger] topics@[b])@ != expected_topic@,
                    decreases topics@.len() - j,
                {
                    if topic_eq(&topics[j], expected_topic) {
                        assert((logs@[i as int]@[j as int])@ == expected_topic@);
                        return Ok(());
                    }
                    j += 1;
                }
                i += 1;
            }
            Err(FlashtestationsError::MissingEvent(*expected_topic))
        },
        _ => Ok(()),
    }
}


/// What a simulated contract call came to.
#[derive(Debug)]
pub enum SimulatedCall {
    /// It succeeded with this output.
    Success(Vec<u8>),
    /// It reverted with this output.
    Revert(Vec<u8>),
    /// It halted.
    Halt,
}

/// The output of a simulated contract call, read from the results of the
/// checkpoint that applied it: a barrier has no results, and the call is the
/// first transaction of the checkpoint. Only a successful call has output to
/// decode; a revert hands back its output, which holds the reason.
pub fn simulation_output(results: Option<Vec<SimulatedCall>>) -> (r: Result<Vec<u8>, FlashtestationsError>)
    ensures
        match results {
            None => r == Err::<Vec<u8>, FlashtestationsError>(FlashtestationsError::NotExecuted),
            Some(calls) => if calls@.len() == 0 {
                r == Err::<Vec<u8>, FlashtestationsError>(FlashtestationsError::NoExecutionResult)
            } else {
                match calls@[0] {
                    SimulatedCall::Success(output) => r == Ok::<Vec<u8>, FlashtestationsError>(output),
                    SimulatedCall::Revert(output) => r == Err::<Vec<u8>, FlashtestationsError>(FlashtestationsError::Reverted(output)),
                    SimulatedCall::Halt => r == Err::<Vec<u8>, FlashtestationsError>(FlashtestationsError::Halted),
                }
            },
        },
{
    let mut calls = match results {
        Some(calls) => calls,
        None => return Err(FlashtestationsError::NotExecuted),
    };
    if calls.len() == 0 {
        return Err(FlashtestationsError::NoExecutionResult);
    }
    match calls.swap_remove(0) {
        SimulatedCall::Success(output) => Ok(output),
        SimulatedCall::Revert(output) => Err(FlashtestationsError::Reverted(output)),
        SimulatedCall::Halt => Err(FlashtestationsError::Halted),
    }
}


/// The fields of the transaction that makes a contract call with a key
/// whose address is `signer_address` and whose account nonce in the payload
/// is `nonce`: the parent block's gas limit, the block's base fee as the fee
/// cap, the contract as recipient, and the sender on a permit transaction
/// only (`sent_from_signer` of its call).
pub fn transaction_fields(
    permit: bool,
    contract: [u8; 20],
    signer_address: [u8; 20],
    nonce: u64,
    parent_gas_limit: u64,
    base_fee: u64,
) -> (r: TransactionFields)
    ensures
        r.from == (if permit { Some(signer_address) } else { None::<[u8; 20]> }),
        r.nonce == nonce,
        r.gas_limit == parent_gas_limit,
        r.max_fee_per_gas == base_fee as u128,
        r.to == contract,
{
    let from = if permit { Some(signer_address) } else { None };
    TransactionFields { from, nonce, gas_limit: parent_gas_limit, max_fee_per_gas: base_fee as u128, to: contract }
}


/// Every call of the block proof carries the manager's configuration: the
/// policy struct hash and the block proof transaction carry the configured
/// proof version, every policy call goes to the configured policy contract
/// and every registry call to the configured registry, whatever the stage
/// and the reply.
pub proof fn lemma_calls_carry_configuration(
    m: FlashtestationsManager,
    block: BlockContext,
    stage: Stage,
    reply: RuntimeReply,
    action: ExecutorAction,
    next: Stage,
)
    requires
        protocol_step(m, block, stage, reply, action, next),
    ensures
        action matches ExecutorAction::Call(RuntimeCall::PolicyStructHash { contract, version, .. })
            ==> version == m.builder_proof_version && contract == m.builder_policy_address,
        action matches ExecutorAction::Call(RuntimeCall::ExecuteBlockProof { contract, version, .. })
            ==> version == m.builder_proof_version && contract == m.builder_policy_address,
        action matches ExecutorAction::Call(RuntimeCall::PolicyTypedDataHash { contract, .. })
            ==> contract == m.builder_policy_address,
        action matches ExecutorAction::Call(RuntimeCall::RegistryNonce { contract, .. })
            ==> contract == m.registry_address,
        action matches ExecutorAction::Call(RuntimeCall::RegistryStructHash { contract, deadline, .. })
            ==> contract == m.registry_address && deadline == block.timestamp,
        action matches ExecutorAction::Call(RuntimeCall::RegistryTypedDataHash { contract, .. })
            ==> contract == m.registry_address,
        action matches ExecutorAction::Call(RuntimeCall::ExecuteRegistration { contract, deadline, .. })
            ==> contract == m.registry_address && deadline == block.timestamp,
{
}

/// The big-endian value of the 32-byte word at `index` of an encoding.
pub open spec fn word_value(encoding: Seq<u8>, index: int) -> nat {
    be_value(encoding.subrange(32 * index, 32 * index + 32))
}

proof fn lemma_concat_words(parts: Seq<Seq<u8>>)
    requires
        forall|k: int| 0 <= k < parts.len() ==> (#[trigger] parts[k]).len() == 32,
    ensures
        concat_all(parts).len() == 32 * parts.len(),
        forall|k: int| 0 <= k < parts.len() ==> concat_all(parts).subrange(32 * k, 32 * k + 32) == #[trigger] parts[k],
    decreases parts.len(),
{
    if parts.len() > 0 {
        let init = parts.drop_last();
        assert forall|k: int| 0 <= k < init.len() implies (#[trigger] init[k]).len() == 32 by {
            assert(init[k] == parts[k]);
        }
        lemma_concat_words(init);
        let c = concat_all(parts);
        assert(c == concat_all(init) + parts.last());
        assert forall|k: int| 0 <= k < parts.len() implies c.subrange(32 * k, 32 * k + 32) == #[trigger] parts[k] by {
            if k < init.len() {
                assert(init[k] == parts[k]);
                assert(concat_all(init).subrange(32 * k, 32 * k + 32) == init[k]);
                assert(c.subrange(32 * k, 32 * k + 32) =~= concat_all(init).subrange(32 * k, 32 * k + 32));
            } else {
                assert(k == init.len());
                assert(c.subrange(32 * k, 32 * k + 32) =~= parts.last());
            }
        }
    }
}

/// The bytes whose Keccak-256 is the block content hash are the standard ABI
/// encoding of `BlockData`, word by word: the offset 32 of the struct, the
/// parent hash, the block number, the timestamp, the offset 128 of the hash
/// array, the number of transactions, then each transaction hash in order.
pub proof fn lemma_block_data_layout(parent_hash: Seq<u8>, block_number: u64, timestamp: u64, tx_hashes: Seq<Seq<u8>>)
    requires
        parent_hash.len() == 32,
        tx_hashes.len() <= u64::MAX,
    ensures
        ({
            let e = block_data_encoding(parent_hash, block_number, timestamp, tx_hashes);
            &&& e.len() >= 192
            &&& word_value(e, 0) == 32
            &&& e.subrange(32, 64) == parent_hash
            &&& word_value(e, 2) == block_number
            &&& word_value(e, 3) == timestamp
            &&& word_value(e, 4) == 128
            &&& word_value(e, 5) == tx_hashes.len()
            &&& (forall|k: int| 0 <= k < tx_hashes.len() ==> (#[trigger] tx_hashes[k]).len() == 32) ==> {
                &&& e.len() == 32 * (6 + tx_hashes.len())
                &&& forall|k: int| 0 <= k < tx_hashes.len() ==> e.subrange(32 * (6 + k), 32 * (6 + k) + 32) == #[trigger] tx_hashes[k]
            }
        }),
{
    let n = tx_hashes.len();
    lemma_abi_word_value(32);
    lemma_abi_word_value(block_number);
    lemma_abi_word_value(timestamp);
    lemma_abi_word_value(128);
    lemma_abi_word_value(n as u64);
    let head = abi_word(32) + parent_hash + abi_word(block_number) + abi_word(timestamp) + abi_word(128)
        + abi_word(n as u64);
    let body = concat_all(tx_hashes);
    let e = block_data_encoding(parent_hash, block_number, timestamp, tx_hashes);
    assert(e == head + body);
    assert(head.len() == 192);
    assert(e.subrange(0, 32) =~= abi_word(32));
    assert(e.subrange(32, 64) =~= parent_hash);
    assert(e.subrange(64, 96) =~= abi_word(block_number));
    assert(e.subrange(96, 128) =~= abi_word(timestamp));
    assert(e.subrange(128, 160) =~= abi_word(128));
    assert(e.subrange(160, 192) =~= abi_word(n as u64));
    if forall|k: int| 0 <= k < tx_hashes.len() ==> (#[trigger] tx_hashes[k]).len() == 32 {
        lemma_concat_words(tx_hashes);
        assert forall|k: int| 0 <= k < n implies e.subrange(32 * (6 + k), 32 * (6 + k) + 32) == #[trigger] tx_hashes[k] by {
            assert(body.subrange(32 * k, 32 * k + 32) == tx_hashes[k]);
            assert(e.subrange(32 * (6 + k), 32 * (6 + k) + 32) =~= body.subrange(32 * k, 32 * k + 32));
        }
    }
}

/// The block content hash commits to the block and to the payload's
/// transactions: it is the Keccak-256 of the `BlockData` encoding whose
/// words hold the parent hash, the block number, the timestamp and the
/// number of transactions, and whose hashes are those of the transactions,
/// one per transaction, in their order.
pub proof fn lemma_block_content_hash_commits(block: BlockContext, encoded_transactions: Seq<Seq<u8>>)
    requires
        encoded_transactions.len() <= u64::MAX,
    ensures
        ({
            let hashes = transaction_hashes(encoded_transactions);
            let e = block_data_encoding(block.parent_hash@, block.block_number, block.timestamp, hashes);
            &&& spec_block_content_hash(block, encoded_transactions) == keccak256(e)
            &&& hashes.len() == encoded_transactions.len()
            &&& forall|k: int| 0 <= k < encoded_transactions.len() ==> #[trigger] hashes[k] == keccak256(encoded_transactions[k])
            &&& e.subrange(32, 64) == block.parent_hash@
            &&& word_value(e, 2) == block.block_number
            &&& word_value(e, 3) == block.timestamp
            &&& word_value(e, 5) == encoded_transactions.len()
        }),
{
    lemma_block_data_layout(
        block.parent_hash@,
        block.block_number,
        block.timestamp,
        transaction_hashes(encoded_transactions),
    );
}

/// No log of an empty list holds a topic.
pub proof fn lemma_no_logs_no_event(topic: [u8; 32])
    ensures
        !logs_contain(Seq::empty(), topic),
{
}

/// One log holds a topic exactly when one of its topics is it.
pub proof fn lemma_one_log_event(log: Vec<[u8; 32]>, topic: [u8; 32])
    ensures
        logs_contain(seq![log], topic) <==> exists|j: int| 0 <= j < log@.len() && (#[trigger] log@[j])@ == topic@,
{
    if exists|j: int| 0 <= j < log@.len() && (#[trigger] log@[j])@ == topic@ {
        let j = choose|j: int| 0 <= j < log@.len() && (#[trigger] log@[j])@ == topic@;
        assert(seq![log][0]@[j] == log@[j]);
    }
}

/// The logs of a transaction hold a topic exactly when the logs before some
/// point or those after it do: wherever the event was logged, first, last or
/// in between, it is found.
pub proof fn lemma_event_anywhere_in_logs(a: Seq<Vec<[u8; 32]>>, b: Seq<Vec<[u8; 32]>>, topic: [u8; 32])
    ensures
        logs_contain(a + b, topic) <==> logs_contain(a, topic) || logs_contain(b, topic),
{
    let c = a + b;
    if logs_contain(c, topic) {
        let (i, j) = choose|i: int, j: int| 0 <= i < c.len() && 0 <= j < c[i]@.len() && (#[trigger] c[i]@[j])@ == topic@;
        if i < a.len() {
            assert(c[i] == a[i]);
            assert(a[i]@[j] == c[i]@[j]);
        } else {
            assert(c[i] == b[i - a.len()]);
            assert(b[i - a.len()]@[j] == c[i]@[j]);
        }
    }
    if logs_contain(a, topic) {
        let (i, j) = choose|i: int, j: int| 0 <= i < a.len() && 0 <= j < a[i]@.len() && (#[trigger] a[i]@[j])@ == topic@;
        assert(c[i] == a[i]);
        assert(c[i]@[j] == a[i]@[j]);
    }
    if logs_contain(b, topic) {
        let (i, j) = choose|i: int, j: int| 0 <= i < b.len() && 0 <= j < b[i]@.len() && (#[trigger] b[i]@[j])@ == topic@;
        assert(c[a.len() + i] == b[i]);
        assert(c[a.len() + i]@[j] == b[i]@[j]);
    }
}

} // verus!
