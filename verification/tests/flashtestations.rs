use alloy_primitives::{keccak256, Signature, U256};
use alloy_sol_types::SolValue;
use flashblocks::executor::{
    compute_block_content_hash, validate_event, BlockContext, ContractEvent, ExecutionOutcome, ExecutorAction,
    FlashteststationsExecutor, RuntimeCall, RuntimeReply, SimulatedCall, simulation_output, transaction_fields,
};
use flashblocks::service::{
    after_key_file_read, load_or_generate_tee_key, FlashtestationsArgs, FlashtestationsError, FlashtestationsManager,
    TeeKeyStep,
};
use flashblocks::signer::{BuilderSigner, SignerError};
use flashblocks::step::{payload_after_executor, FlashtestationsPrologue, PrologueAction};

fn test_args(enable_block_proofs: bool) -> FlashtestationsArgs {
    FlashtestationsArgs {
        flashtestations_enabled: true,
        debug: true,
        quote_provider: Some("http://localhost".into()),
        flashtestations_key_path: "/tmp/unused.key".into(),
        debug_tee_key_seed: "debug-tee".into(),
        registry_address: Some([0x11u8; 20]),
        builder_policy_address: Some([0x22u8; 20]),
        builder_proof_version: 1,
        enable_block_proofs,
    }
}

fn test_manager(enable_block_proofs: bool) -> FlashtestationsManager {
    let args = test_args(enable_block_proofs);
    let tee = match load_or_generate_tee_key(&args.flashtestations_key_path, args.debug, &args.debug_tee_key_seed) {
        TeeKeyStep::Ready(s) => s,
        other => panic!("unexpected {other:?}"),
    };
    FlashtestationsManager::try_new_with_keys(&args, BuilderSigner::from_seed("builder-testing"), tee).expect("manager")
}

fn block() -> BlockContext {
    BlockContext { parent_hash: [0x77u8; 32], block_number: 5, timestamp: 1_700_000_000 }
}

/// A runtime that answers each call from a scenario and records the calls.
struct Scenario {
    permit_nonce: [u8; 32],
    event_logs: Vec<Vec<ContractEvent>>,
    fail_registry_struct_hash: bool,
    calls: Vec<RuntimeCall>,
    pending_logs: Vec<Vec<ContractEvent>>,
}

impl Scenario {
    fn new(event_logs: Vec<Vec<ContractEvent>>) -> Self {
        let mut nonce = [0u8; 32];
        nonce[31] = 1;
        Scenario { permit_nonce: nonce, event_logs, fail_registry_struct_hash: false, calls: Vec::new(), pending_logs: Vec::new() }
    }

    fn answer(&mut self, call: RuntimeCall) -> RuntimeReply {
        self.calls.push(call);
        match call {
            RuntimeCall::RegistryNonce { .. } => RuntimeReply::Nonce(self.permit_nonce),
            RuntimeCall::RegistryStructHash { .. } => {
                if self.fail_registry_struct_hash {
                    RuntimeReply::Failed("registry struct hash failed: registrystructhash failed".into())
                } else {
                    RuntimeReply::Hash([0x01; 32])
                }
            }
            RuntimeCall::RegistryTypedDataHash { .. } => RuntimeReply::Hash([0x02; 32]),
            RuntimeCall::PolicyStructHash { .. } => RuntimeReply::Hash([0x03; 32]),
            RuntimeCall::PolicyTypedDataHash { .. } => RuntimeReply::Hash([0x04; 32]),
            RuntimeCall::PayloadTransactions => RuntimeReply::Transactions(vec![vec![0x02, 0xf8], vec![0x7e]]),
            RuntimeCall::ExecuteRegistration { .. } | RuntimeCall::ExecuteBlockProof { .. } => {
                let logs = if self.event_logs.is_empty() { Vec::new() } else { self.event_logs.remove(0) };
                self.pending_logs.push(logs);
                RuntimeReply::Executed
            }
            RuntimeCall::ValidateEvent(event) => {
                let logs = if self.pending_logs.is_empty() { Vec::new() } else { self.pending_logs.remove(0) };
                if logs.contains(&event) {
                    RuntimeReply::EventFound
                } else {
                    RuntimeReply::Failed(format!("did not find expected event {event:?} in transaction logs"))
                }
            }
        }
    }

    fn executions(&self) -> usize {
        self.calls
            .iter()
            .filter(|c| matches!(c, RuntimeCall::ExecuteRegistration { .. } | RuntimeCall::ExecuteBlockProof { .. }))
            .count()
    }

    fn policy_struct_calls(&self) -> usize {
        self.calls.iter().filter(|c| matches!(c, RuntimeCall::PolicyStructHash { .. })).count()
    }
}

fn run(manager: &FlashtestationsManager, scenario: &mut Scenario, attestation: Vec<u8>) -> Result<(), FlashtestationsError> {
    let mut executor = FlashteststationsExecutor::new(manager);
    let mut action = executor.add_transactions(block(), attestation);
    loop {
        match action {
            ExecutorAction::Call(call) => {
                let reply = scenario.answer(call);
                action = executor.resume(reply);
            }
            ExecutorAction::Done => return Ok(()),
            ExecutorAction::Fail(e) => return Err(e),
        }
    }
}

#[test]
fn adds_registration_and_block_proof_transactions() {
    let manager = test_manager(true);
    let mut scenario = Scenario::new(vec![
        vec![ContractEvent::TeeServiceRegistered],
        vec![ContractEvent::BlockBuilderProofVerified],
    ]);
    scenario.permit_nonce = U256::from(3).to_be_bytes::<32>();
    let result = run(&manager, &mut scenario, vec![0x01, 0x02, 0x03]);
    assert!(result.is_ok());
    assert_eq!(scenario.executions(), 2, "expected registration + block proof transactions");
    assert!(scenario.policy_struct_calls() > 0);
}

#[test]
fn skips_block_proof_when_disabled() {
    let manager = test_manager(false);
    let mut scenario = Scenario::new(vec![vec![ContractEvent::TeeServiceRegistered]]);
    let result = run(&manager, &mut scenario, vec![0xAA, 0xBB]);
    assert!(result.is_ok());
    assert_eq!(scenario.executions(), 1, "block proof transaction should not execute");
    assert_eq!(scenario.policy_struct_calls(), 0, "block proof path must not be invoked");
}

#[test]
fn surface_missing_events() {
    let manager = test_manager(false);
    let mut scenario = Scenario::new(vec![Vec::new()]);
    let result = run(&manager, &mut scenario, vec![0x10, 0x20]);
    assert!(
        matches!(result, Err(FlashtestationsError::Runtime(ref msg)) if msg.contains("did not find expected event")),
        "missing event must bubble up"
    );
}

#[test]
fn propagates_simulation_errors() {
    let manager = test_manager(false);
    let mut scenario = Scenario::new(vec![vec![ContractEvent::TeeServiceRegistered]]);
    scenario.fail_registry_struct_hash = true;
    let result = run(&manager, &mut scenario, vec![0xAB]);
    assert!(
        matches!(result, Err(FlashtestationsError::Runtime(ref msg)) if msg.contains("registry struct hash failed")),
        "struct hash errors must stop the step"
    );
    assert_eq!(scenario.executions(), 0);
}

#[test]
fn registration_calls_in_order_with_their_arguments() {
    let manager = test_manager(true);
    let mut scenario = Scenario::new(vec![
        vec![ContractEvent::TeeServiceRegistered],
        vec![ContractEvent::BlockBuilderProofVerified],
    ]);
    run(&manager, &mut scenario, vec![9, 9]).unwrap();
    let tee = manager.tee_signer.address();
    let b = block();
    let calls = &scenario.calls;
    assert_eq!(calls.len(), 11);
    assert_eq!(calls[0], RuntimeCall::RegistryNonce { contract: [0x11; 20], owner: tee });
    assert_eq!(calls[1], RuntimeCall::RegistryStructHash { contract: [0x11; 20], nonce: scenario.permit_nonce, deadline: b.timestamp });
    assert_eq!(calls[2], RuntimeCall::RegistryTypedDataHash { contract: [0x11; 20], struct_hash: [0x01; 32] });
    match calls[3] {
        RuntimeCall::ExecuteRegistration { contract, nonce, deadline, signature } => {
            assert_eq!(contract, [0x11; 20]);
            assert_eq!(nonce, scenario.permit_nonce);
            assert_eq!(deadline, b.timestamp);
            let signer = Signature::from_raw_array(&signature).unwrap().recover_address_from_msg([0x02u8; 32]).unwrap();
            assert_eq!(signer.0 .0, tee);
        }
        other => panic!("unexpected call {other:?}"),
    }
    assert_eq!(calls[4], RuntimeCall::ValidateEvent(ContractEvent::TeeServiceRegistered));
    assert_eq!(calls[5], RuntimeCall::RegistryNonce { contract: [0x11; 20], owner: tee });
    assert_eq!(calls[6], RuntimeCall::PayloadTransactions);
    let content_hash = compute_block_content_hash(&b, &vec![vec![0x02, 0xf8], vec![0x7e]]);
    assert_eq!(
        calls[7],
        RuntimeCall::PolicyStructHash { contract: [0x22; 20], version: 1, block_content_hash: content_hash, nonce: scenario.permit_nonce }
    );
    assert_eq!(calls[8], RuntimeCall::PolicyTypedDataHash { contract: [0x22; 20], struct_hash: [0x03; 32] });
    match calls[9] {
        RuntimeCall::ExecuteBlockProof { contract, version, block_content_hash, nonce, signature } => {
            assert_eq!((contract, version, block_content_hash, nonce), ([0x22; 20], 1, content_hash, scenario.permit_nonce));
            let signer = Signature::from_raw_array(&signature).unwrap().recover_address_from_msg([0x04u8; 32]).unwrap();
            assert_eq!(signer.0 .0, tee);
        }
        other => panic!("unexpected call {other:?}"),
    }
    assert_eq!(calls[10], RuntimeCall::ValidateEvent(ContractEvent::BlockBuilderProofVerified));
}

#[test]
fn unexpected_replies_end_the_run() {
    let manager = test_manager(false);
    let mut executor = FlashteststationsExecutor::new(&manager);
    assert!(matches!(executor.resume(RuntimeReply::Executed), ExecutorAction::Fail(FlashtestationsError::UnexpectedReply)));
    let _ = executor.add_transactions(block(), vec![1]);
    assert!(matches!(executor.resume(RuntimeReply::Hash([0; 32])), ExecutorAction::Fail(FlashtestationsError::UnexpectedReply)));
    assert!(matches!(executor.resume(RuntimeReply::Nonce([0; 32])), ExecutorAction::Fail(FlashtestationsError::UnexpectedReply)));
}

#[test]
fn block_content_hash_is_keccak_of_abi_block_data() {
    let b = block();
    let txs = vec![vec![0x02, 0xf8, 0x01], vec![0x7e, 0x00], Vec::new()];
    let hashes: Vec<alloy_primitives::B256> = txs.iter().map(|tx| keccak256(tx)).collect();
    let encoded = (
        alloy_primitives::B256::from(b.parent_hash),
        U256::from(b.block_number),
        U256::from(b.timestamp),
        hashes,
    )
        .abi_encode();
    assert_eq!(compute_block_content_hash(&b, &txs), keccak256(&encoded).0);
    let empty = (alloy_primitives::B256::from(b.parent_hash), U256::from(b.block_number), U256::from(b.timestamp), Vec::<alloy_primitives::B256>::new()).abi_encode();
    assert_eq!(compute_block_content_hash(&b, &Vec::new()), keccak256(&empty).0);
}

#[test]
fn validate_event_cases() {
    let topic = [0x55u8; 32];
    assert_eq!(validate_event(None, &topic), Err(FlashtestationsError::NotExecuted));
    assert_eq!(validate_event(Some(&Vec::new()), &topic), Err(FlashtestationsError::NoExecutionResult));
    let found = vec![ExecutionOutcome::Success { logs: vec![vec![[0u8; 32]], vec![[1u8; 32], topic]] }];
    assert_eq!(validate_event(Some(&found), &topic), Ok(()));
    let missing = vec![ExecutionOutcome::Success { logs: vec![vec![[0u8; 32]]] }];
    assert_eq!(validate_event(Some(&missing), &topic), Err(FlashtestationsError::MissingEvent(topic)));
    assert_eq!(validate_event(Some(&vec![ExecutionOutcome::Revert]), &topic), Ok(()));
    assert_eq!(validate_event(Some(&vec![ExecutionOutcome::Halt]), &topic), Ok(()));
}

#[test]
fn manager_requires_contract_addresses() {
    let key = BuilderSigner::from_seed("k");
    let mut args = test_args(false);
    args.registry_address = None;
    assert_eq!(FlashtestationsManager::try_new_with_keys(&args, key, key).err(), Some(FlashtestationsError::MissingRegistryAddress));
    let mut args = test_args(false);
    args.builder_policy_address = None;
    assert_eq!(FlashtestationsManager::try_new_with_keys(&args, key, key).err(), Some(FlashtestationsError::MissingBuilderPolicyAddress));
    let m = FlashtestationsManager::try_new_with_keys(&test_args(true), key, key).unwrap();
    assert!(m.extra_registration_data.is_empty());
    assert_eq!(m.registry_address, [0x11; 20]);
    assert_eq!(m.builder_policy_address, [0x22; 20]);
    assert!(m.enable_block_proofs);
}

#[test]
fn tee_key_sources() {
    match load_or_generate_tee_key("/run/key", false, "seed") {
        TeeKeyStep::ReadKeyFile(path) => assert_eq!(path, "/run/key"),
        other => panic!("unexpected {other:?}"),
    }
    match load_or_generate_tee_key("/run/key", true, "seed") {
        TeeKeyStep::Ready(s) => assert_eq!(s, BuilderSigner::from_seed("seed")),
        other => panic!("unexpected {other:?}"),
    }
    let loaded = BuilderSigner::from_seed("on-disk");
    match after_key_file_read("/run/key".into(), Ok(loaded)) {
        TeeKeyStep::Ready(s) => assert_eq!(s, loaded),
        other => panic!("unexpected {other:?}"),
    }
    match after_key_file_read("/run/key".into(), Err(SignerError::KeyLength)) {
        TeeKeyStep::WriteKeyFile(s, path) => {
            assert_eq!(path, "/run/key");
            assert!(BuilderSigner::try_from_bytes(&s.to_bytes()).is_ok());
        }
        other => panic!("unexpected {other:?}"),
    }
}

#[test]
fn prologue_invokes_executor_when_attestation_available() {
    let mut prologue = FlashtestationsPrologue::with_manager(test_manager(false));
    assert!(prologue.needs_attestation());
    prologue.setup(Some(vec![0x42]));
    assert!(!prologue.needs_attestation());
    let attestation = match prologue.step() {
        PrologueAction::AddTransactions(a) => a,
        PrologueAction::PassThrough => panic!("the executor should run"),
    };
    assert_eq!(attestation, vec![0x42]);
    let manager = prologue.manager().unwrap();
    let mut scenario = Scenario::new(vec![vec![ContractEvent::TeeServiceRegistered]]);
    run(manager, &mut scenario, attestation).unwrap();
    assert_eq!(scenario.executions(), 1, "permit transaction should run");
    assert_eq!(scenario.policy_struct_calls(), 0, "block proofs disabled");
}

#[test]
fn prologue_skips_when_attestation_missing() {
    let mut prologue = FlashtestationsPrologue::with_manager(test_manager(false));
    prologue.setup(None);
    assert!(matches!(prologue.step(), PrologueAction::PassThrough));
    assert_eq!(prologue.get_attestation(), Err(FlashtestationsError::NoAttestation));
    let disabled = FlashtestationsPrologue::disabled();
    assert!(!disabled.needs_attestation());
    assert!(matches!(disabled.step(), PrologueAction::PassThrough));
}

#[test]
fn prologue_keeps_first_attestation() {
    let mut prologue = FlashtestationsPrologue::with_manager(test_manager(false));
    prologue.setup(Some(vec![1]));
    prologue.setup(Some(vec![2]));
    assert_eq!(prologue.get_attestation(), Ok(vec![1]));
    let mut disabled = FlashtestationsPrologue::disabled();
    disabled.setup(Some(vec![3]));
    assert_eq!(disabled.get_attestation(), Err(FlashtestationsError::NoAttestation));
}

#[test]
fn failed_executor_keeps_starting_payload() {
    assert_eq!(payload_after_executor("starting", Ok("new")), "new");
    assert_eq!(payload_after_executor("starting", Err(FlashtestationsError::UnexpectedReply)), "starting");
}

#[test]
fn simulated_call_output() {
    assert_eq!(simulation_output(None), Err(FlashtestationsError::NotExecuted));
    assert_eq!(simulation_output(Some(vec![])), Err(FlashtestationsError::NoExecutionResult));
    assert_eq!(
        simulation_output(Some(vec![SimulatedCall::Success(vec![1, 2]), SimulatedCall::Halt])),
        Ok(vec![1, 2])
    );
    assert_eq!(
        simulation_output(Some(vec![SimulatedCall::Revert(vec![8, 9])])),
        Err(FlashtestationsError::Reverted(vec![8, 9]))
    );
    assert_eq!(simulation_output(Some(vec![SimulatedCall::Halt])), Err(FlashtestationsError::Halted));
}

#[test]
fn calls_name_their_keys_and_registration_data() {
    let manager = test_manager(true);
    let mut executor = FlashteststationsExecutor::new(&manager);
    let _ = executor.add_transactions(block(), vec![0x42, 0x43]);
    let tee = manager.tee_signer.to_bytes();
    let builder = manager.builder_key.to_bytes();
    let nonce = [0u8; 32];
    let signature = [0u8; 65];
    let contract = manager.registry_address;
    let tee_calls = [
        RuntimeCall::RegistryNonce { contract, owner: manager.tee_signer.address() },
        RuntimeCall::RegistryStructHash { contract, nonce, deadline: 1 },
        RuntimeCall::RegistryTypedDataHash { contract, struct_hash: [1; 32] },
        RuntimeCall::PolicyStructHash { contract, version: 1, block_content_hash: [2; 32], nonce },
        RuntimeCall::PolicyTypedDataHash { contract, struct_hash: [3; 32] },
    ];
    for call in tee_calls {
        assert_eq!(executor.signer_of(&call).unwrap().to_bytes(), tee, "{call:?}");
    }
    for call in [
        RuntimeCall::ExecuteRegistration { contract, nonce, deadline: 1, signature },
        RuntimeCall::ExecuteBlockProof { contract, version: 1, block_content_hash: [2; 32], nonce, signature },
    ] {
        assert_eq!(executor.signer_of(&call).unwrap().to_bytes(), builder, "{call:?}");
    }
    assert!(executor.signer_of(&RuntimeCall::PayloadTransactions).is_none());
    assert!(executor.signer_of(&RuntimeCall::ValidateEvent(ContractEvent::TeeServiceRegistered)).is_none());

    let (quote, extra) = executor.registration_data(&RuntimeCall::ExecuteRegistration { contract, nonce, deadline: 1, signature }).unwrap();
    assert_eq!(quote, &vec![0x42, 0x43]);
    assert_eq!(extra, &manager.extra_registration_data);
    assert!(executor.registration_data(&RuntimeCall::RegistryStructHash { contract, nonce, deadline: 1 }).is_some());
    assert!(executor.registration_data(&RuntimeCall::RegistryTypedDataHash { contract, struct_hash: [1; 32] }).is_none());
}

#[test]
fn permit_transactions_are_sent_from_their_signer() {
    let simulated = transaction_fields(false, [1; 20], [2; 20], 7, 30_000_000, 9);
    assert_eq!(simulated.from, None);
    assert_eq!((simulated.nonce, simulated.gas_limit, simulated.max_fee_per_gas, simulated.to), (7, 30_000_000, 9, [1; 20]));
    let permit = transaction_fields(true, [1; 20], [2; 20], 7, 30_000_000, 9);
    assert_eq!(permit.from, Some([2; 20]));
}
