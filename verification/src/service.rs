//! Flashtestations configuration: the TEE signer, the contracts it talks to,
//! and how the TEE key is obtained.

use vstd::prelude::*;
use crate::crypto::{sha256, valid_secret_key};
use crate::signer::{BuilderSigner, SignerError};
use vstd::string::StringSliceAdditionalSpecFns;

verus! {

/// The flashtestations settings of the builder.
#[derive(Debug, Clone)]
pub struct FlashtestationsArgs {
    /// Whether flashtestations are enabled.
    pub flashtestations_enabled: bool,
    /// Debug mode: a TEE key derived from a seed, and the debug quote service.
    pub debug: bool,
    /// The remote quote provider.
    pub quote_provider: Option<String>,
    /// Where the TEE key is kept.
    pub flashtestations_key_path: String,
    /// The seed of the TEE key in debug mode.
    pub debug_tee_key_seed: String,
    /// The flashtestation registry contract.
    pub registry_address: Option<[u8; 20]>,
    /// The block builder policy contract.
    pub builder_policy_address: Option<[u8; 20]>,
    /// The version of the block builder proofs.
    pub builder_proof_version: u8,
    /// Whether a block builder proof is added to each block.
    pub enable_block_proofs: bool,
}

/// Why flashtestations could not proceed.
#[derive(Debug, Clone, PartialEq, Eq)]
pub enum FlashtestationsError {
    /// A registry address is required when flashtestations are enabled.
    MissingRegistryAddress,
    /// A builder policy address is required when flashtestations are enabled.
    MissingBuilderPolicyAddress,
    /// No attestation was obtained for the TEE signer.
    NoAttestation,
    /// The TEE signer could not sign.
    Signing(SignerError),
    /// The runtime reported this error.
    Runtime(String),
    /// The reply does not answer the call that was made.
    UnexpectedReply,
    /// The checkpoint is a barrier, with no execution result.
    NotExecuted,
    /// The checkpoint has no transaction result.
    NoExecutionResult,
    /// The transaction did not log this event topic.
    MissingEvent([u8; 32]),
    /// The simulated call reverted with this output.
    Reverted(Vec<u8>),
    /// The simulated call halted.
    Halted,
}

/// Everything the flashtestations transactions are made from.
#[derive(Debug)]
pub struct FlashtestationsManager {
    /// TEE service generated key.
    pub tee_signer: BuilderSigner,
    /// Builder key for the flashtestation permit transactions.
    pub builder_key: BuilderSigner,
    /// Extra registration data for the builder, empty for now.
    pub extra_registration_data: Vec<u8>,
    /// Registry address for the attestation.
    pub registry_address: [u8; 20],
    /// Builder policy address for the block builder proof.
    pub builder_policy_address: [u8; 20],
    /// Builder proof version.
    pub builder_proof_version: u8,
    /// Whether block proofs are enabled.
    pub enable_block_proofs: bool,
}

impl FlashtestationsManager {
    /// The manager of these settings with these keys: both contract addresses
    /// are required, the registry's first.
    pub fn try_new_with_keys(
        args: &FlashtestationsArgs,
        builder_key: BuilderSigner,
        tee_signer: BuilderSigner,
    ) -> (r: Result<Self, FlashtestationsError>)
        ensures
            match r {
                Ok(m) => {
                    &&& args.registry_address == Some(m.registry_address)
                    &&& args.builder_policy_address == Some(m.builder_policy_address)
                    &&& m.tee_signer == tee_signer
                    &&& m.builder_key == builder_key
                    &&& m.extra_registration_data@ == Seq::<u8>::empty()
                    &&& m.builder_proof_version == args.builder_proof_version
                    &&& m.enable_block_proofs == args.enable_block_proofs
                },
                Err(e) => {
                    ||| args.registry_address is None && e == FlashtestationsError::MissingRegistryAddress
                    ||| args.registry_address is Some && args.builder_policy_address is None
                        && e == FlashtestationsError::MissingBuilderPolicyAddress
                },
            },
    {
        let registry_address = match args.registry_address {
            Some(a) => a,
            None => return Err(FlashtestationsError::MissingRegistryAddress),
        };
        let builder_policy_address = match args.builder_policy_address {
            Some(a) => a,
            None => return Err(FlashtestationsError::MissingBuilderPolicyAddress),
        };
        Ok(FlashtestationsManager {
            tee_signer,
            builder_key,
            extra_registration_data: Vec::new(),
            registry_address,
            builder_policy_address,
            builder_proof_version: args.builder_proof_version,
            enable_block_proofs: args.enable_block_proofs,
        })
    }
}

/// Where the TEE key comes from, one step at a time.
#[derive(Debug)]
pub enum TeeKeyStep {
    /// The key is there.
    Ready(BuilderSigner),
    /// The seed of the debug key hashes to no secret key.
    SeedRejected,
    /// Read the key from the file at this path and hand back what was read.
    ReadKeyFile(String),
    /// Write this new key to the file at this path, then use it.
    WriteKeyFile(BuilderSigner, String),
}

/// Load the ephemeral TEE key: in debug mode it is derived from the seed;
/// otherwise it is read from the key file.
pub fn load_or_generate_tee_key(key_path: &str, debug: bool, debug_seed: &str) -> (r: TeeKeyStep)
    ensures
        debug ==> match r {
            TeeKeyStep::Ready(s) => valid_secret_key(sha256(debug_seed.spec_bytes()))
                && s.secret() == sha256(debug_seed.spec_bytes()),
            TeeKeyStep::SeedRejected => !valid_secret_key(sha256(debug_seed.spec_bytes())),
            _ => false,
        },
        !debug ==> (r matches TeeKeyStep::ReadKeyFile(path) && path@ == key_path@),
{
    if debug {
        return match BuilderSigner::try_from_seed(debug_seed) {
            Some(s) => TeeKeyStep::Ready(s),
            None => TeeKeyStep::SeedRejected,
        };
    }
    TeeKeyStep::ReadKeyFile(key_path.to_owned())
}

/// After the key file was read: a key that loaded is used; otherwise a new
/// random key is generated and written to the file.
pub fn after_key_file_read(key_path: String, loaded: Result<BuilderSigner, SignerError>) -> (r: TeeKeyStep)
    ensures
        match loaded {
            Ok(s) => r == TeeKeyStep::Ready(s),
            Err(_) => r matches TeeKeyStep::WriteKeyFile(_, path) && path == key_path,
        },
{
    match loaded {
        Ok(signer) => TeeKeyStep::Ready(signer),
        Err(_) => TeeKeyStep::WriteKeyFile(BuilderSigner::random(), key_path),
    }
}

} // verus!
