//! The flashtestations prologue of each block: once an attestation of the TEE
//! signer is at hand, the flashtestations transactions are added at the start
//! of every block.

use vstd::prelude::*;
use crate::service::{FlashtestationsError, FlashtestationsManager};

verus! {

/// What the prologue does with a payload.
#[derive(Debug)]
pub enum PrologueAction {
    /// Flashtestations are disabled or there is no attestation: the payload
    /// goes on unchanged.
    PassThrough,
    /// Run the executor with this attestation.
    AddTransactions(Vec<u8>),
}

/// The prologue step. Flashtestations are enabled exactly when there is a
/// manager.
pub struct FlashtestationsPrologue {
    manager: Option<FlashtestationsManager>,
    attestation: Option<Vec<u8>>,
}

impl FlashtestationsPrologue {
    /// Whether flashtestations are enabled: exactly when there is a manager.
    pub open spec fn enabled(self) -> bool {
        self.spec_manager() is Some
    }

    /// The manager, when enabled.
    pub closed spec fn spec_manager(self) -> Option<FlashtestationsManager> {
        self.manager
    }

    /// The attestation obtained so far.
    pub closed spec fn spec_attestation(self) -> Option<Seq<u8>> {
        match self.attestation {
            Some(a) => Some(a@),
            None => None,
        }
    }

    /// A prologue with flashtestations disabled.
    pub fn disabled() -> (r: Self)
        ensures
            !r.enabled(),
            r.spec_attestation() is None,
    {
        FlashtestationsPrologue { manager: None, attestation: None }
    }

    /// A prologue with flashtestations enabled through this manager.
    pub fn with_manager(manager: FlashtestationsManager) -> (r: Self)
        ensures
            r.enabled(),
            r.spec_manager() == Some(manager),
            r.spec_attestation() is None,
    {
        FlashtestationsPrologue { manager: Some(manager), attestation: None }
    }

    /// The manager, when flashtestations are enabled.
    pub fn manager(&self) -> (r: Option<&FlashtestationsManager>)
        ensures
            match self.spec_manager() {
                Some(m) => r == Some(&m),
                None => r is None,
            },
    {
        match &self.manager {
            Some(m) => Some(m),
            None => None,
        }
    }

    /// Whether setup asks for an attestation: flashtestations are enabled
    /// and none was obtained yet.
    pub fn needs_attestation(&self) -> (r: bool)
        ensures
            r == (self.enabled() && self.spec_attestation() is None),
    {
        self.manager.is_some() && self.attestation.is_none()
    }

    /// Setup with the attestation that was fetched (`None` if fetching
    /// failed): it is kept when flashtestations are enabled and none was kept
    /// before.
    pub fn setup(&mut self, fetched: Option<Vec<u8>>)
        ensures
            final(self).spec_manager() == old(self).spec_manager(),
            final(self).spec_attestation() == (if old(self).enabled() && old(self).spec_attestation() is None {
                match fetched {
                    Some(a) => Some(a@),
                    None => None,
                }
            } else {
                old(self).spec_attestation()
            }),
    {
        if self.manager.is_none() || self.attestation.is_some() {
            return;
        }
        if let Some(a) = fetched {
            self.attestation = Some(a);
        }
    }

    /// The attestation for the builder.
    pub fn get_attestation(&self) -> (r: Result<Vec<u8>, FlashtestationsError>)
        ensures
            match self.spec_attestation() {
                Some(a) => r matches Ok(v) && v@ == a,
                None => r == Err::<Vec<u8>, FlashtestationsError>(FlashtestationsError::NoAttestation),
            },
    {
        match &self.attestation {
            Some(a) => {
                let v = a.clone();
                assert(v@ =~= a@);
                Ok(v)
            },
            None => Err(FlashtestationsError::NoAttestation),
        }
    }

    /// What the prologue does with a payload: with flashtestations enabled and
    /// an attestation at hand, the flashtestations transactions are added;
    /// otherwise the payload goes on unchanged.
    pub fn step(&self) -> (r: PrologueAction)
        ensures
            match (self.spec_manager(), self.spec_attestation()) {
                (Some(_), Some(a)) => r matches PrologueAction::AddTransactions(v) && v@ == a,
                _ => r is PassThrough,
            },
    {
        if self.manager.is_none() {
            return PrologueAction::PassThrough;
        }
        match self.get_attestation() {
            Ok(attestation) => PrologueAction::AddTransactions(attestation),
            Err(_) => PrologueAction::PassThrough,
        }
    }
}

/// The payload after the executor ran: its payload when it succeeded, and the
/// payload it started from when it failed.
pub fn payload_after_executor<P>(payload: P, outcome: Result<P, FlashtestationsError>) -> (r: P)
    ensures
        r == match outcome {
            Ok(p) => p,
            Err(_) => payload,
        },
{
    match outcome {
        Ok(p) => p,
        Err(_) => payload,
    }
}

} // verus!
