//! Remote attestation of the TEE signer: which quote service is asked, and
//! what the request carries.

use vstd::prelude::*;
use vstd::string::StringExecFns;
use crate::crypto::{keccak256, keccak256_digest, signer_address};
use crate::hex::{self, spec_hex_encode};
use crate::signer::BuilderSigner;

verus! {

/// The quote service asked in debug mode when no provider is given.
pub const DEBUG_QUOTE_SERVICE_URL: &'static str = "http://ns31695324.ip-141-94-163.eu:10080/attest";

/// Why an attestation provider could not be set up.
#[derive(Debug, Clone, Copy, PartialEq, Eq, Structural)]
pub enum AttestationError {
    /// Outside debug mode a quote provider must be given.
    MissingQuoteProvider,
}

/// Remote attestation provider: the URL of the quote service.
#[derive(Debug, Clone)]
pub struct RemoteAttestationProvider {
    service_url: String,
}

/// The report data of a TEE signer: its address (20 bytes), the Keccak-256
/// hash of the empty extended registration data (32 bytes), and twelve zero
/// bytes of padding.
pub open spec fn spec_report_data(secret: Seq<u8>) -> Seq<u8> {
    signer_address(secret) + keccak256(Seq::empty()) + Seq::new(12, |i: int| 0u8)
}

impl RemoteAttestationProvider {
    /// The URL of the quote service.
    pub closed spec fn spec_service_url(self) -> Seq<char> {
        self.service_url@
    }

    /// The quote service: the given provider, else in debug mode the debug
    /// service; outside debug mode a provider is required.
    pub fn try_new(debug: bool, quote_provider: Option<String>) -> (r: Result<Self, AttestationError>)
        ensures
            match quote_provider {
                Some(url) => r matches Ok(p) && p.spec_service_url() == url@,
                None => if debug {
                    r matches Ok(p) && p.spec_service_url() == DEBUG_QUOTE_SERVICE_URL@
                } else {
                    r == Err::<Self, AttestationError>(AttestationError::MissingQuoteProvider)
                },
            },
    {
        let service_url = match quote_provider {
            Some(url) => url,
            None => {
                if debug {
                    DEBUG_QUOTE_SERVICE_URL.to_owned()
                } else {
                    return Err(AttestationError::MissingQuoteProvider);
                }
            },
        };
        Ok(Self { service_url })
    }

    /// The URL of the quote service.
    pub fn service_url(&self) -> (r: &str)
        ensures
            r@ == self.spec_service_url(),
    {
        self.service_url.as_str()
    }

    /// The URL that asks the service for a quote over this report data: the
    /// service URL, a slash, and the hex of the report data.
    pub fn query_url(&self, report_data: &[u8; 64]) -> (r: String)
        ensures
            r@ == self.spec_service_url() + seq!['/'] + spec_hex_encode(report_data@),
    {
        let report_data_hex = hex::encode(report_data);
        let mut url = self.service_url.clone();
        url.append("/");
        url.append(report_data_hex.as_str());
        proof {
            reveal_strlit("/");
        }
        url
    }
}

/// Prepares the report data of a TEE signer:
/// - TEE address (20 bytes) at reportData[0:20]
/// - Extended registration data hash (32 bytes) at reportData[20:52]
/// - Total: 52 bytes, padded to 64 bytes with zeros
pub fn prepare_report_data(signer: &BuilderSigner) -> (r: [u8; 64])
    ensures
        r@ == spec_report_data(signer.secret()),
{
    let tee_address_bytes = signer.address();
    let empty_registration_data: [u8; 0] = [];
    let empty_registration_data_hash = keccak256_digest(&empty_registration_data);
    assert(empty_registration_data@ =~= Seq::<u8>::empty());

    let mut report_data = [0u8; 64];
    let mut i: usize = 0;
    while i < 20
        invariant
            i <= 20,
            tee_address_bytes@.len() == 20,
            forall|j: int| 0 <= j < i ==> #[trigger] report_data@[j] == tee_address_bytes@[j],
            forall|j: int| 20 <= j < 64 ==> #[trigger] report_data@[j] == 0u8,
        decreases 20 - i,
    {
        report_data[i] = tee_address_bytes[i];
        i += 1;
    }
    let mut k: usize = 0;
    while k < 32
        invariant
            k <= 32,
            tee_address_bytes@.len() == 20,
            empty_registration_data_hash@.len() == 32,
            forall|j: int| 0 <= j < 20 ==> #[trigger] report_data@[j] == tee_address_bytes@[j],
            forall|j: int| 20 <= j < 20 + k ==> #[trigger] report_data@[j] == empty_registration_data_hash@[j - 20],
            forall|j: int| 52 <= j < 64 ==> #[trigger] report_data@[j] == 0u8,
        decreases 32 - k,
    {
        report_data[20 + k] = empty_registration_data_hash[k];
        k += 1;
    }
    assert(report_data@ =~= tee_address_bytes@ + empty_registration_data_hash@ + Seq::new(12, |i: int| 0u8));
    report_data
}

} // verus!
