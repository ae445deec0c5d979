//! The hash functions and the secp256k1 signer that the builder uses, from
//! alloy, k256 and sha2.
//!
//! Hashes and signatures are named by what they are computed from; the one
//! fact stated of the secp256k1 key is which 32-byte strings are secret keys.

use vstd::prelude::*;
use alloy_primitives::B256;
use alloy_signer::SignerSync;
use alloy_signer_local::PrivateKeySigner;
use sha2::Digest;

verus! {

/// Keccak-256 of a byte string.
pub uninterp spec fn keccak256(data: Seq<u8>) -> Seq<u8>;

/// SHA-256 of a byte string.
pub uninterp spec fn sha256(data: Seq<u8>) -> Seq<u8>;

/// The Ethereum address of the secp256k1 key with this secret scalar.
pub uninterp spec fn signer_address(secret: Seq<u8>) -> Seq<u8>;

/// The outcome of signing the EIP-191 prefixed message under the secp256k1
/// key with this secret scalar: the recoverable signature (`r`, `s`, `v`),
/// or `None` where signing fails. The nonce is derived from the key and the
/// message (RFC 6979), so the outcome depends on nothing else.
pub uninterp spec fn eip191_sign(secret: Seq<u8>, message: Seq<u8>) -> Option<Seq<u8>>;

/// The big-endian value of a byte string.
pub open spec fn be_value(bytes: Seq<u8>) -> nat
    decreases bytes.len(),
{
    if bytes.len() == 0 {
        0
    } else {
        be_value(bytes.drop_last()) * 256 + bytes.last() as nat
    }
}

/// The order of the secp256k1 group.
pub open spec fn secp256k1_order() -> nat {
    0xFFFFFFFFFFFFFFFFFFFFFFFFFFFFFFFEBAAEDCE6AF48A03BBFD25E8CD0364141nat
}

/// A secp256k1 secret key: 32 big-endian bytes of a scalar that is neither
/// zero nor at least the group order.
pub open spec fn valid_secret_key(bytes: Seq<u8>) -> bool {
    &&& bytes.len() == 32
    &&& 0 < be_value(bytes) < secp256k1_order()
}

#[verifier::external_type_specification]
#[verifier::external_body]
pub struct ExEcdsaError(k256::ecdsa::Error);

#[verifier::external_type_specification]
#[verifier::external_body]
pub struct ExEllipticCurveError(k256::elliptic_curve::Error);

#[verifier::external_type_specification]
#[verifier::external_body]
pub struct ExSignerError(alloy_signer::Error);

/// `alloy_primitives::keccak256`: the Keccak-256 digest of the bytes.
#[verifier::external_body]
pub fn keccak256_digest(data: &[u8]) -> (r: [u8; 32])
    ensures
        r@ == keccak256(data@),
{
    alloy_primitives::keccak256(data).0
}

/// `sha2::Sha256::digest`: the SHA-256 digest of the bytes.
#[verifier::external_body]
pub fn sha256_digest(data: &[u8]) -> (r: [u8; 32])
    ensures
        r@ == sha256(data@),
{
    sha2::Sha256::digest(data).into()
}

/// `PrivateKeySigner::from_bytes`: accepts the 32 bytes exactly when they are
/// a secp256k1 secret scalar (k256 refuses zero and values not below the
/// group order).
#[verifier::external_body]
pub fn private_key_signer_from_bytes(secret: &[u8; 32]) -> (r: Result<(), k256::ecdsa::Error>)
    ensures
        r is Ok <==> valid_secret_key(secret@),
{
    PrivateKeySigner::from_bytes(&B256::from(*secret)).map(|_| ())
}

/// `k256::SecretKey::from_slice`: a slice of 32 bytes is accepted exactly when
/// it is a secp256k1 secret scalar.
#[verifier::external_body]
pub fn k256_secret_key_from_slice(slice: &[u8]) -> (r: Result<(), k256::elliptic_curve::Error>)
    ensures
        slice@.len() == 32 ==> (r is Ok <==> valid_secret_key(slice@)),
{
    k256::SecretKey::from_slice(slice).map(|_| ())
}

/// `PrivateKeySigner::random`, read back with `to_bytes`: a fresh secret key
/// from the thread's random number generator. Which key comes out is left
/// open.
#[verifier::external_body]
pub fn private_key_signer_random() -> (r: [u8; 32])
    ensures
        valid_secret_key(r@),
{
    PrivateKeySigner::random().to_bytes().0
}

/// `PrivateKeySigner::address` of the signer with this secret key.
#[verifier::external_body]
pub fn private_key_signer_address(secret: &[u8; 32]) -> (r: [u8; 20])
    requires
        valid_secret_key(secret@),
    ensures
        r@ == signer_address(secret@),
{
    PrivateKeySigner::from_bytes(&B256::from(*secret)).expect("a valid secret key").address().0.0
}

/// `SignerSync::sign_message_sync` of the signer with this secret key, as the
/// 65 bytes of `Signature::as_bytes`. Signing is deterministic, so whether it
/// succeeds and the signature it gives are the outcome named for the key and
/// the message.
#[verifier::external_body]
pub fn private_key_signer_sign_message(secret: &[u8; 32], message: &[u8]) -> (r: Result<[u8; 65], alloy_signer::Error>)
    requires
        valid_secret_key(secret@),
    ensures
        r is Ok <==> eip191_sign(secret@, message@) is Some,
        r matches Ok(sig) ==> Some(sig@) == eip191_sign(secret@, message@),
{
    PrivateKeySigner::from_bytes(&B256::from(*secret))
        .expect("a valid secret key")
        .sign_message_sync(message)
        .map(|sig| sig.as_bytes())
}

} // verus!
