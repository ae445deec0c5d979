//! The builder's secp256k1 signing key.

use vstd::prelude::*;
use crate::crypto::{
    eip191_sign, private_key_signer_address, private_key_signer_from_bytes,
    private_key_signer_random, private_key_signer_sign_message, k256_secret_key_from_slice,
    sha256, sha256_digest, signer_address, valid_secret_key,
};
use crate::hex::{self, HexError, hex_decodable, spec_hex_decode, spec_hex_encode, spec_hex_digits, lemma_hex_round_trip};
use crate::text::{trim, trim_chars, trim_start_chars, trim_end_chars, is_unicode_whitespace};
use vstd::string::StringSliceAdditionalSpecFns;

verus! {

/// Why a signing key could not be had.
#[derive(Debug, Clone, Copy, PartialEq, Eq, Structural)]
pub enum SignerError {
    /// The key text is not hex.
    KeyHex(HexError),
    /// The key is not 32 bytes long.
    KeyLength,
    /// The 32 bytes are not a secp256k1 secret key.
    InvalidKey,
    /// The signer could not sign the message.
    SigningFailed,
}

/// This type is used to store the builder's secret key for signing the last
/// transaction in the block.
#[derive(Debug, Clone, Copy)]
pub struct BuilderSigner {
    secret: [u8; 32],
}

impl BuilderSigner {
    #[verifier::type_invariant]
    closed spec fn holds_secret_key(self) -> bool {
        valid_secret_key(self.secret@)
    }

    /// The secret scalar of the key, big-endian.
    pub closed spec fn secret(self) -> Seq<u8> {
        self.secret@
    }

    /// A signer with a fresh random key.
    pub fn random() -> (r: Self)
        ensures
            valid_secret_key(r.secret()),
    {
        BuilderSigner { secret: private_key_signer_random() }
    }

    /// A signer with this secret key; fails exactly when the bytes are not a
    /// secp256k1 secret key.
    pub fn try_from_bytes(bytes: &[u8; 32]) -> (r: Result<Self, SignerError>)
        ensures
            match r {
                Ok(s) => valid_secret_key(bytes@) && s.secret() == bytes@,
                Err(e) => !valid_secret_key(bytes@) && e == SignerError::InvalidKey,
            },
    {
        match private_key_signer_from_bytes(bytes) {
            Ok(()) => Ok(BuilderSigner { secret: *bytes }),
            Err(_) => Err(SignerError::InvalidKey),
        }
    }

    /// A signer from the text of a key file: the text, without surrounding
    /// whitespace, is the hex of the 32 key bytes.
    pub fn try_from_key_hex(key_hex: &str) -> (r: Result<Self, SignerError>)
        ensures
            ({
                let text = trim_chars(key_hex@);
                let bytes = vstd::utf8::encode_utf8(text);
                match r {
                    Ok(s) => hex_decodable(bytes) && spec_hex_decode(bytes).len() == 32
                        && valid_secret_key(spec_hex_decode(bytes)) && s.secret() == spec_hex_decode(bytes),
                    Err(SignerError::KeyHex(_)) => !hex_decodable(bytes),
                    Err(SignerError::KeyLength) => hex_decodable(bytes) && spec_hex_decode(bytes).len() != 32,
                    Err(SignerError::InvalidKey) => hex_decodable(bytes) && spec_hex_decode(bytes).len() == 32
                        && !valid_secret_key(spec_hex_decode(bytes)),
                    Err(SignerError::SigningFailed) => false,
                }
            }),
    {
        let trimmed = trim(key_hex);
        let decoded = match hex::decode(trimmed.as_bytes()) {
            Ok(d) => d,
            Err(e) => return Err(SignerError::KeyHex(e)),
        };
        if decoded.len() != 32 {
            return Err(SignerError::KeyLength);
        }
        let mut secret = [0u8; 32];
        let mut i: usize = 0;
        while i < 32
            invariant
                decoded@.len() == 32,
                i <= 32,
                forall|j: int| 0 <= j < i ==> #[trigger] secret@[j] == decoded@[j],
            decreases 32 - i,
        {
            secret[i] = decoded[i];
            i += 1;
        }
        assert(secret@ =~= decoded@);
        Self::try_from_bytes(&secret)
    }

    /// Generate a key deterministically from a seed, for debug and testing:
    /// the key is the SHA-256 of the seed. Do not use in production.
    pub fn from_seed(seed: &str) -> (r: Self)
        requires
            valid_secret_key(sha256(seed.spec_bytes())),
        ensures
            r.secret() == sha256(seed.spec_bytes()),
    {
        let hash = sha256_digest(seed.as_bytes());
        let accepted = k256_secret_key_from_slice(&hash);
        assert(accepted is Ok);
        BuilderSigner { secret: hash }
    }

    /// The key of a seed, when the hash of the seed is a secret key (and
    /// `None` in the rare case that it is not).
    pub fn try_from_seed(seed: &str) -> (r: Option<Self>)
        ensures
            match r {
                Some(s) => valid_secret_key(sha256(seed.spec_bytes())) && s.secret() == sha256(seed.spec_bytes()),
                None => !valid_secret_key(sha256(seed.spec_bytes())),
            },
    {
        let hash = sha256_digest(seed.as_bytes());
        match k256_secret_key_from_slice(&hash) {
            Ok(()) => Some(Self::from_seed(seed)),
            Err(_) => None,
        }
    }

    /// The secret key bytes, which are always a secp256k1 secret key: handed
    /// back to `try_from_bytes` they give the same signer.
    pub fn to_bytes(&self) -> (r: [u8; 32])
        ensures
            r@ == self.secret(),
            valid_secret_key(r@),
    {
        proof {
            use_type_invariant(self);
        }
        self.secret
    }

    /// The hex text of the secret key, as it is written to a key file.
    pub fn to_key_hex(&self) -> (r: String)
        ensures
            r@ == spec_hex_encode(self.secret()),
            valid_secret_key(self.secret()),
    {
        proof {
            use_type_invariant(self);
        }
        hex::encode(&self.secret)
    }

    /// The Ethereum address of the key.
    pub fn address(&self) -> (r: [u8; 20])
        ensures
            r@ == signer_address(self.secret()),
    {
        proof {
            use_type_invariant(self);
        }
        private_key_signer_address(&self.secret)
    }

    /// Signs the EIP-191 prefixed message: the signature of the message under
    /// this key, or `SigningFailed` exactly where signing has no outcome.
    pub fn sign_message(&self, message: &[u8; 32]) -> (r: Result<[u8; 65], SignerError>)
        ensures
            r is Ok <==> eip191_sign(self.secret(), message@) is Some,
            match r {
                Ok(sig) => Some(sig@) == eip191_sign(self.secret(), message@),
                Err(e) => e == SignerError::SigningFailed,
            },
    {
        proof {
            use_type_invariant(self);
        }
        match private_key_signer_sign_message(&self.secret, message) {
            Ok(sig) => Ok(sig),
            Err(_) => Err(SignerError::SigningFailed),
        }
    }

    /// Two signers are the same signer when they sign for the same address.
    pub fn same_signer(&self, other: &Self) -> (r: bool)
        ensures
            r == (signer_address(self.secret()) == signer_address(other.secret())),
    {
        let a = self.address();
        let b = other.address();
        let mut i: usize = 0;
        while i < 20
            invariant
                i <= 20,
                a@.len() == 20,
                b@.len() == 20,
                a@ == signer_address(self.secret()),
                b@ == signer_address(other.secret()),
                forall|j: int| 0 <= j < i ==> a@[j] == b@[j],
            decreases 20 - i,
        {
            if a[i] != b[i] {
                assert(a@[i as int] != b@[i as int]);
                return false;
            }
            i += 1;
        }
        assert(a@ =~= b@);
        true
    }
}

/// A key file round trip: the text that `to_key_hex` gives for a key is read
/// back by `try_from_key_hex` as the same key (it has no surrounding
/// whitespace, and decodes to the 32 key bytes).
pub proof fn lemma_key_file_round_trip(secret: Seq<u8>)
    requires
        valid_secret_key(secret),
    ensures
        ({
            let bytes = vstd::utf8::encode_utf8(trim_chars(spec_hex_encode(secret)));
            &&& hex_decodable(bytes)
            &&& spec_hex_decode(bytes) == secret
        }),
{
    let digits = spec_hex_digits(secret);
    let text = spec_hex_encode(secret);
    assert forall|i: int| 0 <= i < text.len() implies !is_unicode_whitespace(#[trigger] text[i]) && '\0' <= text[i] <= '\u{7f}' by {
        let b = secret[i / 2];
        assert(b / 16 < 16 && b % 16 < 16);
        assert(48 <= digits[i] <= 57 || 97 <= digits[i] <= 102);
    }
    assert(trim_start_chars(text) == text);
    assert(trim_end_chars(text) == text);
    assert(vstd::utf8::is_ascii_chars(text));
    vstd::utf8::is_ascii_chars_encode_utf8(text);
    assert(vstd::utf8::encode_utf8(text) =~= digits);
    lemma_hex_round_trip(secret);
}

impl PartialEq for BuilderSigner {
    fn eq(&self, other: &Self) -> (r: bool) {
        self.same_signer(other)
    }
}

impl vstd::std_specs::cmp::PartialEqSpecImpl for BuilderSigner {
    open spec fn obeys_eq_spec() -> bool {
        true
    }

    open spec fn eq_spec(&self, other: &Self) -> bool {
        signer_address(self.secret()) == signer_address(other.secret())
    }
}

impl Eq for BuilderSigner {}

} // verus!
