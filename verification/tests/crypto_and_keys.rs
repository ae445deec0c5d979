use alloy_primitives::{keccak256, Address, Signature};
use flashblocks::attestation::{prepare_report_data, AttestationError, RemoteAttestationProvider, DEBUG_QUOTE_SERVICE_URL};
use flashblocks::hex::{decode, encode, HexError};
use flashblocks::signer::{BuilderSigner, SignerError};
use sha2::Digest;

fn key_one() -> [u8; 32] {
    let mut k = [0u8; 32];
    k[31] = 1;
    k
}

#[test]
fn hex_encodes_lower_case_pairs() {
    assert_eq!(encode(&[0xde, 0xad, 0xBE, 0x0f, 0x00]), "deadbe0f00");
    assert_eq!(encode(&[]), "");
}

#[test]
fn hex_decodes_either_case_with_optional_prefix() {
    assert_eq!(decode(b"deadBEEF").unwrap(), vec![0xde, 0xad, 0xbe, 0xef]);
    assert_eq!(decode(b"0xdeadbeef").unwrap(), vec![0xde, 0xad, 0xbe, 0xef]);
    assert_eq!(decode(b"0X0a").unwrap(), vec![0x0a]);
    assert_eq!(decode(b"").unwrap(), Vec::<u8>::new());
    assert_eq!(decode(b"0x").unwrap(), Vec::<u8>::new());
}

#[test]
fn hex_decode_errors() {
    assert_eq!(decode(b"abc"), Err(HexError::OddLength));
    assert_eq!(decode(b"0xabc"), Err(HexError::OddLength));
    assert_eq!(decode(b"zz"), Err(HexError::InvalidHexCharacter { index: 0 }));
    assert_eq!(decode(b"0xa9g0"), Err(HexError::InvalidHexCharacter { index: 2 }));
    assert_eq!(decode(b"0g"), Err(HexError::InvalidHexCharacter { index: 1 }));
}

#[test]
fn hex_agrees_with_alloy() {
    let data: Vec<u8> = (0u8..=255).collect();
    assert_eq!(encode(&data), alloy_primitives::hex::encode(&data));
    let text = alloy_primitives::hex::encode_prefixed(&data);
    assert_eq!(decode(text.as_bytes()).unwrap(), alloy_primitives::hex::decode(&text).unwrap());
}

#[test]
fn signer_of_key_one_has_known_address() {
    let signer = BuilderSigner::try_from_bytes(&key_one()).unwrap();
    let expected: Address = "0x7E5F4552091A69125d5DfCb7b8C2659029395Bdf".parse().unwrap();
    assert_eq!(signer.address(), expected.0 .0);
    assert_eq!(signer.to_bytes(), key_one());
}

#[test]
fn invalid_secret_keys_are_refused() {
    assert_eq!(BuilderSigner::try_from_bytes(&[0u8; 32]).err(), Some(SignerError::InvalidKey));
    assert_eq!(BuilderSigner::try_from_bytes(&[0xffu8; 32]).err(), Some(SignerError::InvalidKey));
    let order = alloy_primitives::hex::decode("FFFFFFFFFFFFFFFFFFFFFFFFFFFFFFFEBAAEDCE6AF48A03BBFD25E8CD0364141").unwrap();
    let mut bytes = [0u8; 32];
    bytes.copy_from_slice(&order);
    assert_eq!(BuilderSigner::try_from_bytes(&bytes).err(), Some(SignerError::InvalidKey));
    bytes[31] -= 1;
    assert!(BuilderSigner::try_from_bytes(&bytes).is_ok());
}

#[test]
fn key_file_text_round_trips() {
    let signer = BuilderSigner::from_seed("round-trip");
    let text = signer.to_key_hex();
    assert_eq!(text.len(), 64);
    let loaded = BuilderSigner::try_from_key_hex(&format!("  {text}\n")).unwrap();
    assert_eq!(loaded.to_bytes(), signer.to_bytes());
    assert_eq!(loaded, signer);
    let prefixed = BuilderSigner::try_from_key_hex(&format!("0x{text}")).unwrap();
    assert_eq!(prefixed.to_bytes(), signer.to_bytes());
}

#[test]
fn key_file_errors() {
    assert_eq!(BuilderSigner::try_from_key_hex("xyz1").err(), Some(SignerError::KeyHex(HexError::InvalidHexCharacter { index: 0 })));
    assert_eq!(BuilderSigner::try_from_key_hex("abc").err(), Some(SignerError::KeyHex(HexError::OddLength)));
    assert_eq!(BuilderSigner::try_from_key_hex("abcd").err(), Some(SignerError::KeyLength));
    assert_eq!(BuilderSigner::try_from_key_hex(&"00".repeat(32)).err(), Some(SignerError::InvalidKey));
}

#[test]
fn seeded_key_is_sha256_of_seed() {
    let signer = BuilderSigner::from_seed("builder-testing");
    let expected: [u8; 32] = sha2::Sha256::digest(b"builder-testing").into();
    assert_eq!(signer.to_bytes(), expected);
    assert_eq!(BuilderSigner::try_from_seed("builder-testing").unwrap().to_bytes(), expected);
    assert_eq!(BuilderSigner::from_seed("builder-testing"), signer);
    assert_ne!(BuilderSigner::from_seed("other"), signer);
}

#[test]
fn random_signers_differ() {
    let a = BuilderSigner::random();
    let b = BuilderSigner::random();
    assert_ne!(a.to_bytes(), b.to_bytes());
    assert!(BuilderSigner::try_from_bytes(&a.to_bytes()).is_ok());
}

#[test]
fn signature_recovers_to_signer_address() {
    let signer = BuilderSigner::from_seed("signing");
    let message = [0x42u8; 32];
    let sig = signer.sign_message(&message).unwrap();
    let recovered = Signature::from_raw_array(&sig).unwrap().recover_address_from_msg(message).unwrap();
    assert_eq!(recovered.0 .0, signer.address());
    // signing is deterministic
    assert_eq!(signer.sign_message(&message).unwrap(), sig);
    // and depends on the message and the key
    assert_ne!(signer.sign_message(&[0x43u8; 32]).unwrap(), sig);
    assert_ne!(BuilderSigner::from_seed("other").sign_message(&message).unwrap(), sig);
}

#[test]
fn report_data_layout() {
    let signer = BuilderSigner::from_seed("tee");
    let report = prepare_report_data(&signer);
    assert_eq!(&report[0..20], &signer.address());
    assert_eq!(&report[20..52], keccak256([]).as_slice());
    assert_eq!(&report[52..64], &[0u8; 12]);
}

#[test]
fn attestation_provider_url_choice() {
    let p = RemoteAttestationProvider::try_new(true, None).unwrap();
    assert_eq!(p.service_url(), DEBUG_QUOTE_SERVICE_URL);
    let p = RemoteAttestationProvider::try_new(true, Some("http://localhost".into())).unwrap();
    assert_eq!(p.service_url(), "http://localhost");
    let p = RemoteAttestationProvider::try_new(false, Some("http://quotes".into())).unwrap();
    assert_eq!(p.service_url(), "http://quotes");
    assert_eq!(RemoteAttestationProvider::try_new(false, None).err(), Some(AttestationError::MissingQuoteProvider));
}

#[test]
fn attestation_query_url_carries_report_hex() {
    let p = RemoteAttestationProvider::try_new(false, Some("http://quotes/attest".into())).unwrap();
    let mut report = [0u8; 64];
    report[0] = 0xab;
    report[63] = 0x01;
    let url = p.query_url(&report);
    assert_eq!(url, format!("http://quotes/attest/ab{}01", "00".repeat(62)));
}
