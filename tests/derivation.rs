use hmac::Mac;
use secret_contract_auth::contract_validation::{
    calc_contract_hash, extract_contract_key, generate_contract_id, generate_encryption_key,
    generate_sender_id, validate_contract_key,
};
use secret_contract_auth::crypto::{AESKey, KeyManager};
use secret_contract_auth::ffi_types::EnclaveError;
use secret_contract_auth::types::{
    BlockInfo, CanonicalAddr, ContractInfo, Env, MessageInfo,
};
use sha2::Digest;

const IKM: [u8; 32] = [7u8; 32];
const CALLBACK_SECRET: [u8; 32] = [9u8; 32];

fn key_manager() -> KeyManager {
    KeyManager::with_secrets(
        AESKey::new_from_slice(&IKM),
        AESKey::new_from_slice(&CALLBACK_SECRET),
    )
}

fn env_for(sender: &[u8], height: u64) -> Env {
    Env {
        block: BlockInfo { height },
        message: MessageInfo { sender: CanonicalAddr(sender.to_vec()), sent_funds: None },
        contract: ContractInfo { address: CanonicalAddr(b"secret1contract".to_vec()) },
        contract_key: None,
    }
}

fn expected_contract_id(ikm: &[u8], sender_id: &[u8], code_hash: &[u8], address: &[u8]) -> [u8; 32] {
    let mut sub_key = [0u8; 32];
    hkdf::Hkdf::<sha2::Sha256>::new(None, ikm).expand(sender_id, &mut sub_key).unwrap();
    let mut mac = hmac::Hmac::<sha2::Sha256>::new_from_slice(&sub_key).unwrap();
    mac.update(sender_id);
    mac.update(code_hash);
    mac.update(address);
    mac.finalize().into_bytes().into()
}

#[test]
fn sender_id_hashes_sender_and_big_endian_height() {
    let id = generate_sender_id(b"alice", 42);
    let mut input = b"alice".to_vec();
    input.extend_from_slice(&[0, 0, 0, 0, 0, 0, 0, 42]);
    let expected: [u8; 32] = sha2::Sha256::digest(&input).into();
    assert_eq!(id, expected);
    let id2 = generate_sender_id(b"alice", 0x0102030405060708);
    let mut input2 = b"alice".to_vec();
    input2.extend_from_slice(&[1, 2, 3, 4, 5, 6, 7, 8]);
    let expected2: [u8; 32] = sha2::Sha256::digest(&input2).into();
    assert_eq!(id2, expected2);
}

#[test]
fn contract_hash_is_sha256_of_code() {
    let expected: [u8; 32] = sha2::Sha256::digest(b"contract_bytes").into();
    assert_eq!(calc_contract_hash(b"contract_bytes"), expected);
    assert_ne!(calc_contract_hash(b""), expected);
}

#[test]
fn contract_id_is_keyed_hash_under_derived_key() {
    let ikm = AESKey::new_from_slice(&IKM);
    let sender_id = generate_sender_id(b"alice", 42);
    let code_hash = calc_contract_hash(b"contract_bytes");
    let id = generate_contract_id(&ikm, &sender_id, &code_hash, b"secret1addr");
    assert_eq!(id, expected_contract_id(&IKM, &sender_id, &code_hash, b"secret1addr"));
}

#[test]
fn derivation_is_deterministic() {
    assert_eq!(generate_sender_id(b"bob", 7), generate_sender_id(b"bob", 7));
    let ikm = AESKey::new_from_slice(&IKM);
    let sid = generate_sender_id(b"bob", 7);
    let hash = calc_contract_hash(b"code");
    assert_eq!(
        generate_contract_id(&ikm, &sid, &hash, b"addr"),
        generate_contract_id(&ikm, &sid, &hash, b"addr")
    );
}

#[test]
fn derivation_is_sensitive_to_every_input() {
    let ikm = AESKey::new_from_slice(&IKM);
    let mut seen = std::collections::HashSet::new();
    for sender in 0u8..12 {
        for height in 0u64..12 {
            let sid = generate_sender_id(&[b'a', sender], height);
            assert!(seen.insert(sid.to_vec()));
        }
    }
    assert!(seen.len() >= 100);
    let sid = generate_sender_id(b"alice", 42);
    let mut tags = std::collections::HashSet::new();
    for code in 0u8..12 {
        for address in 0u8..12 {
            let hash = calc_contract_hash(&[code]);
            let tag = generate_contract_id(&ikm, &sid, &hash, &[b's', address]);
            assert!(tags.insert(tag.to_vec()));
        }
    }
    let other_sid = generate_sender_id(b"alice", 43);
    let hash = calc_contract_hash(&[0]);
    assert!(tags.insert(generate_contract_id(&ikm, &other_sid, &hash, &[b's', 0]).to_vec()));
}

#[test]
fn encryption_key_is_sender_id_then_tag() {
    let env = env_for(b"alice", 42);
    let key = generate_encryption_key(&key_manager(), &env, b"contract_bytes", b"secret1addr").unwrap();
    assert_eq!(key.len(), 64);
    let sid = generate_sender_id(b"alice", 42);
    assert_eq!(&key[..32], &sid[..]);
    let hash = calc_contract_hash(b"contract_bytes");
    assert_eq!(&key[32..], &expected_contract_id(&IKM, &sid, &hash, b"secret1addr")[..]);
}

#[test]
fn encryption_key_needs_key_material() {
    let env = env_for(b"alice", 42);
    let r = generate_encryption_key(&KeyManager::new(), &env, b"code", b"addr");
    assert!(matches!(r, Err(EnclaveError::KeyManagerUnavailable)));
}

#[test]
fn end_to_end_key_generation_and_validation() {
    let km = key_manager();
    let code = b"contract_bytes";
    let address = b"secret1qyqszqgpqyqszqgpqyqszqgpqyqszqgp";
    let key = generate_encryption_key(&km, &env_for(b"alice", 42), code, address).unwrap();
    assert_eq!(key.len(), 64);
    let sid = generate_sender_id(b"alice", 42);
    let mut contract_key = [0u8; 64];
    contract_key[..32].copy_from_slice(&sid);
    contract_key[32..].copy_from_slice(&key[32..]);
    assert!(validate_contract_key(&km, &contract_key, address, code));
    let later = generate_sender_id(b"alice", 43);
    let mut replayed = [0u8; 64];
    replayed[..32].copy_from_slice(&later);
    replayed[32..].copy_from_slice(&key[32..]);
    assert!(!validate_contract_key(&km, &replayed, address, code));
}

#[test]
fn validation_rejects_every_single_byte_flip() {
    let km = key_manager();
    let key = generate_encryption_key(&km, &env_for(b"alice", 42), b"code", b"addr").unwrap();
    assert!(validate_contract_key(&km, &key, b"addr", b"code"));
    for i in 0..64 {
        let mut tampered = key;
        tampered[i] ^= 0x01;
        assert!(!validate_contract_key(&km, &tampered, b"addr", b"code"));
    }
}

#[test]
fn validation_binds_code_and_address() {
    let km = key_manager();
    let key = generate_encryption_key(&km, &env_for(b"alice", 42), b"code", b"addr").unwrap();
    assert!(!validate_contract_key(&km, &key, b"addr", b"other code"));
    assert!(!validate_contract_key(&km, &key, b"other addr", b"code"));
    assert!(!validate_contract_key(&KeyManager::new(), &key, b"addr", b"code"));
    let other_km = KeyManager::with_secrets(
        AESKey::new_from_slice(&[1u8; 32]),
        AESKey::new_from_slice(&CALLBACK_SECRET),
    );
    assert!(!validate_contract_key(&other_km, &key, b"addr", b"code"));
}

#[test]
fn extract_contract_key_decodes_base64() {
    let key: Vec<u8> = (0u8..64).collect();
    let mut env = env_for(b"alice", 1);
    env.contract_key = Some(base64::encode(&key));
    assert_eq!(extract_contract_key(&env).unwrap().to_vec(), key);
}

#[test]
fn extract_contract_key_rejects_missing_malformed_or_wrong_length() {
    let mut env = env_for(b"alice", 1);
    assert!(matches!(extract_contract_key(&env), Err(EnclaveError::FailedContractAuthentication)));
    env.contract_key = Some("not base64!".to_string());
    assert!(matches!(extract_contract_key(&env), Err(EnclaveError::FailedContractAuthentication)));
    env.contract_key = Some(base64::encode([1u8; 63]));
    assert!(matches!(extract_contract_key(&env), Err(EnclaveError::FailedContractAuthentication)));
    env.contract_key = Some(base64::encode([1u8; 65]));
    assert!(matches!(extract_contract_key(&env), Err(EnclaveError::FailedContractAuthentication)));
    env.contract_key = Some(String::new());
    assert!(matches!(extract_contract_key(&env), Err(EnclaveError::FailedContractAuthentication)));
}
