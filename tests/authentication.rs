use bech32::ToBase32;
use secret_contract_auth::contract_validation::{
    create_callback_signature, validate_msg, verify_funds, verify_params,
};
use secret_contract_auth::crypto::{AESKey, KeyManager};
use secret_contract_auth::ffi_types::EnclaveError;
use secret_contract_auth::types::{
    coins_equal, BlockInfo, CanonicalAddr, Coin, ContractInfo, CosmosSignature, Env, HumanAddr,
    MessageInfo, SecretMessage, SigInfo, SignDoc, SignDocWasmMsg,
};
use sha2::Digest;

fn key_manager() -> KeyManager {
    KeyManager::with_secrets(
        AESKey::new_from_slice(&[7u8; 32]),
        AESKey::new_from_slice(&[9u8; 32]),
    )
}

fn secret_message() -> SecretMessage {
    SecretMessage { nonce: [1u8; 32], user_public_key: [2u8; 32], msg: b"ciphertext".to_vec() }
}

fn coin(denom: &str, amount: u128) -> Coin {
    Coin { denom: denom.to_string(), amount }
}

struct Signer {
    pub_key: Vec<u8>,
    secret: secp256k1::SecretKey,
}

fn signer() -> Signer {
    let secp = secp256k1::Secp256k1::new();
    let secret = secp256k1::SecretKey::from_slice(&[0x42u8; 32]).unwrap();
    let pub_key = secp256k1::PublicKey::from_secret_key(&secp, &secret).serialize().to_vec();
    Signer { pub_key, secret }
}

fn address_of(pub_key: &[u8]) -> Vec<u8> {
    let digest = sha2::Sha256::digest(pub_key);
    <ripemd::Ripemd160 as ripemd::Digest>::digest(digest).to_vec()
}

fn sign(s: &Signer, bytes: &[u8]) -> Vec<u8> {
    let secp = secp256k1::Secp256k1::new();
    let digest = sha2::Sha256::digest(bytes);
    let msg = secp256k1::Message::from_slice(&digest).unwrap();
    secp.sign_ecdsa(&msg, &s.secret).serialize_compact().to_vec()
}

fn contract_address() -> Vec<u8> {
    vec![5u8; 20]
}

fn human_contract_address() -> String {
    bech32::encode("secret", contract_address().to_base32(), bech32::Variant::Bech32).unwrap()
}

fn env_with(sender: Vec<u8>, sent_funds: Option<Vec<Coin>>) -> Env {
    Env {
        block: BlockInfo { height: 10 },
        message: MessageInfo { sender: CanonicalAddr(sender), sent_funds },
        contract: ContractInfo { address: CanonicalAddr(contract_address()) },
        contract_key: None,
    }
}

fn execute(contract: String, payload: &[u8], funds: Vec<Coin>) -> SignDocWasmMsg {
    SignDocWasmMsg::Execute {
        contract: HumanAddr(contract),
        msg: base64::encode(payload),
        sent_funds: funds,
    }
}

fn signed_sig_info(s: &Signer) -> SigInfo {
    let sign_bytes = b"{\"msgs\":[]}".to_vec();
    let signature = sign(s, &sign_bytes);
    SigInfo {
        callback_sig: None,
        sign_bytes,
        signature: CosmosSignature { pub_key: s.pub_key.clone(), signature },
    }
}

fn unsigned_sig_info(callback_sig: Option<Vec<u8>>) -> SigInfo {
    SigInfo {
        callback_sig,
        sign_bytes: b"garbage".to_vec(),
        signature: CosmosSignature { pub_key: vec![], signature: vec![] },
    }
}

#[test]
fn validate_msg_strips_matching_hash_prefix() {
    let code = b"contract_bytes";
    let hash = sha2::Sha256::digest(code);
    let mut msg = hex::encode(hash).into_bytes();
    msg.extend_from_slice(b"payload");
    assert_eq!(validate_msg(&msg, code).unwrap(), b"payload".to_vec());
    let mut upper = hex::encode_upper(hash).into_bytes();
    upper.extend_from_slice(b"x");
    assert_eq!(validate_msg(&upper, code).unwrap(), b"x".to_vec());
    let bare = hex::encode(hash).into_bytes();
    assert_eq!(validate_msg(&bare, code).unwrap(), Vec::<u8>::new());
}

#[test]
fn validate_msg_rejects_short_non_hex_or_wrong_hash() {
    let code = b"contract_bytes";
    let hash = sha2::Sha256::digest(code);
    let prefix = hex::encode(hash);
    assert!(matches!(validate_msg(&prefix.as_bytes()[..63], code), Err(EnclaveError::ValidationFailure)));
    assert!(matches!(validate_msg(b"", code), Err(EnclaveError::ValidationFailure)));
    let mut not_hex = prefix.clone().into_bytes();
    not_hex[10] = b'g';
    assert!(matches!(validate_msg(&not_hex, code), Err(EnclaveError::ValidationFailure)));
    let mut other = hex::encode(sha2::Sha256::digest(b"other code")).into_bytes();
    other.extend_from_slice(b"payload");
    assert!(matches!(validate_msg(&other, code), Err(EnclaveError::ValidationFailure)));
}

#[test]
fn callback_tag_is_hash_of_secret_sender_and_message() {
    let km = key_manager();
    let sender = CanonicalAddr(b"caller".to_vec());
    let msg = secret_message();
    let tag = create_callback_signature(&km, &sender, &msg).unwrap();
    let mut input = vec![9u8; 32];
    input.extend_from_slice(b"caller");
    input.extend_from_slice(b"ciphertext");
    assert_eq!(tag, sha2::Sha256::digest(&input).to_vec());
    assert!(matches!(
        create_callback_signature(&KeyManager::new(), &sender, &msg),
        Err(EnclaveError::KeyManagerUnavailable)
    ));
}

#[test]
fn correct_callback_tag_is_accepted_regardless_of_signed_fields() {
    let km = key_manager();
    let env = env_with(b"caller".to_vec(), None);
    let msg = secret_message();
    let tag = create_callback_signature(&km, &env.message.sender, &msg).unwrap();
    let sig_info = unsigned_sig_info(Some(tag.clone()));
    assert!(verify_params(&km, &sig_info, &env, &msg, &None).is_ok());
    let doc = Some(SignDoc { msgs: vec![] });
    let mut other = signed_sig_info(&signer());
    other.callback_sig = Some(tag);
    assert!(verify_params(&km, &other, &env, &msg, &doc).is_ok());
}

#[test]
fn wrong_or_empty_callback_tag_is_rejected_without_fallback() {
    let km = key_manager();
    let env = env_with(b"caller".to_vec(), None);
    let msg = secret_message();
    let mut tag = create_callback_signature(&km, &env.message.sender, &msg).unwrap();
    tag[0] ^= 1;
    let r = verify_params(&km, &unsigned_sig_info(Some(tag)), &env, &msg, &None);
    assert!(matches!(r, Err(EnclaveError::FailedTxVerification)));
    let r = verify_params(&km, &unsigned_sig_info(Some(vec![])), &env, &msg, &None);
    assert!(matches!(r, Err(EnclaveError::FailedTxVerification)));
    let r = verify_params(&KeyManager::new(), &unsigned_sig_info(Some(vec![1])), &env, &msg, &None);
    assert!(matches!(r, Err(EnclaveError::KeyManagerUnavailable)));
}

#[test]
fn signed_transaction_with_matching_parameters_is_accepted() {
    let s = signer();
    let msg = secret_message();
    let funds = vec![coin("uscrt", 100)];
    let env = env_with(address_of(&s.pub_key), Some(funds.clone()));
    let doc = SignDoc {
        msgs: vec![
            execute(human_contract_address(), b"something else", vec![]),
            execute(human_contract_address(), &msg.to_vec(), funds),
        ],
    };
    let r = verify_params(&key_manager(), &signed_sig_info(&s), &env, &msg, &Some(doc));
    assert!(r.is_ok());
}

#[test]
fn instantiate_is_not_bound_to_an_address() {
    let s = signer();
    let msg = secret_message();
    let mut env = env_with(address_of(&s.pub_key), None);
    env.contract.address = CanonicalAddr(vec![]);
    let doc = SignDoc {
        msgs: vec![SignDocWasmMsg::Instantiate { init_msg: base64::encode(msg.to_vec()), init_funds: vec![] }],
    };
    assert!(verify_params(&key_manager(), &signed_sig_info(&s), &env, &msg, &Some(doc)).is_ok());
}

#[test]
fn signed_path_errors() {
    let s = signer();
    let msg = secret_message();
    let km = key_manager();
    let env = env_with(address_of(&s.pub_key), None);
    let good = || SignDoc { msgs: vec![execute(human_contract_address(), &msg.to_vec(), vec![])] };
    assert!(verify_params(&km, &signed_sig_info(&s), &env, &msg, &Some(good())).is_ok());
    // unparsable sign bytes
    let r = verify_params(&km, &signed_sig_info(&s), &env, &msg, &None);
    assert!(matches!(r, Err(EnclaveError::FailedToDeserialize)));
    // signature over other bytes
    let mut forged = signed_sig_info(&s);
    forged.sign_bytes = b"{\"msgs\":[1]}".to_vec();
    let r = verify_params(&km, &forged, &env, &msg, &Some(good()));
    assert!(matches!(r, Err(EnclaveError::FailedTxVerification)));
    // sender is not the signer
    let other_env = env_with(vec![3u8; 20], None);
    let r = verify_params(&km, &signed_sig_info(&s), &other_env, &msg, &Some(good()));
    assert!(matches!(r, Err(EnclaveError::FailedTxVerification)));
    // no signed message carries these bytes
    let other = SignDoc { msgs: vec![execute(human_contract_address(), b"other", vec![])] };
    let r = verify_params(&km, &signed_sig_info(&s), &env, &msg, &Some(other));
    assert!(matches!(r, Err(EnclaveError::FailedTxVerification)));
    // signed for another contract
    let elsewhere = SignDoc { msgs: vec![execute("secret1other".to_string(), &msg.to_vec(), vec![])] };
    let r = verify_params(&km, &signed_sig_info(&s), &env, &msg, &Some(elsewhere));
    assert!(matches!(r, Err(EnclaveError::FailedTxVerification)));
}

#[test]
fn absent_funds_match_only_empty_signed_funds() {
    let none_env = env_with(vec![1], None);
    let empty = execute(human_contract_address(), b"m", vec![]);
    let paid = execute(human_contract_address(), b"m", vec![coin("uscrt", 1)]);
    assert!(verify_funds(&empty, &none_env));
    assert!(!verify_funds(&paid, &none_env));
    let empty_env = env_with(vec![1], Some(vec![]));
    assert!(verify_funds(&empty, &empty_env));
    assert!(!verify_funds(&paid, &empty_env));
    let paid_env = env_with(vec![1], Some(vec![coin("uscrt", 1)]));
    assert!(verify_funds(&paid, &paid_env));
    assert!(!verify_funds(&empty, &paid_env));
    let more_env = env_with(vec![1], Some(vec![coin("uscrt", 2)]));
    assert!(!verify_funds(&paid, &more_env));
}

#[test]
fn coins_compare_by_denom_amount_and_order() {
    let a = vec![coin("a", 1), coin("b", 2)];
    assert!(coins_equal(&a, &vec![coin("a", 1), coin("b", 2)]));
    assert!(!coins_equal(&a, &vec![coin("b", 2), coin("a", 1)]));
    assert!(!coins_equal(&a, &vec![coin("a", 1)]));
    assert!(!coins_equal(&a, &vec![coin("a", 1), coin("c", 2)]));
}

#[test]
fn human_address_is_bech32_with_account_prefix() {
    let h = HumanAddr::from_canonical(&CanonicalAddr(contract_address())).unwrap();
    assert_eq!(h.0, human_contract_address());
    assert!(h.0.starts_with("secret1"));
}

#[test]
fn cosmos_signature_address_and_verification() {
    let s = signer();
    let sig = CosmosSignature { pub_key: s.pub_key.clone(), signature: sign(&s, b"bytes") };
    assert_eq!(sig.get_address().0, address_of(&s.pub_key));
    assert!(sig.verify_bytes(b"bytes"));
    assert!(!sig.verify_bytes(b"other bytes"));
    let broken = CosmosSignature { pub_key: vec![1, 2, 3], signature: sign(&s, b"bytes") };
    assert!(!broken.verify_bytes(b"bytes"));
}
