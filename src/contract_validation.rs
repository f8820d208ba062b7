use crate::crypto::{
    hkdf_sha256_of, hmac_sha256_of, sha256_of, sha_256, AESKey, KeyManager, HASH_SIZE,
};
use crate::ffi_types::EnclaveError;
use crate::encoding::{base64_decode, base64_decoding_of, hex_decode, hex_decoding};
use crate::types::{
    coins_equal, coins_view, human_address_of, pubkey_address_of, signs_bytes, CanonicalAddr, Coin,
    CosmosSignature, Env, HumanAddr, SecretMessage, SigInfo, SignDoc, SignDocWasmMsg,
};
use vstd::slice::{slice_subrange, slice_to_vec};
use vstd::prelude::*;

verus! {

/// Length of the hex-encoded code hash that prefixes every inbound message.
pub const HEX_ENCODED_HASH_SIZE: usize = 64;

/// Length in bytes of a contract key: sender id, then authentication tag.
pub const CONTRACT_KEY_LENGTH: usize = 64;

/// A contract key: `sender_id ‖ authentication_tag`.
pub type ContractKey = [u8; CONTRACT_KEY_LENGTH];

/// The eight big-endian bytes of `h`.
pub open spec fn be_bytes(h: u64) -> Seq<u8> {
    Seq::new(8, |i: int| ((h >> ((56 - 8 * i) as u64)) & 0xffu64) as u8)
}

/// `HASH(sender ‖ big-endian(block_height))`.
pub open spec fn sender_id_of(sender: Seq<u8>, block_height: u64) -> Seq<u8> {
    sha256_of(sender + be_bytes(block_height))
}

/// The content hash of contract code.
pub open spec fn contract_hash_of(code: Seq<u8>) -> Seq<u8> {
    sha256_of(code)
}

/// The authentication tag: a keyed hash of `sender_id ‖ code_hash ‖ address`
/// under a sub-key derived from the master key material and the sender id.
pub open spec fn contract_id_of(
    ikm: Seq<u8>,
    sender_id: Seq<u8>,
    code_hash: Seq<u8>,
    contract_address: Seq<u8>,
) -> Seq<u8> {
    hmac_sha256_of(hkdf_sha256_of(ikm, sender_id), sender_id + code_hash + contract_address)
}

/// The encryption key of a contract: its sender id followed by its tag.
pub open spec fn encryption_key_of(
    ikm: Seq<u8>,
    sender: Seq<u8>,
    block_height: u64,
    code: Seq<u8>,
    contract_address: Seq<u8>,
) -> Seq<u8> {
    let sender_id = sender_id_of(sender, block_height);
    sender_id + contract_id_of(ikm, sender_id, contract_hash_of(code), contract_address)
}

/// Whether `key` is the sender id embedded in it followed by the tag recomputed
/// for that sender id, the code and the address.
pub open spec fn contract_key_valid(
    ikm: Seq<u8>,
    key: Seq<u8>,
    contract_address: Seq<u8>,
    code: Seq<u8>,
) -> bool {
    let sender_id = key.subrange(0, HASH_SIZE as int);
    key == sender_id + contract_id_of(ikm, sender_id, contract_hash_of(code), contract_address)
}

/// Appends the eight big-endian bytes of `h` to `out`.
fn push_be_bytes(out: &mut Vec<u8>, h: u64)
    ensures
        final(out)@ == old(out)@ + be_bytes(h),
{
    let ghost start = out@;
    let mut i: u64 = 0;
    while i < 8
        invariant
            0 <= i <= 8,
            out@ == start + be_bytes(h).subrange(0, i as int),
        decreases 8 - i,
    {
        out.push(((h >> (56 - 8 * i)) & 0xff) as u8);
        i = i + 1;
        assert(be_bytes(h).subrange(0, i as int) =~= be_bytes(h).subrange(0, i - 1) + seq![
            be_bytes(h)[i - 1],
        ]);
    }
    assert(be_bytes(h).subrange(0, 8) =~= be_bytes(h));
}

/// Whether two byte strings are equal. Every byte is inspected whatever the
/// contents, so the time taken depends on the lengths alone.
pub fn bytes_equal(a: &[u8], b: &[u8]) -> (r: bool)
    ensures
        r == (a@ == b@),
{
    if a.len() != b.len() {
        return false;
    }
    let mut diff: u8 = 0;
    let mut i: usize = 0;
    while i < a.len()
        invariant
            a.len() == b.len(),
            0 <= i <= a.len(),
            (diff == 0) == (forall|j: int| 0 <= j < i ==> a@[j] == b@[j]),
        decreases a.len() - i,
    {
        let x = a[i];
        let y = b[i];
        let d = diff;
        assert((d | (x ^ y)) == 0u8 <==> (d == 0u8 && x == y)) by (bit_vector);
        diff = diff | (x ^ y);
        i = i + 1;
    }
    assert((diff == 0) ==> a@ =~= b@);
    diff == 0
}

/// The sender id: `HASH(msg_sender ‖ big-endian(block_height))`.
pub fn generate_sender_id(msg_sender: &[u8], block_height: u64) -> (r: [u8; HASH_SIZE])
    ensures
        r@ == sender_id_of(msg_sender@, block_height),
{
    let mut input_data: Vec<u8> = Vec::new();
    input_data.extend_from_slice(msg_sender);
    assert(input_data@ =~= msg_sender@);
    push_be_bytes(&mut input_data, block_height);
    sha_256(input_data.as_slice())
}

/// The authentication tag of a contract for a sender id, a code hash and an
/// address, under the master key material `consensus_state_ikm`.
pub fn generate_contract_id(
    consensus_state_ikm: &AESKey,
    sender_id: &[u8; HASH_SIZE],
    code_hash: &[u8; HASH_SIZE],
    contract_address: &[u8],
) -> (r: [u8; HASH_SIZE])
    ensures
        r@ == contract_id_of(consensus_state_ikm@, sender_id@, code_hash@, contract_address@),
{
    let authentication_key = consensus_state_ikm.derive_key_from_this(sender_id.as_slice());
    let mut input_data: Vec<u8> = Vec::new();
    input_data.extend_from_slice(sender_id.as_slice());
    input_data.extend_from_slice(code_hash.as_slice());
    input_data.extend_from_slice(contract_address);
    assert(input_data@ =~= sender_id@ + code_hash@ + contract_address@);
    authentication_key.sign_sha_256(input_data.as_slice())
}

/// The content hash of contract code.
pub fn calc_contract_hash(contract_bytes: &[u8]) -> (r: [u8; HASH_SIZE])
    ensures
        r@ == contract_hash_of(contract_bytes@),
{
    sha_256(contract_bytes)
}

/// The encryption key of a contract: the sender id of the message sender at
/// the current block height, then the contract's authentication tag. Fails
/// only when the key manager holds no master key material.
pub fn generate_encryption_key(
    key_manager: &KeyManager,
    env: &Env,
    contract: &[u8],
    contract_address: &[u8],
) -> (r: Result<ContractKey, EnclaveError>)
    ensures
        key_manager.state_ikm() is None <==> r is Err,
        r matches Err(e) ==> e is KeyManagerUnavailable,
        r matches Ok(k) ==> k@ == encryption_key_of(
            key_manager.state_ikm()->0,
            env.message.sender.0@,
            env.block.height,
            contract@,
            contract_address@,
        ),
{
    let consensus_state_ikm = match key_manager.get_consensus_state_ikm() {
        Ok(k) => k,
        Err(e) => return Err(e),
    };
    let contract_hash = calc_contract_hash(contract);
    let sender_id = generate_sender_id(env.message.sender.0.as_slice(), env.block.height);
    let authenticated_contract_id = generate_contract_id(
        consensus_state_ikm,
        &sender_id,
        &contract_hash,
        contract_address,
    );
    let mut encryption_key: ContractKey = [0u8; CONTRACT_KEY_LENGTH];
    let mut i: usize = 0;
    while i < HASH_SIZE
        invariant
            0 <= i <= HASH_SIZE,
            forall|j: int| 0 <= j < i ==> encryption_key@[j] == sender_id@[j],
            forall|j: int| 0 <= j < i ==> encryption_key@[j + 32] == authenticated_contract_id@[j],
        decreases HASH_SIZE - i,
    {
        encryption_key[i] = sender_id[i];
        encryption_key[i + HASH_SIZE] = authenticated_contract_id[i];
        i = i + 1;
    }
    assert(encryption_key@ =~= sender_id@ + authenticated_contract_id@);
    Ok(encryption_key)
}

/// What a message bound to the code with hash `code_hash` carries after its
/// prefix, or `None` where the prefix is too short, is not hex, or names
/// another hash.
pub open spec fn msg_binding(msg: Seq<u8>, code_hash: Seq<u8>) -> Option<Seq<u8>> {
    if msg.len() >= HEX_ENCODED_HASH_SIZE && hex_decoding(
        msg.subrange(0, HEX_ENCODED_HASH_SIZE as int),
    ) == Some(code_hash) {
        Some(msg.subrange(HEX_ENCODED_HASH_SIZE as int, msg.len() as int))
    } else {
        None
    }
}

/// The contract key carried by `env`: present, valid base64, and exactly
/// `CONTRACT_KEY_LENGTH` bytes once decoded.
pub fn extract_contract_key(env: &Env) -> (r: Result<ContractKey, EnclaveError>)
    ensures
        r is Ok <==> (env.contract_key matches Some(s) && base64_decoding_of(s@) matches Some(
            d,
        ) && d.len() == CONTRACT_KEY_LENGTH),
        r matches Ok(k) ==> Some(k@) == base64_decoding_of(env.contract_key->0@),
        r matches Err(e) ==> e is FailedContractAuthentication,
{
    let encoded = match &env.contract_key {
        Some(s) => s,
        None => return Err(EnclaveError::FailedContractAuthentication),
    };
    let contract_key = match base64_decode(encoded.as_str()) {
        Ok(v) => v,
        Err(_) => return Err(EnclaveError::FailedContractAuthentication),
    };
    if contract_key.len() != CONTRACT_KEY_LENGTH {
        return Err(EnclaveError::FailedContractAuthentication);
    }
    let mut key_as_bytes: ContractKey = [0u8; CONTRACT_KEY_LENGTH];
    let mut i: usize = 0;
    while i < CONTRACT_KEY_LENGTH
        invariant
            0 <= i <= CONTRACT_KEY_LENGTH,
            contract_key@.len() == CONTRACT_KEY_LENGTH,
            forall|j: int| 0 <= j < i ==> key_as_bytes@[j] == contract_key@[j],
        decreases CONTRACT_KEY_LENGTH - i,
    {
        key_as_bytes[i] = contract_key[i];
        i = i + 1;
    }
    assert(key_as_bytes@ =~= contract_key@);
    Ok(key_as_bytes)
}

/// Whether `contract_key` authenticates the contract at `contract_address` with
/// code `contract_code`: its tag must equal the one recomputed from the sender
/// id it embeds. False when the key manager holds no master key material.
pub fn validate_contract_key(
    key_manager: &KeyManager,
    contract_key: &ContractKey,
    contract_address: &[u8],
    contract_code: &[u8],
) -> (r: bool)
    ensures
        r == (key_manager.state_ikm() matches Some(ikm) && contract_key_valid(
            ikm,
            contract_key@,
            contract_address@,
            contract_code@,
        )),
{
    let mut signer_id: [u8; HASH_SIZE] = [0u8; HASH_SIZE];
    let mut expected_authentication_id: [u8; HASH_SIZE] = [0u8; HASH_SIZE];
    let mut i: usize = 0;
    while i < HASH_SIZE
        invariant
            0 <= i <= HASH_SIZE,
            forall|j: int| 0 <= j < i ==> signer_id@[j] == contract_key@[j],
            forall|j: int| 0 <= j < i ==> expected_authentication_id@[j] == contract_key@[j + 32],
        decreases HASH_SIZE - i,
    {
        signer_id[i] = contract_key[i];
        expected_authentication_id[i] = contract_key[i + HASH_SIZE];
        i = i + 1;
    }
    assert(signer_id@ =~= contract_key@.subrange(0, 32));
    assert(expected_authentication_id@ =~= contract_key@.subrange(32, 64));
    let contract_hash = calc_contract_hash(contract_code);
    let enclave_key = match key_manager.get_consensus_state_ikm() {
        Ok(k) => k,
        Err(_) => return false,
    };
    let calculated_authentication_id = generate_contract_id(
        enclave_key,
        &signer_id,
        &contract_hash,
        contract_address,
    );
    let r = bytes_equal(
        calculated_authentication_id.as_slice(),
        expected_authentication_id.as_slice(),
    );
    proof {
        let tag = calculated_authentication_id@;
        assert(contract_key@ =~= signer_id@ + expected_authentication_id@);
        assert(key_manager.state_ikm() == Some(enclave_key@));
        assert(contract_key@.subrange(0, HASH_SIZE as int) == signer_id@);
        assert(tag == contract_id_of(enclave_key@, signer_id@, contract_hash_of(contract_code@), contract_address@));
        if contract_key@ == signer_id@ + tag {
            assert((signer_id@ + tag).subrange(32, 64) =~= tag);
            assert(expected_authentication_id@ == tag);
        }
    }
    r
}

/// The ciphertext of an inbound message, after checking that the message starts
/// with the hex-encoded hash of `contract_code`.
pub fn validate_msg(msg: &[u8], contract_code: &[u8]) -> (r: Result<Vec<u8>, EnclaveError>)
    ensures
        r is Ok <==> msg_binding(msg@, contract_hash_of(contract_code@)) is Some,
        r matches Ok(v) ==> Some(v@) == msg_binding(msg@, contract_hash_of(contract_code@)),
        r matches Err(e) ==> e is ValidationFailure,
{
    if msg.len() < HEX_ENCODED_HASH_SIZE {
        return Err(EnclaveError::ValidationFailure);
    }
    let contract_hash = calc_contract_hash(contract_code);
    let encrypted_contract_hash = slice_subrange(msg, 0, HEX_ENCODED_HASH_SIZE);
    let decoded_hash = match hex_decode(encrypted_contract_hash) {
        Ok(v) => v,
        Err(_) => return Err(EnclaveError::ValidationFailure),
    };
    if !bytes_equal(decoded_hash.as_slice(), contract_hash.as_slice()) {
        return Err(EnclaveError::ValidationFailure);
    }
    Ok(slice_to_vec(slice_subrange(msg, HEX_ENCODED_HASH_SIZE, msg.len())))
}

/// The tag by which one contract authenticates a message it passes to another:
/// `HASH(callback_secret ‖ sender ‖ message)`.
pub open spec fn callback_tag_of(secret: Seq<u8>, sender: Seq<u8>, payload: Seq<u8>) -> Seq<u8> {
    sha256_of(secret + sender + payload)
}

/// The base64 text of the contract message that a signed sub-message carries.
pub open spec fn signed_payload(m: SignDocWasmMsg) -> Seq<char> {
    match m {
        SignDocWasmMsg::Execute { msg, .. } => msg@,
        SignDocWasmMsg::Instantiate { init_msg, .. } => init_msg@,
    }
}

/// The funds that a signed sub-message carries.
pub open spec fn signed_funds(m: SignDocWasmMsg) -> Seq<Coin> {
    match m {
        SignDocWasmMsg::Execute { sent_funds, .. } => sent_funds@,
        SignDocWasmMsg::Instantiate { init_funds, .. } => init_funds@,
    }
}

/// Whether a signed sub-message carries exactly the bytes `sent`.
pub open spec fn msg_matches(m: SignDocWasmMsg, sent: Seq<u8>) -> bool {
    base64_decoding_of(signed_payload(m)) == Some(sent)
}

/// Whether `msgs[i]` is the first sub-message that carries `sent`.
pub open spec fn is_first_match(msgs: Seq<SignDocWasmMsg>, sent: Seq<u8>, i: int) -> bool {
    &&& 0 <= i < msgs.len()
    &&& msg_matches(msgs[i], sent)
    &&& forall|j: int| 0 <= j < i ==> !msg_matches(#[trigger] msgs[j], sent)
}

/// Whether a signed sub-message targets the contract at `contract_address`.
/// An instantiation has no address yet and targets any.
pub open spec fn contract_matches(m: SignDocWasmMsg, contract_address: Seq<u8>) -> bool {
    match m {
        SignDocWasmMsg::Execute { contract, .. } => contract.0@ == human_address_of(
            contract_address,
        ),
        SignDocWasmMsg::Instantiate { .. } => true,
    }
}

/// Whether the funds attached to a call are those that were signed. No funds
/// attached matches an empty signed list, and nothing else.
pub open spec fn funds_match(signed: Seq<Coin>, sent: Option<Vec<Coin>>) -> bool {
    match sent {
        Some(f) => coins_view(f@) == coins_view(signed),
        None => signed.len() == 0,
    }
}

/// Whether a signed document, signed under `pub_key`, authorizes the call
/// described by `env` with the message bytes `sent`.
pub open spec fn signed_params_ok(doc: SignDoc, pub_key: Seq<u8>, env: Env, sent: Seq<u8>) -> bool {
    &&& pubkey_address_of(pub_key) == env.message.sender.0@
    &&& exists|i: int|
        #![trigger doc.msgs@[i]]
        is_first_match(doc.msgs@, sent, i) && contract_matches(
            doc.msgs@[i],
            env.contract.address.0@,
        ) && funds_match(signed_funds(doc.msgs@[i]), env.message.sent_funds)
}

/// The outcome of authenticating a call, given the callback secret of the key
/// manager and the document parsed from the signed bytes (`None` where they are
/// not a sign document).
pub open spec fn params_verdict(
    callback_secret: Option<Seq<u8>>,
    sig_info: SigInfo,
    env: Env,
    msg: SecretMessage,
    sign_doc: Option<SignDoc>,
) -> Result<(), EnclaveError> {
    match sig_info.callback_sig {
        Some(cs) => if cs@.len() == 0 {
            Err(EnclaveError::FailedTxVerification)
        } else {
            match callback_secret {
                None => Err(EnclaveError::KeyManagerUnavailable),
                Some(secret) => if cs@ == callback_tag_of(secret, env.message.sender.0@, msg.msg@) {
                    Ok(())
                } else {
                    Err(EnclaveError::FailedTxVerification)
                },
            }
        },
        None => match sign_doc {
            None => Err(EnclaveError::FailedToDeserialize),
            Some(doc) => if signs_bytes(
                sig_info.signature.pub_key@,
                sig_info.signature.signature@,
                sig_info.sign_bytes@,
            ) && signed_params_ok(doc, sig_info.signature.pub_key@, env, msg.bytes()) {
                Ok(())
            } else {
                Err(EnclaveError::FailedTxVerification)
            },
        },
    }
}

/// The tag by which the contract at `contract_addr` authenticates `msg_to_sign`
/// when passing it to another contract.
pub fn create_callback_signature(
    key_manager: &KeyManager,
    contract_addr: &CanonicalAddr,
    msg_to_sign: &SecretMessage,
) -> (r: Result<Vec<u8>, EnclaveError>)
    ensures
        key_manager.callback_secret() is None <==> r is Err,
        r matches Err(e) ==> e is KeyManagerUnavailable,
        r matches Ok(v) ==> v@ == callback_tag_of(
            key_manager.callback_secret()->0,
            contract_addr.0@,
            msg_to_sign.msg@,
        ),
        r matches Ok(v) ==> v@.len() == HASH_SIZE,
{
    let secret = match key_manager.get_consensus_callback_secret() {
        Ok(k) => k,
        Err(e) => return Err(e),
    };
    let mut callback_sig_bytes: Vec<u8> = Vec::new();
    callback_sig_bytes.extend_from_slice(secret.get().as_slice());
    callback_sig_bytes.extend_from_slice(contract_addr.0.as_slice());
    callback_sig_bytes.extend_from_slice(msg_to_sign.msg.as_slice());
    assert(callback_sig_bytes@ =~= secret@ + contract_addr.0@ + msg_to_sign.msg@);
    let digest = sha_256(callback_sig_bytes.as_slice());
    Ok(slice_to_vec(digest.as_slice()))
}

/// Whether `callback_signature` is the non-empty callback tag of `sender` for
/// `msg`. Fails when it would have to be recomputed and the key manager holds no
/// callback secret.
pub fn verify_callback_sig(
    key_manager: &KeyManager,
    callback_signature: &[u8],
    sender: &CanonicalAddr,
    msg: &SecretMessage,
) -> (r: Result<bool, EnclaveError>)
    ensures
        r is Err <==> (callback_signature@.len() > 0 && key_manager.callback_secret() is None),
        r matches Err(e) ==> e is KeyManagerUnavailable,
        r matches Ok(b) ==> (b <==> (callback_signature@.len() > 0
            && callback_signature@ == callback_tag_of(
            key_manager.callback_secret()->0,
            sender.0@,
            msg.msg@,
        ))),
{
    if callback_signature.len() == 0 {
        return Ok(false);
    }
    let callback_sig = match create_callback_signature(key_manager, sender, msg) {
        Ok(v) => v,
        Err(e) => return Err(e),
    };
    Ok(bytes_equal(callback_signature, callback_sig.as_slice()))
}

/// Whether the signer's address is the message sender.
pub fn verify_sender(signature: &CosmosSignature, msg_sender: &CanonicalAddr) -> (r: bool)
    ensures
        r == (pubkey_address_of(signature.pub_key@) == msg_sender.0@),
{
    let address = signature.get_address();
    bytes_equal(address.0.as_slice(), msg_sender.0.as_slice())
}

/// The first signed sub-message whose decoded payload is exactly the bytes of
/// `sent_msg`.
pub fn get_verified_msg<'a>(sign_doc: &'a SignDoc, sent_msg: &SecretMessage) -> (r: Option<
    &'a SignDocWasmMsg,
>)
    ensures
        r is None <==> forall|i: int|
            0 <= i < sign_doc.msgs@.len() ==> !msg_matches(
                #[trigger] sign_doc.msgs@[i],
                sent_msg.bytes(),
            ),
        r matches Some(m) ==> exists|i: int|
            is_first_match(sign_doc.msgs@, sent_msg.bytes(), i) && #[trigger] sign_doc.msgs@[i]
                == *m,
{
    let sent = sent_msg.to_vec();
    let mut i: usize = 0;
    while i < sign_doc.msgs.len()
        invariant
            0 <= i <= sign_doc.msgs@.len(),
            sent@ == sent_msg.bytes(),
            forall|j: int| 0 <= j < i ==> !msg_matches(#[trigger] sign_doc.msgs@[j], sent@),
        decreases sign_doc.msgs@.len() - i,
    {
        let m = &sign_doc.msgs[i];
        let payload = match m {
            SignDocWasmMsg::Execute { msg, .. } => msg,
            SignDocWasmMsg::Instantiate { init_msg, .. } => init_msg,
        };
        assert(payload@ == signed_payload(sign_doc.msgs@[i as int]));
        match base64_decode(payload.as_str()) {
            Ok(decoded) => {
                if bytes_equal(decoded.as_slice(), sent.as_slice()) {
                    assert(is_first_match(sign_doc.msgs@, sent@, i as int));
                    return Some(m);
                }
            },
            Err(_) => {},
        }
        i = i + 1;
    }
    None
}

/// Whether a signed execution targets the contract of `env`. An instantiation
/// has no address yet and passes.
pub fn verify_contract(msg: &SignDocWasmMsg, env: &Env) -> (r: bool)
    ensures
        r == contract_matches(*msg, env.contract.address.0@),
{
    match msg {
        SignDocWasmMsg::Execute { contract, .. } => match HumanAddr::from_canonical(
            &env.contract.address,
        ) {
            Ok(human_addr) => human_addr.0 == contract.0,
            Err(_) => false,
        },
        SignDocWasmMsg::Instantiate { .. } => true,
    }
}

/// Whether the funds attached to the call in `env` are those that were signed.
pub fn verify_funds(msg: &SignDocWasmMsg, env: &Env) -> (r: bool)
    ensures
        r == funds_match(signed_funds(*msg), env.message.sent_funds),
{
    let sent_funds = match msg {
        SignDocWasmMsg::Execute { sent_funds, .. } => sent_funds,
        SignDocWasmMsg::Instantiate { init_funds, .. } => init_funds,
    };
    match &env.message.sent_funds {
        Some(env_sent_funds) => coins_equal(env_sent_funds, sent_funds),
        None => sent_funds.len() == 0,
    }
}

/// Whether a signed document authorizes the call: the signer sent it, and its
/// first sub-message carrying `sent_msg` targets this contract with these funds.
pub fn verify_signature_params(
    sign_doc: &SignDoc,
    sig_info: &SigInfo,
    env: &Env,
    sent_msg: &SecretMessage,
) -> (r: bool)
    ensures
        r == signed_params_ok(*sign_doc, sig_info.signature.pub_key@, *env, sent_msg.bytes()),
{
    if !verify_sender(&sig_info.signature, &env.message.sender) {
        return false;
    }
    let msg = match get_verified_msg(sign_doc, sent_msg) {
        Some(m) => m,
        None => return false,
    };
    proof {
        let i = choose|i: int|
            is_first_match(sign_doc.msgs@, sent_msg.bytes(), i) && #[trigger] sign_doc.msgs@[i]
                == *msg;
        assert forall|k: int| is_first_match(sign_doc.msgs@, sent_msg.bytes(), k) implies k
            == i by {
            if k < i {
                assert(!msg_matches(sign_doc.msgs@[k], sent_msg.bytes()));
            } else if k > i {
                assert(!msg_matches(sign_doc.msgs@[i], sent_msg.bytes()));
            }
        }
    }
    verify_contract(msg, env) && verify_funds(msg, env)
}

/// Authenticates a call: by the callback tag where `sig_info` carries one, and
/// otherwise by the signed transaction, whose bytes parsed to `sign_doc` (`None`
/// where they are not a sign document).
pub fn verify_params(
    key_manager: &KeyManager,
    sig_info: &SigInfo,
    env: &Env,
    msg: &SecretMessage,
    sign_doc: &Option<SignDoc>,
) -> (r: Result<(), EnclaveError>)
    ensures
        r == params_verdict(key_manager.callback_secret(), *sig_info, *env, *msg, *sign_doc),
{
    match &sig_info.callback_sig {
        Some(callback_sig) => {
            match verify_callback_sig(key_manager, callback_sig.as_slice(), &env.message.sender, msg) {
                Ok(true) => Ok(()),
                Ok(false) => Err(EnclaveError::FailedTxVerification),
                Err(e) => Err(e),
            }
        },
        None => {
            let doc = match sign_doc {
                Some(d) => d,
                None => return Err(EnclaveError::FailedToDeserialize),
            };
            if !sig_info.signature.verify_bytes(sig_info.sign_bytes.as_slice()) {
                return Err(EnclaveError::FailedTxVerification);
            }
            if verify_signature_params(doc, sig_info, env, msg) {
                Ok(())
            } else {
                Err(EnclaveError::FailedTxVerification)
            }
        },
    }
}

} // verus!
