use crate::contract_validation::{
    be_bytes, callback_tag_of, contract_hash_of, contract_id_of, contract_key_valid, encryption_key_of, funds_match,
    msg_binding, params_verdict, sender_id_of, HEX_ENCODED_HASH_SIZE,
};
use crate::crypto::HASH_SIZE;
use crate::encoding::{hex_decoding, hex_encoding, lemma_hex_round_trip};
use crate::ffi_types::EnclaveError;
use crate::types::{Coin, Env, SecretMessage, SigInfo, SignDoc};
use vstd::prelude::*;

verus! {

/// The sender id and the authentication tag are functions of their inputs:
/// equal inputs give equal results, on every call.
pub proof fn lemma_derivation_deterministic(
    sender1: Seq<u8>,
    height1: u64,
    sender2: Seq<u8>,
    height2: u64,
    ikm: Seq<u8>,
    sender_id: Seq<u8>,
    code_hash: Seq<u8>,
    contract_address: Seq<u8>,
)
    requires
        sender1 == sender2,
        height1 == height2,
    ensures
        sender_id_of(sender1, height1) == sender_id_of(sender2, height2),
        contract_id_of(ikm, sender_id, code_hash, contract_address) == contract_id_of(
            ikm,
            sender_id,
            code_hash,
            contract_address,
        ),
{
}

/// Distinct block heights have distinct big-endian encodings.
pub proof fn lemma_be_bytes_injective(h1: u64, h2: u64)
    ensures
        be_bytes(h1) == be_bytes(h2) ==> h1 == h2,
{
    if be_bytes(h1) == be_bytes(h2) {
        assert(be_bytes(h1)[0] == be_bytes(h2)[0]);
        assert(be_bytes(h1)[1] == be_bytes(h2)[1]);
        assert(be_bytes(h1)[2] == be_bytes(h2)[2]);
        assert(be_bytes(h1)[3] == be_bytes(h2)[3]);
        assert(be_bytes(h1)[4] == be_bytes(h2)[4]);
        assert(be_bytes(h1)[5] == be_bytes(h2)[5]);
        assert(be_bytes(h1)[6] == be_bytes(h2)[6]);
        assert(be_bytes(h1)[7] == be_bytes(h2)[7]);
        assert((((h1 >> 56u64) & 0xffu64) as u8 == ((h2 >> 56u64) & 0xffu64) as u8 && ((h1
            >> 48u64) & 0xffu64) as u8 == ((h2 >> 48u64) & 0xffu64) as u8 && ((h1 >> 40u64)
            & 0xffu64) as u8 == ((h2 >> 40u64) & 0xffu64) as u8 && ((h1 >> 32u64) & 0xffu64) as u8
            == ((h2 >> 32u64) & 0xffu64) as u8 && ((h1 >> 24u64) & 0xffu64) as u8 == ((h2
            >> 24u64) & 0xffu64) as u8 && ((h1 >> 16u64) & 0xffu64) as u8 == ((h2 >> 16u64)
            & 0xffu64) as u8 && ((h1 >> 8u64) & 0xffu64) as u8 == ((h2 >> 8u64) & 0xffu64) as u8
            && ((h1 >> 0u64) & 0xffu64) as u8 == ((h2 >> 0u64) & 0xffu64) as u8) ==> h1 == h2)
            by (bit_vector);
    }
}

/// Changing the sender or the block height changes the bytes that the sender
/// id hashes: the encoding is injective, so distinct inputs reach the hash as
/// distinct byte strings.
pub proof fn lemma_sender_id_input_injective(sender1: Seq<u8>, height1: u64, sender2: Seq<u8>, height2: u64)
    ensures
        sender1 + be_bytes(height1) == sender2 + be_bytes(height2) ==> sender1 == sender2 && height1
            == height2,
{
    let a = sender1 + be_bytes(height1);
    let b = sender2 + be_bytes(height2);
    assert(be_bytes(height1).len() == 8 && be_bytes(height2).len() == 8);
    if a == b {
        assert(a.len() == b.len());
        assert(sender1.len() == sender2.len());
        assert(a.subrange(0, sender1.len() as int) =~= sender1);
        assert(b.subrange(0, sender2.len() as int) =~= sender2);
        assert(a.subrange(sender1.len() as int, a.len() as int) =~= be_bytes(height1));
        assert(b.subrange(sender2.len() as int, b.len() as int) =~= be_bytes(height2));
        lemma_be_bytes_injective(height1, height2);
    }
}

/// Changing the sender id, the code hash or the contract address changes the
/// bytes that the authentication tag is computed over.
pub proof fn lemma_contract_id_input_injective(
    sender_id1: Seq<u8>,
    code_hash1: Seq<u8>,
    address1: Seq<u8>,
    sender_id2: Seq<u8>,
    code_hash2: Seq<u8>,
    address2: Seq<u8>,
)
    requires
        sender_id1.len() == HASH_SIZE,
        sender_id2.len() == HASH_SIZE,
        code_hash1.len() == HASH_SIZE,
        code_hash2.len() == HASH_SIZE,
    ensures
        sender_id1 + code_hash1 + address1 == sender_id2 + code_hash2 + address2 ==> sender_id1
            == sender_id2 && code_hash1 == code_hash2 && address1 == address2,
{
    let a = sender_id1 + code_hash1 + address1;
    let b = sender_id2 + code_hash2 + address2;
    if a == b {
        assert(a.subrange(0, 32) =~= sender_id1);
        assert(b.subrange(0, 32) =~= sender_id2);
        assert(a.subrange(32, 64) =~= code_hash1);
        assert(b.subrange(32, 64) =~= code_hash2);
        assert(a.subrange(64, a.len() as int) =~= address1);
        assert(b.subrange(64, b.len() as int) =~= address2);
    }
}

/// A sender id followed by the tag computed for it, the code and the address
/// is a valid contract key for that code and address; this is how encryption
/// keys are built.
pub proof fn lemma_derived_key_validates(
    ikm: Seq<u8>,
    sender_id: Seq<u8>,
    code: Seq<u8>,
    contract_address: Seq<u8>,
)
    requires
        sender_id.len() == HASH_SIZE,
    ensures
        contract_key_valid(
            ikm,
            sender_id + contract_id_of(ikm, sender_id, contract_hash_of(code), contract_address),
            contract_address,
            code,
        ),
{
    let key = sender_id + contract_id_of(ikm, sender_id, contract_hash_of(code), contract_address);
    assert(key.subrange(0, HASH_SIZE as int) =~= sender_id);
}

/// An encryption key is a valid contract key for the code and address it was
/// generated for.
pub proof fn lemma_encryption_key_validates(
    ikm: Seq<u8>,
    sender: Seq<u8>,
    block_height: u64,
    code: Seq<u8>,
    contract_address: Seq<u8>,
)
    requires
        sender_id_of(sender, block_height).len() == HASH_SIZE,
    ensures
        contract_key_valid(
            ikm,
            encryption_key_of(ikm, sender, block_height, code, contract_address),
            contract_address,
            code,
        ),
{
    lemma_derived_key_validates(ikm, sender_id_of(sender, block_height), code, contract_address);
}

/// Changing any one byte of the tag half of a valid contract key makes it
/// invalid.
pub proof fn lemma_tag_tamper_rejected(
    ikm: Seq<u8>,
    key: Seq<u8>,
    contract_address: Seq<u8>,
    code: Seq<u8>,
    i: int,
    b: u8,
)
    requires
        key.len() == 2 * HASH_SIZE,
        contract_key_valid(ikm, key, contract_address, code),
        HASH_SIZE <= i < 2 * HASH_SIZE,
        b != key[i],
    ensures
        !contract_key_valid(ikm, key.update(i, b), contract_address, code),
{
    let tampered = key.update(i, b);
    assert(tampered.subrange(0, HASH_SIZE as int) =~= key.subrange(0, HASH_SIZE as int));
    assert(tampered[i] != key[i]);
}

/// A message made of the hex-encoded code hash followed by a payload yields
/// exactly that payload; a message that is shorter than the prefix, whose
/// prefix is not hex, or whose prefix names another hash is rejected.
pub proof fn lemma_msg_prefix(code_hash: Seq<u8>, payload: Seq<u8>, msg: Seq<u8>)
    requires
        code_hash.len() == HASH_SIZE,
    ensures
        msg_binding(hex_encoding(code_hash) + payload, code_hash) == Some(payload),
        msg.len() < HEX_ENCODED_HASH_SIZE || hex_decoding(
            msg.subrange(0, HEX_ENCODED_HASH_SIZE as int),
        ) != Some(code_hash) ==> msg_binding(msg, code_hash) is None,
{
    let m = hex_encoding(code_hash) + payload;
    lemma_hex_round_trip(code_hash);
    assert(m.subrange(0, HEX_ENCODED_HASH_SIZE as int) =~= hex_encoding(code_hash));
    assert(m.subrange(HEX_ENCODED_HASH_SIZE as int, m.len() as int) =~= payload);
}

/// A call that carries the correct callback tag of its sender and message is
/// accepted, whatever its signed bytes, signature and sign document hold.
pub proof fn lemma_callback_accepted(
    callback_secret: Seq<u8>,
    sig_info: SigInfo,
    env: Env,
    msg: SecretMessage,
    sign_doc: Option<SignDoc>,
)
    requires
        sig_info.callback_sig matches Some(tag) && tag@ == callback_tag_of(
            callback_secret,
            env.message.sender.0@,
            msg.msg@,
        ) && tag@.len() == HASH_SIZE,
    ensures
        params_verdict(Some(callback_secret), sig_info, env, msg, sign_doc) == Ok::<
            (),
            EnclaveError,
        >(()),
{
}

/// No attached funds match an empty signed list of funds, and no other.
pub proof fn lemma_funds_none_equivalence(signed: Seq<Coin>)
    ensures
        funds_match(signed, None) <==> signed.len() == 0,
{
}

} // verus!
