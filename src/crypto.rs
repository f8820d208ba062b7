use crate::ffi_types::EnclaveError;
use vstd::prelude::*;

verus! {

/// Size in bytes of a SHA-256 digest.
pub const HASH_SIZE: usize = 32;

/// Size in bytes of a symmetric key.
pub const SYMMETRIC_KEY_SIZE: usize = 32;

/// The SHA-256 digest of a byte string.
pub uninterp spec fn sha256_of(data: Seq<u8>) -> Seq<u8>;

/// HMAC-SHA256 of `data` under `key`.
pub uninterp spec fn hmac_sha256_of(key: Seq<u8>, data: Seq<u8>) -> Seq<u8>;

/// The first 32 bytes of HKDF-SHA256 output (no salt) for key material `ikm`
/// and context `info`.
pub uninterp spec fn hkdf_sha256_of(ikm: Seq<u8>, info: Seq<u8>) -> Seq<u8>;

/// The RIPEMD-160 digest of a byte string.
pub uninterp spec fn ripemd160_of(data: Seq<u8>) -> Seq<u8>;

/// Whether `signature` (compact, 64 bytes) is a valid ECDSA signature over
/// secp256k1 of the 32-byte `digest` under the serialized public key `pubkey`.
pub uninterp spec fn ecdsa_secp256k1_accepts(pubkey: Seq<u8>, digest: Seq<u8>, signature: Seq<u8>) -> bool;

/// Relies on sha2::Sha256::digest: the SHA-256 digest of `data`, which
/// depends on `data` alone.
#[verifier::external_body]
pub(crate) fn sha_256(data: &[u8]) -> (r: [u8; HASH_SIZE])
    ensures
        r@ == sha256_of(data@),
{
    <sha2::Sha256 as sha2::Digest>::digest(data).into()
}

/// Relies on hmac::Hmac<Sha256> (new_from_slice, update, finalize): the
/// HMAC-SHA256 tag of `data` under `key`. HMAC accepts a key of any length, so
/// `new_from_slice` never fails.
#[verifier::external_body]
fn hmac_sha256(key: &[u8], data: &[u8]) -> (r: [u8; HASH_SIZE])
    ensures
        r@ == hmac_sha256_of(key@, data@),
{
    let mut mac = <hmac::Hmac<sha2::Sha256> as hmac::Mac>::new_from_slice(key)
        .expect("HMAC takes a key of any length");
    hmac::Mac::update(&mut mac, data);
    hmac::Mac::finalize(mac).into_bytes().into()
}

/// Relies on hkdf::Hkdf<Sha256> (new, expand): 32 bytes of HKDF output for
/// `ikm` and `info`, without salt. `expand` fails only for outputs longer than
/// 255 digests, so it never fails here.
#[verifier::external_body]
fn hkdf_sha256(ikm: &[u8], info: &[u8]) -> (r: [u8; SYMMETRIC_KEY_SIZE])
    ensures
        r@ == hkdf_sha256_of(ikm@, info@),
{
    let mut okm = [0u8; SYMMETRIC_KEY_SIZE];
    hkdf::Hkdf::<sha2::Sha256>::new(None, ikm).expand(info, &mut okm)
        .expect("32 bytes is within the HKDF output limit");
    okm
}

/// Relies on ripemd::Ripemd160::digest: the RIPEMD-160 digest of `data`.
#[verifier::external_body]
pub(crate) fn ripemd_160(data: &[u8]) -> (r: [u8; 20])
    ensures
        r@ == ripemd160_of(data@),
{
    <ripemd::Ripemd160 as ripemd::Digest>::digest(data).into()
}

/// Relies on secp256k1's `Secp256k1::verify_ecdsa`, after parsing the public
/// key (`PublicKey::from_slice`), the compact signature
/// (`ecdsa::Signature::from_compact`) and the digest (`Message::from_slice`);
/// a part that does not parse makes the signature invalid.
#[verifier::external_body]
pub(crate) fn secp256k1_verify(pubkey: &[u8], digest: &[u8; HASH_SIZE], signature: &[u8]) -> (r: bool)
    ensures
        r == ecdsa_secp256k1_accepts(pubkey@, digest@, signature@),
{
    match (
        secp256k1::PublicKey::from_slice(pubkey),
        secp256k1::ecdsa::Signature::from_compact(signature),
        secp256k1::Message::from_slice(digest),
    ) {
        (Ok(pk), Ok(sig), Ok(msg)) => secp256k1::Secp256k1::verification_only()
            .verify_ecdsa(&msg, &sig, &pk).is_ok(),
        _ => false,
    }
}

/// A 256-bit symmetric key.
pub struct AESKey {
    bytes: [u8; SYMMETRIC_KEY_SIZE],
}

impl AESKey {
    pub fn new_from_slice(bytes: &[u8; SYMMETRIC_KEY_SIZE]) -> (r: AESKey)
        ensures
            r@ == bytes@,
    {
        AESKey { bytes: *bytes }
    }

    pub fn get(&self) -> (r: &[u8; SYMMETRIC_KEY_SIZE])
        ensures
            r@ == self@,
    {
        &self.bytes
    }

    /// Derives a sub-key from this key, bound to `data`.
    pub fn derive_key_from_this(&self, data: &[u8]) -> (r: AESKey)
        ensures
            r@ == hkdf_sha256_of(self@, data@),
    {
        AESKey { bytes: hkdf_sha256(&self.bytes, data) }
    }

    /// HMAC-SHA256 of `data` under this key.
    pub fn sign_sha_256(&self, data: &[u8]) -> (r: [u8; HASH_SIZE])
        ensures
            r@ == hmac_sha256_of(self@, data@),
    {
        hmac_sha256(&self.bytes, data)
    }
}

impl View for AESKey {
    type V = Seq<u8>;

    closed spec fn view(&self) -> Seq<u8> {
        self.bytes@
    }
}

/// The holder of the enclave's long-lived secrets. It is filled once at start-up
/// and only read afterwards; every derivation and validation takes it by
/// reference.
pub struct KeyManager {
    consensus_state_ikm: Option<AESKey>,
    consensus_callback_secret: Option<AESKey>,
}

impl KeyManager {
    /// A key manager that holds no key material yet.
    pub fn new() -> (r: KeyManager)
        ensures
            r.state_ikm() is None,
            r.callback_secret() is None,
    {
        KeyManager { consensus_state_ikm: None, consensus_callback_secret: None }
    }

    /// A key manager that holds both secrets.
    pub fn with_secrets(state_ikm: AESKey, callback_secret: AESKey) -> (r: KeyManager)
        ensures
            r.state_ikm() == Some(state_ikm@),
            r.callback_secret() == Some(callback_secret@),
    {
        KeyManager {
            consensus_state_ikm: Some(state_ikm),
            consensus_callback_secret: Some(callback_secret),
        }
    }

    /// The master key material, if loaded.
    pub closed spec fn state_ikm(&self) -> Option<Seq<u8>> {
        match self.consensus_state_ikm {
            Some(k) => Some(k@),
            None => None,
        }
    }

    /// The secret behind inter-contract callback tags, if loaded.
    pub closed spec fn callback_secret(&self) -> Option<Seq<u8>> {
        match self.consensus_callback_secret {
            Some(k) => Some(k@),
            None => None,
        }
    }

    pub fn get_consensus_state_ikm(&self) -> (r: Result<&AESKey, EnclaveError>)
        ensures
            self.state_ikm() is None <==> r is Err,
            r matches Ok(k) ==> Some(k@) == self.state_ikm(),
            r matches Err(e) ==> e is KeyManagerUnavailable,
    {
        match &self.consensus_state_ikm {
            Some(k) => Ok(k),
            None => Err(EnclaveError::KeyManagerUnavailable),
        }
    }

    pub fn get_consensus_callback_secret(&self) -> (r: Result<&AESKey, EnclaveError>)
        ensures
            self.callback_secret() is None <==> r is Err,
            r matches Ok(k) ==> Some(k@) == self.callback_secret(),
            r matches Err(e) ==> e is KeyManagerUnavailable,
    {
        match &self.consensus_callback_secret {
            Some(k) => Ok(k),
            None => Err(EnclaveError::KeyManagerUnavailable),
        }
    }
}

} // verus!
