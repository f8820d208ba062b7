use crate::crypto::{
    ecdsa_secp256k1_accepts, ripemd160_of, ripemd_160, secp256k1_verify, sha256_of, sha_256,
};
use crate::encoding::{bech32_encode, bech32_encoding_of, bech32_hrp_valid};
use vstd::prelude::*;
use vstd::slice::slice_to_vec;

verus! {

/// An address in its binary form, as the chain stores it.
#[derive(Clone, Debug)]
pub struct CanonicalAddr(pub Vec<u8>);

/// An address in its human-readable bech32 form.
#[derive(Clone, Debug)]
pub struct HumanAddr(pub String);

/// The human-readable part of account addresses.
pub open spec fn account_prefix() -> Seq<char> {
    seq!['s', 'e', 'c', 'r', 'e', 't']
}

/// The human-readable form of a canonical address.
pub open spec fn human_address_of(canonical: Seq<u8>) -> Seq<char> {
    bech32_encoding_of(account_prefix(), canonical)
}

impl HumanAddr {
    /// The bech32 form of `canonical` under the account prefix.
    pub fn from_canonical(canonical: &CanonicalAddr) -> (r: Result<HumanAddr, bech32::Error>)
        ensures
            r matches Ok(h) && h.0@ == human_address_of(canonical.0@),
    {
        let prefix = "secret";
        proof {
            reveal_strlit("secret");
            assert(prefix@ =~= account_prefix());
            assert(bech32_hrp_valid(prefix@)) by {
                assert(prefix@[0] == 's');
            }
        }
        match bech32_encode(prefix, canonical.0.as_slice()) {
            Ok(s) => Ok(HumanAddr(s)),
            Err(e) => Err(e),
        }
    }
}

/// An amount of one denomination.
#[derive(Clone, Debug)]
pub struct Coin {
    pub denom: String,
    pub amount: u128,
}

/// The abstract value of a list of coins.
pub open spec fn coins_view(coins: Seq<Coin>) -> Seq<(Seq<char>, u128)> {
    coins.map_values(|c: Coin| (c.denom@, c.amount))
}

/// Whether two lists of coins hold the same denominations and amounts in the
/// same order.
pub fn coins_equal(a: &Vec<Coin>, b: &Vec<Coin>) -> (r: bool)
    ensures
        r == (coins_view(a@) == coins_view(b@)),
{
    if a.len() != b.len() {
        proof {
            assert(coins_view(a@).len() != coins_view(b@).len());
        }
        return false;
    }
    let mut i: usize = 0;
    while i < a.len()
        invariant
            a.len() == b.len(),
            0 <= i <= a.len(),
            forall|j: int| 0 <= j < i ==> coins_view(a@)[j] == coins_view(b@)[j],
        decreases a.len() - i,
    {
        if a[i].amount != b[i].amount || a[i].denom != b[i].denom {
            proof {
                assert(coins_view(a@)[i as int] != coins_view(b@)[i as int]);
            }
            return false;
        }
        i = i + 1;
    }
    proof {
        assert(coins_view(a@) =~= coins_view(b@));
    }
    true
}

#[derive(Clone, Debug)]
pub struct BlockInfo {
    pub height: u64,
}

#[derive(Clone, Debug)]
pub struct MessageInfo {
    /// The address that sent the message.
    pub sender: CanonicalAddr,
    /// The funds attached to the message, if any were given.
    pub sent_funds: Option<Vec<Coin>>,
}

#[derive(Clone, Debug)]
pub struct ContractInfo {
    pub address: CanonicalAddr,
}

/// The context of one contract call, as the chain provides it.
#[derive(Clone, Debug)]
pub struct Env {
    pub block: BlockInfo,
    pub message: MessageInfo,
    pub contract: ContractInfo,
    /// The contract key, base64-encoded.
    pub contract_key: Option<String>,
}

/// A user's signature over a transaction document, with its public key.
#[derive(Clone, Debug)]
pub struct CosmosSignature {
    /// The signer's serialized secp256k1 public key.
    pub pub_key: Vec<u8>,
    /// The compact 64-byte ECDSA signature.
    pub signature: Vec<u8>,
}

/// The account address of a serialized public key: RIPEMD-160 of its SHA-256.
pub open spec fn pubkey_address_of(pub_key: Seq<u8>) -> Seq<u8> {
    ripemd160_of(sha256_of(pub_key))
}

/// Whether `signature` signs `bytes` under `pub_key`: an ECDSA signature over
/// the SHA-256 digest of the bytes.
pub open spec fn signs_bytes(pub_key: Seq<u8>, signature: Seq<u8>, bytes: Seq<u8>) -> bool {
    ecdsa_secp256k1_accepts(pub_key, sha256_of(bytes), signature)
}

impl CosmosSignature {
    pub fn get_public_key(&self) -> (r: &Vec<u8>)
        ensures
            r@ == self.pub_key@,
    {
        &self.pub_key
    }

    pub fn get_signature(&self) -> (r: &Vec<u8>)
        ensures
            r@ == self.signature@,
    {
        &self.signature
    }

    /// The account address of the signer.
    pub fn get_address(&self) -> (r: CanonicalAddr)
        ensures
            r.0@ == pubkey_address_of(self.pub_key@),
    {
        let digest = sha_256(self.pub_key.as_slice());
        let address = ripemd_160(&digest);
        CanonicalAddr(slice_to_vec(address.as_slice()))
    }

    /// Whether this signature signs `bytes` under this public key.
    pub fn verify_bytes(&self, bytes: &[u8]) -> (r: bool)
        ensures
            r == signs_bytes(self.pub_key@, self.signature@, bytes@),
    {
        let digest = sha_256(bytes);
        secp256k1_verify(self.pub_key.as_slice(), &digest, self.signature.as_slice())
    }
}

/// How a call is authenticated: by an inter-contract callback tag, or by a
/// signed transaction document.
#[derive(Clone, Debug)]
pub struct SigInfo {
    pub callback_sig: Option<Vec<u8>>,
    pub sign_bytes: Vec<u8>,
    pub signature: CosmosSignature,
}

/// One sub-message of a signed transaction document.
#[derive(Clone, Debug)]
pub enum SignDocWasmMsg {
    Execute {
        /// The target contract's human-readable address.
        contract: HumanAddr,
        /// The base64-encoded message.
        msg: String,
        sent_funds: Vec<Coin>,
    },
    Instantiate {
        /// The base64-encoded init message.
        init_msg: String,
        init_funds: Vec<Coin>,
    },
}

/// The transaction document that the user signed.
#[derive(Clone, Debug)]
pub struct SignDoc {
    pub msgs: Vec<SignDocWasmMsg>,
}

/// Length in bytes of a message nonce and of a user public key.
pub const IO_KEY_SIZE: usize = 32;

/// An encrypted contract call payload as received at the enclave boundary.
#[derive(Clone, Debug)]
pub struct SecretMessage {
    pub nonce: [u8; IO_KEY_SIZE],
    pub user_public_key: [u8; IO_KEY_SIZE],
    pub msg: Vec<u8>,
}

impl SecretMessage {
    /// The wire bytes: nonce, then user public key, then the ciphertext.
    pub open spec fn bytes(&self) -> Seq<u8> {
        self.nonce@ + self.user_public_key@ + self.msg@
    }

    pub fn to_vec(&self) -> (r: Vec<u8>)
        ensures
            r@ == self.bytes(),
    {
        let mut out: Vec<u8> = slice_to_vec(self.nonce.as_slice());
        let mut key: Vec<u8> = slice_to_vec(self.user_public_key.as_slice());
        out.append(&mut key);
        let mut ciphertext: Vec<u8> = self.msg.clone();
        out.append(&mut ciphertext);
        out
    }
}

} // verus!
