use vstd::prelude::*;

verus! {

/// An opaque handle to a buffer in the host's address space. The enclave never
/// dereferences it; bytes cross the boundary only through explicit copies.
pub struct UserSpaceBuffer {
    pub ptr: usize,
}

/// An opaque handle to a buffer inside the enclave.
pub struct EnclaveBuffer {
    pub ptr: usize,
}

impl EnclaveBuffer {
    /// Copies the handle value. The bytes behind it are neither copied nor touched.
    pub fn unsafe_clone(&self) -> (r: Self)
        ensures
            r.ptr == self.ptr,
    {
        EnclaveBuffer { ptr: self.ptr }
    }

    /// Copies the handle value, as `unsafe_clone` does.
    pub fn clone(&self) -> (r: Self)
        ensures
            r.ptr == self.ptr,
    {
        self.unsafe_clone()
    }
}

impl Default for EnclaveBuffer {
    /// The null handle.
    fn default() -> (r: Self)
        ensures
            r.ptr == 0,
    {
        EnclaveBuffer { ptr: 0 }
    }
}

/// A handle to the host-side storage context of one call.
pub struct Ctx {
    pub data: usize,
}

impl Ctx {
    /// Copies the handle value, not the storage behind it.
    pub fn unsafe_clone(&self) -> (r: Self)
        ensures
            r.data == self.data,
    {
        Ctx { data: self.data }
    }

    /// Copies the handle value, as `unsafe_clone` does.
    pub fn clone(&self) -> (r: Self)
        ensures
            r.data == self.data,
    {
        self.unsafe_clone()
    }
}

/// A handle to an error boxed on the host side during an outbound call. The
/// enclave carries it back unread.
#[derive(Debug)]
pub struct UntrustedVmError {
    pub ptr: usize,
}

impl UntrustedVmError {
    pub fn new(ptr: usize) -> (r: Self)
        ensures
            r.ptr == ptr,
    {
        UntrustedVmError { ptr }
    }
}

impl Default for UntrustedVmError {
    /// The null handle: no host-side error is attached.
    fn default() -> (r: Self)
        ensures
            r.ptr == 0,
    {
        UntrustedVmError { ptr: 0 }
    }
}

/// The error conditions that can be encountered in the enclave.
#[derive(Debug)]
pub enum EnclaveError {
    /// An outbound call to the host failed; `vm_error` is null unless the host
    /// itself raised an error.
    FailedOcall { vm_error: UntrustedVmError },
    /// The WASM code was invalid and could not be loaded.
    InvalidWasm,
    CannotInitializeWasmMemory,
    /// The WASM module contained a start section, which is not allowed.
    WasmModuleWithStart,
    /// The WASM module contained floating point operations, which is not allowed.
    WasmModuleWithFP,
    FailedGasMeteringInjection,
    OutOfGas,
    FailedFunctionCall,
    ContractPanicUnreachable,
    ContractPanicMemoryAccessOutOfBounds,
    ContractPanicTableAccessOutOfBounds,
    ContractPanicElemUninitialized,
    ContractPanicDivisionByZero,
    ContractPanicInvalidConversionToInt,
    ContractPanicStackOverflow,
    ContractPanicUnexpectedSignature,
    FailedSeal,
    FailedUnseal,
    /// The contract key is missing or malformed, or does not authenticate the contract.
    FailedContractAuthentication,
    FailedToDeserialize,
    FailedToSerialize,
    EncryptionError,
    DecryptionError,
    MemoryAllocationError,
    MemoryReadError,
    MemoryWriteError,
    UnauthorizedWrite,
    NotImplemented,
    /// The message is not bound to the code of the target contract.
    ValidationFailure,
    /// Neither a callback tag nor a signed transaction authenticates the call.
    FailedTxVerification,
    /// The key manager holds no key material yet.
    KeyManagerUnavailable,
    Panic,
    /// An unexpected error; used only where no specific kind applies.
    Unknown,
}

impl EnclaveError {
    /// A short human-readable description of the error.
    pub fn message(&self) -> (r: &'static str) {
        match self {
            EnclaveError::FailedOcall { .. } => "failed to execute ocall",
            EnclaveError::InvalidWasm => "tried to load invalid wasm code",
            EnclaveError::CannotInitializeWasmMemory => "failed to initialize wasm memory",
            EnclaveError::WasmModuleWithStart => "found start section in module code",
            EnclaveError::WasmModuleWithFP => "found floating point operation in module code",
            EnclaveError::FailedGasMeteringInjection => "failed to inject gas metering",
            EnclaveError::OutOfGas => "execution ran out of gas",
            EnclaveError::FailedFunctionCall => "calling a function in the contract failed for an unexpected reason",
            EnclaveError::ContractPanicUnreachable => "the contract panicked",
            EnclaveError::ContractPanicMemoryAccessOutOfBounds => "the contract tried to access memory out of bounds",
            EnclaveError::ContractPanicTableAccessOutOfBounds => "the contract tried to access a nonexistent resource",
            EnclaveError::ContractPanicElemUninitialized => "the contract tried to access an uninitialized resource",
            EnclaveError::ContractPanicDivisionByZero => "the contract tried to divide by zero",
            EnclaveError::ContractPanicInvalidConversionToInt => "the contract tried to perform an invalid conversion to an integer",
            EnclaveError::ContractPanicStackOverflow => "the contract has run out of space on the stack",
            EnclaveError::ContractPanicUnexpectedSignature => "the contract tried to call a function but expected an incorrect function signature",
            EnclaveError::FailedSeal => "failed to seal data",
            EnclaveError::FailedUnseal => "failed to unseal data",
            EnclaveError::FailedContractAuthentication => "failed to authenticate secret contract",
            EnclaveError::FailedToDeserialize => "failed to deserialize data",
            EnclaveError::FailedToSerialize => "failed to serialize data",
            EnclaveError::EncryptionError => "failed to encrypt data",
            EnclaveError::DecryptionError => "failed to decrypt data",
            EnclaveError::MemoryAllocationError => "failed to allocate memory",
            EnclaveError::MemoryReadError => "failed to read memory",
            EnclaveError::MemoryWriteError => "failed to write memory",
            EnclaveError::UnauthorizedWrite => "contract tried to write to storage during a query",
            EnclaveError::NotImplemented => "not implemented",
            EnclaveError::ValidationFailure => "failed to validate message",
            EnclaveError::FailedTxVerification => "failed to verify transaction signature",
            EnclaveError::KeyManagerUnavailable => "key manager is not initialized",
            EnclaveError::Panic => "panic'd due to unexpected behavior",
            EnclaveError::Unknown => "unknown error",
        }
    }
}

/// The outcome of authenticating a new node in the network.
#[derive(Debug, PartialEq, Eq, Structural)]
pub enum NodeAuthResult {
    Success,
    InvalidInput,
    InvalidCert,
    CantWriteToStorage,
    MalformedPublicKey,
    SeedEncryptionFailed,
    Panic,
}

/// The status returned by an outbound call to the host.
#[derive(Debug, PartialEq, Eq, Structural)]
pub enum OcallReturn {
    /// The call returned successfully.
    Success,
    /// The call failed; details may come back through out parameters.
    Failure,
    /// A panic happened during the call.
    Panic,
}

/// Length in bytes of the enclave's signature over a result (compact ECDSA, no
/// recovery byte).
pub const ENCLAVE_SIGNATURE_SIZE: usize = 64;

/// Returned from the init entry point.
pub enum InitResult {
    Success {
        /// The output of the calculation, owned by the host from here on.
        output: UserSpaceBuffer,
        /// The gas used by the execution.
        used_gas: u64,
        /// A signature by the enclave on all of the results.
        signature: [u8; ENCLAVE_SIGNATURE_SIZE],
    },
    Failure { err: EnclaveError },
}

/// Returned from the handle entry point.
pub enum HandleResult {
    Success {
        output: UserSpaceBuffer,
        used_gas: u64,
        signature: [u8; ENCLAVE_SIGNATURE_SIZE],
    },
    Failure { err: EnclaveError },
}

/// Returned from the query entry point.
pub enum QueryResult {
    Success {
        output: UserSpaceBuffer,
        used_gas: u64,
        signature: [u8; ENCLAVE_SIGNATURE_SIZE],
    },
    Failure { err: EnclaveError },
}

/// The error type of the secp256k1 library, carried inside `CryptoError`.
#[verifier::external_type_specification]
#[verifier::external_body]
pub struct ExSecp256k1Error(secp256k1::Error);

/// The error type of the random-number library, carried inside `CryptoError`.
#[verifier::external_type_specification]
#[verifier::external_body]
pub struct ExRandError(rand::Error);

/// Failures of the enclave's cryptographic operations.
#[allow(inconsistent_fields)]
pub enum CryptoError {
    /// The ECDH process failed.
    DerivingKeyError { self_key: [u8; 64], other_key: [u8; 64] },
    /// A key was missing.
    MissingKeyError { key_type: &'static str },
    /// Symmetric decryption failed.
    DecryptionError,
    /// The ciphertext was improper, e.g. the MAC was not valid or the IV was missing.
    ImproperEncryption,
    /// Symmetric encryption failed.
    EncryptionError,
    /// Signing failed.
    SigningError { hashed_msg: [u8; 32] },
    /// The signature could not be parsed.
    ParsingError { sig: [u8; 65] },
    /// The public key could not be recovered from the message and signature.
    RecoveryError { sig: [u8; 65] },
    /// A key was not valid.
    KeyError { key_type: &'static str, err: Option<secp256k1::Error> },
    /// The random-number generator failed.
    RandomError { err: rand::Error },
}

/// Returned from the key-generation entry point.
pub enum KeyGenResult {
    Success {
        output: UserSpaceBuffer,
        signature: [u8; ENCLAVE_SIGNATURE_SIZE],
    },
    Failure { err: CryptoError },
}

} // verus!
