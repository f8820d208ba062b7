//! Contract identity derivation and message authentication for a confidential
//! smart-contract enclave, with the types that cross the enclave boundary.
pub mod crypto;
pub mod encoding;
pub mod ffi_types;
pub mod types;
pub mod contract_validation;
pub mod lemmas;
