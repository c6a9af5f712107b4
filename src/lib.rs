//! An attestation registry: binds an analysis identifier and two content
//! hashes to the signer who submitted them, at a trusted point in time, in a
//! record whose storage address anyone can derive from the identifier.
pub mod address;
pub mod attestation;

pub use address::attestation_seed_vec;
pub use address::find_attestation_address;
pub use address::MAX_SEED_LEN;
pub use attestation::attest_analysis;
pub use attestation::Account;
pub use attestation::AttestAnalysis;
pub use attestation::Attestation;
pub use attestation::AttestationCreated;
pub use attestation::ErrorCode;
pub use attestation::Registry;
pub use attestation::ATTESTATION_SPACE;
pub use attestation::HASH_HEX_LEN;
pub use attestation::MAX_ANALYSIS_ID_LEN;
