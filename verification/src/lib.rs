//! Validation of attestation records against a node's view of the chain.

pub mod attestation_validation;
pub mod attester_map;
pub mod bitfield;
pub mod db;
pub mod protocol;
pub mod types;
