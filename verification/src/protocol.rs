//! The computations that the protocol defines and a validation pass
//! delegates.

use vstd::prelude::*;
use std::collections::HashSet;
use crate::attestation_validation::bytes_needed;
use crate::bitfield::{logical_length, Bitfield};
use crate::db::ClientDB;
use crate::types::{AggregateSignature, Hash256};

verus! {

/// Why the ancestor hashes that an attestation commits to could not be
/// resolved.
#[derive(Debug, Clone, Copy, PartialEq, Eq)]
pub enum ParentHashesError {
    BadCurrentHashes,
    BadObliqueHashes,
    SlotTooLow,
    SlotTooHigh,
    IntWrapping,
}

/// Why the signers of an aggregate signature could not be determined. This is
/// distinct from a signature that was checked and did not match.
#[derive(Debug, Clone, PartialEq, Eq)]
pub enum SignatureVerificationError {
    BadValidatorIndex,
    PublicKeyCorrupt,
    NoPublicKeyForValidator,
    DBError(String),
}

/// The protocol's own computations. A validation pass calls them only with
/// arguments that have passed its structural rules, which the preconditions
/// record.
pub trait Protocol {
    /// The ancestor hashes that an attestation for `attestation_slot` commits
    /// to: canonical hashes from the window that ends at the block, with the
    /// oblique hashes in place of those the attester saw otherwise.
    fn attestation_parent_hashes(
        &self,
        cycle_length: u8,
        block_slot: u64,
        attestation_slot: u64,
        current_hashes: &Vec<Hash256>,
        oblique_hashes: &Vec<Hash256>,
    ) -> Result<Vec<Hash256>, ParentHashesError>
        requires
            attestation_slot <= block_slot,
            block_slot <= attestation_slot + cycle_length + 1,
            oblique_hashes@.len() <= cycle_length,
    ;

    /// The bytes that the attesters signed.
    fn generate_signed_message(
        &self,
        slot: u64,
        parent_hashes: &Vec<Hash256>,
        shard_id: u16,
        shard_block_hash: &Hash256,
        justified_slot: u64,
    ) -> Vec<u8>;

    /// Checks the aggregate signature against the keys of the committee
    /// members whose bit is set. `None` says that the signature does not
    /// match; otherwise the members that signed are handed back.
    fn verify_aggregate_signature_for_indices<T: ClientDB>(
        &self,
        message: &Vec<u8>,
        agg_sig: &AggregateSignature,
        attestation_indices: &Vec<usize>,
        bitfield: &Bitfield,
        validator_store: &T,
    ) -> Result<Option<HashSet<usize>>, SignatureVerificationError>
        requires
            bitfield@.len() == bytes_needed(attestation_indices@.len()),
            logical_length(bitfield@) <= attestation_indices@.len(),
    ;
}

} // verus!
