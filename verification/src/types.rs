//! The plain data that a validation pass reads.

use vstd::prelude::*;
use crate::bitfield::Bitfield;

verus! {

/// A 256-bit hash.
#[derive(Debug, Clone, Copy, PartialEq, Eq, Hash)]
pub struct Hash256 {
    pub bytes: [u8; 32],
}

/// An aggregate signature as it arrived, not yet checked against any key.
#[derive(Debug, Clone, PartialEq, Eq)]
pub struct AggregateSignature {
    pub bytes: Vec<u8>,
}

/// The stored form of a validator's public key.
#[derive(Debug, Clone, PartialEq, Eq)]
pub struct PublicKey {
    pub bytes: Vec<u8>,
}

/// The vote of a committee on a slot, a shard and a block.
#[derive(Debug, Clone, PartialEq)]
pub struct AttestationRecord {
    pub slot: u64,
    pub shard_id: u16,
    pub oblique_parent_hashes: Vec<Hash256>,
    pub shard_block_hash: Hash256,
    pub attester_bitfield: Bitfield,
    pub justified_slot: u64,
    pub justified_block_hash: Hash256,
    pub aggregate_sig: AggregateSignature,
}

} // verus!
