//! What a validation pass asks of durable storage.

use vstd::prelude::*;
use crate::types::{Hash256, PublicKey};

verus! {

/// A failure of the underlying store. The message is carried along and never
/// interpreted.
#[derive(Debug, Clone, PartialEq, Eq)]
pub struct DBError {
    pub message: String,
}

/// The storage that a validation pass reads. What a lookup answers is up to
/// the store, and may differ from one call to the next.
pub trait ClientDB {
    /// Whether a block with this hash is known.
    fn block_exists(&self, hash: &Hash256) -> Result<bool, DBError>;

    /// The public key that is stored for a validator, if there is one.
    fn public_key(&self, validator_index: usize) -> Result<Option<PublicKey>, DBError>;
}

} // verus!
