//! The rules that an attestation must meet to be counted, in the order in
//! which they are applied.

use vstd::prelude::*;
use vstd::std_specs::convert::FromSpec;
use crate::db::{ClientDB, DBError};
use crate::protocol::{ParentHashesError, Protocol, SignatureVerificationError};
use crate::types::{AggregateSignature, AttestationRecord, Hash256};
use crate::bitfield::{has_bit, lemma_no_bit_past_logical_length, logical_length, Bitfield};
use crate::attester_map::AttesterMap;
use std::sync::Arc;
use std::collections::HashSet;

verus! {

/// Every reason for which an attestation is turned down.
#[derive(Debug, PartialEq)]
pub enum AttestationValidationError {
    SlotTooHigh,
    SlotTooLow,
    JustifiedSlotIncorrect,
    UnknownJustifiedBlock,
    TooManyObliqueHashes,
    BadCurrentHashes,
    BadObliqueHashes,
    BadAttesterMap,
    IntWrapping,
    PublicKeyCorrupt,
    NoPublicKeyForValidator,
    BadBitfieldLength,
    InvalidBitfield,
    InvalidBitfieldEndBits,
    NoSignatures,
    NonZeroTrailingBits,
    BadAggregateSignature,
    DBError(String),
}

impl From<ParentHashesError> for AttestationValidationError {
    fn from(e: ParentHashesError) -> (r: Self) {
        match e {
            ParentHashesError::BadCurrentHashes => AttestationValidationError::BadCurrentHashes,
            ParentHashesError::BadObliqueHashes => AttestationValidationError::BadObliqueHashes,
            ParentHashesError::SlotTooLow => AttestationValidationError::SlotTooLow,
            ParentHashesError::SlotTooHigh => AttestationValidationError::SlotTooHigh,
            ParentHashesError::IntWrapping => AttestationValidationError::IntWrapping,
        }
    }
}

impl vstd::std_specs::convert::FromSpecImpl<ParentHashesError> for AttestationValidationError {
    open spec fn obeys_from_spec() -> bool {
        true
    }

    open spec fn from_spec(e: ParentHashesError) -> Self {
        match e {
            ParentHashesError::BadCurrentHashes => AttestationValidationError::BadCurrentHashes,
            ParentHashesError::BadObliqueHashes => AttestationValidationError::BadObliqueHashes,
            ParentHashesError::SlotTooLow => AttestationValidationError::SlotTooLow,
            ParentHashesError::SlotTooHigh => AttestationValidationError::SlotTooHigh,
            ParentHashesError::IntWrapping => AttestationValidationError::IntWrapping,
        }
    }
}

impl From<DBError> for AttestationValidationError {
    fn from(e: DBError) -> (r: Self) {
        AttestationValidationError::DBError(e.message)
    }
}

impl vstd::std_specs::convert::FromSpecImpl<DBError> for AttestationValidationError {
    open spec fn obeys_from_spec() -> bool {
        true
    }

    open spec fn from_spec(e: DBError) -> Self {
        AttestationValidationError::DBError(e.message)
    }
}

impl From<SignatureVerificationError> for AttestationValidationError {
    fn from(e: SignatureVerificationError) -> (r: Self) {
        match e {
            SignatureVerificationError::BadValidatorIndex => AttestationValidationError::BadAttesterMap,
            SignatureVerificationError::PublicKeyCorrupt => AttestationValidationError::PublicKeyCorrupt,
            SignatureVerificationError::NoPublicKeyForValidator => {
                AttestationValidationError::NoPublicKeyForValidator
            },
            SignatureVerificationError::DBError(s) => AttestationValidationError::DBError(s),
        }
    }
}

impl vstd::std_specs::convert::FromSpecImpl<SignatureVerificationError> for AttestationValidationError {
    open spec fn obeys_from_spec() -> bool {
        true
    }

    open spec fn from_spec(e: SignatureVerificationError) -> Self {
        match e {
            SignatureVerificationError::BadValidatorIndex => AttestationValidationError::BadAttesterMap,
            SignatureVerificationError::PublicKeyCorrupt => AttestationValidationError::PublicKeyCorrupt,
            SignatureVerificationError::NoPublicKeyForValidator => {
                AttestationValidationError::NoPublicKeyForValidator
            },
            SignatureVerificationError::DBError(s) => AttestationValidationError::DBError(s),
        }
    }
}

/// The number of whole bytes that a bit vector of `bits` bits is packed into.
pub open spec fn bytes_needed(bits: nat) -> nat {
    (bits + 7) / 8
}

/// The byte length of the canonical encoding of a bitfield with one bit for
/// each of `bits` committee members: the least number of bytes that holds
/// them all.
pub fn bytes_for_bits(bits: usize) -> (bytes: usize)
    ensures
        bytes == bytes_needed(bits as nat),
        8 * bytes >= bits,
        bytes > 0 ==> 8 * (bytes - 1) < bits,
{
    if bits % 8 == 0 {
        bits / 8
    } else {
        bits / 8 + 1
    }
}

/// The answers of the block store and of the protocol that one validation
/// pass may come to hear.
pub ghost struct Answers {
    /// Whether the justified block is known.
    pub justified_block: Result<bool, DBError>,
    /// The ancestor hashes that the attestation commits to.
    pub parent_hashes: Result<Vec<Hash256>, ParentHashesError>,
    /// The bytes that the attesters signed.
    pub signed_message: Vec<u8>,
    /// The committee members that signed, or `None` for a signature that does
    /// not match.
    pub signature: Result<Option<HashSet<usize>>, SignatureVerificationError>,
}

/// An unknown justified block ends the pass, and so does a store that fails.
pub open spec fn justified_block_verdict(answer: Result<bool, DBError>) -> Result<
    (),
    AttestationValidationError,
> {
    match answer {
        Err(e) => Err(AttestationValidationError::from_spec(e)),
        Ok(known) => if known {
            Ok(())
        } else {
            Err(AttestationValidationError::UnknownJustifiedBlock)
        },
    }
}

/// Ancestor hashes that cannot be resolved end the pass.
pub open spec fn parent_hashes_verdict(answer: Result<Vec<Hash256>, ParentHashesError>) -> Result<
    Vec<Hash256>,
    AttestationValidationError,
> {
    match answer {
        Err(e) => Err(AttestationValidationError::from_spec(e)),
        Ok(hashes) => Ok(hashes),
    }
}

/// The signers are the result of the pass. A signature that does not match is
/// an error of its own, apart from a match that no member signed.
pub open spec fn signature_verdict(
    answer: Result<Option<HashSet<usize>>, SignatureVerificationError>,
) -> Result<HashSet<usize>, AttestationValidationError> {
    match answer {
        Err(e) => Err(AttestationValidationError::from_spec(e)),
        Ok(None) => Err(AttestationValidationError::BadAggregateSignature),
        Ok(Some(voters)) => Ok(voters),
    }
}

/// What a pass that has met every structural rule comes to, given what it was
/// answered: the first answer that ends it decides.
pub open spec fn conclusion(answers: Answers) -> Result<HashSet<usize>, AttestationValidationError> {
    match justified_block_verdict(answers.justified_block) {
        Err(e) => Err(e),
        Ok(_) => match parent_hashes_verdict(answers.parent_hashes) {
            Err(e) => Err(e),
            Ok(_) => signature_verdict(answers.signature),
        },
    }
}

/// Turns the block store's answer into the verdict on the justified block.
pub fn check_justified_block(answer: Result<bool, DBError>) -> (verdict: Result<
    (),
    AttestationValidationError,
>)
    ensures
        verdict == justified_block_verdict(answer),
{
    match answer {
        Err(e) => Err(AttestationValidationError::from(e)),
        Ok(false) => Err(AttestationValidationError::UnknownJustifiedBlock),
        Ok(true) => Ok(()),
    }
}

/// Turns the outcome of resolving the ancestor hashes into the verdict on
/// them.
pub fn check_parent_hashes(answer: Result<Vec<Hash256>, ParentHashesError>) -> (verdict: Result<
    Vec<Hash256>,
    AttestationValidationError,
>)
    ensures
        verdict == parent_hashes_verdict(answer),
{
    match answer {
        Err(e) => Err(AttestationValidationError::from(e)),
        Ok(hashes) => Ok(hashes),
    }
}

/// Turns the outcome of checking the aggregate signature into the result of
/// the pass.
pub fn check_signature(
    answer: Result<Option<HashSet<usize>>, SignatureVerificationError>,
) -> (verdict: Result<HashSet<usize>, AttestationValidationError>)
    ensures
        verdict == signature_verdict(answer),
{
    match answer {
        Err(e) => Err(AttestationValidationError::from(e)),
        Ok(None) => Err(AttestationValidationError::BadAggregateSignature),
        Ok(Some(voters)) => Ok(voters),
    }
}

/// The node's view of the chain at one block, against which the attestations
/// that the block carries are validated. Nothing in it changes while it is in
/// use.
pub struct AttestationValidationContext<T, P> where T: ClientDB, P: Protocol {
    /// The slot of the block that carries the attestations.
    pub block_slot: u64,
    /// The number of slots after which the committees rotate.
    pub cycle_length: u8,
    /// The last slot that the node holds to be justified.
    pub last_justified_slot: u64,
    /// The canonical ancestor hashes, ending at the block.
    pub parent_hashes: Arc<Vec<Hash256>>,
    /// Where blocks are looked up.
    pub block_store: Arc<T>,
    /// Where the public keys of validators are looked up.
    pub validator_store: Arc<T>,
    /// The committee of every slot and shard.
    pub attester_map: Arc<AttesterMap>,
    /// The protocol's own computations.
    pub protocol: Arc<P>,
}

impl<T, P> AttestationValidationContext<T, P> where T: ClientDB, P: Protocol {
    /// The earliest slot whose attestations the block may carry: one cycle
    /// and one slot before its own, and no earlier than slot zero.
    pub open spec fn lowest_slot(&self) -> int {
        if self.block_slot >= self.cycle_length + 1 {
            self.block_slot - (self.cycle_length + 1)
        } else {
            0
        }
    }

    /// The first structural rule that the attestation breaks, as the error
    /// that names it, or `None` where it meets them all. The rules read the
    /// attestation and the context only.
    pub open spec fn first_violation(&self, a: &AttestationRecord) -> Option<
        AttestationValidationError,
    > {
        let committees = self.attester_map@;
        let key = (a.slot, a.shard_id);
        if a.slot > self.block_slot {
            Some(AttestationValidationError::SlotTooHigh)
        } else if a.slot < self.lowest_slot() {
            Some(AttestationValidationError::SlotTooLow)
        } else if a.justified_slot != self.last_justified_slot {
            Some(AttestationValidationError::JustifiedSlotIncorrect)
        } else if a.oblique_parent_hashes@.len() > self.cycle_length {
            Some(AttestationValidationError::TooManyObliqueHashes)
        } else if !committees.contains_key(key) {
            Some(AttestationValidationError::BadAttesterMap)
        } else if a.attester_bitfield@.len() != bytes_needed(committees[key].len()) {
            Some(AttestationValidationError::BadBitfieldLength)
        } else if logical_length(a.attester_bitfield@) > committees[key].len() {
            Some(AttestationValidationError::InvalidBitfieldEndBits)
        } else {
            None
        }
    }

    /// Whether `answers` holds what the block store and the protocol may
    /// answer to the questions that a pass over `a` puts to them. Each
    /// question is fixed by the context, the attestation and the answers
    /// before it, and is put only where those answers let the pass go on.
    pub open spec fn may_answer(&self, a: &AttestationRecord, answers: Answers) -> bool {
        &&& call_ensures(
            T::block_exists,
            (&*self.block_store, &a.justified_block_hash),
            answers.justified_block,
        )
        &&& justified_block_verdict(answers.justified_block) is Ok ==> call_ensures(
            P::attestation_parent_hashes,
            (
                &*self.protocol,
                self.cycle_length,
                self.block_slot,
                a.slot,
                &*self.parent_hashes,
                &a.oblique_parent_hashes,
            ),
            answers.parent_hashes,
        )
        &&& justified_block_verdict(answers.justified_block) is Ok ==> (answers.parent_hashes matches Ok(
            hashes,
        ) ==> {
            &&& self.attester_map.spec_get(a.slot, a.shard_id) matches Some(committee)
            &&& call_ensures(
                P::generate_signed_message,
                (
                    &*self.protocol,
                    a.slot,
                    &hashes,
                    a.shard_id,
                    &a.shard_block_hash,
                    a.justified_slot,
                ),
                answers.signed_message,
            )
            &&& call_ensures(
                P::verify_aggregate_signature_for_indices::<T>,
                (
                    &*self.protocol,
                    &answers.signed_message,
                    &a.aggregate_sig,
                    &committee,
                    &a.attester_bitfield,
                    &*self.validator_store,
                ),
                answers.signature,
            )
        })
    }

    /// Whether `result` is one that validating `a` may give. An attestation
    /// that breaks a structural rule gets the error of the first rule it
    /// breaks. For any other, the result is what the answers of the store and
    /// the protocol come to.
    pub open spec fn admits(
        &self,
        a: &AttestationRecord,
        result: Result<HashSet<usize>, AttestationValidationError>,
    ) -> bool {
        match self.first_violation(a) {
            Some(e) => result == Err::<HashSet<usize>, AttestationValidationError>(e),
            None => exists|answers: Answers| #[trigger]
                self.may_answer(a, answers) && result == conclusion(answers),
        }
    }

    /// Validates an attestation that the block carries, and gives the
    /// committee members that signed it. The rules are applied in a fixed
    /// order and the first one that fails decides the error; the store and
    /// the protocol are consulted only once the structural rules are met.
    pub fn validate_attestation(&self, a: &AttestationRecord) -> (result: Result<
        HashSet<usize>,
        AttestationValidationError,
    >)
        ensures
            self.admits(a, result),
    {
        // The attestation must not be for a later slot than the block that
        // carries it.
        if a.slot > self.block_slot {
            return Err(AttestationValidationError::SlotTooHigh);
        }

        // Nor for a slot more than a cycle and one slot before it.
        if a.slot < self.block_slot.saturating_sub(u64::from(self.cycle_length).saturating_add(1)) {
            return Err(AttestationValidationError::SlotTooLow);
        }

        // The attesters must agree with the node on the last justified slot.
        if a.justified_slot != self.last_justified_slot {
            return Err(AttestationValidationError::JustifiedSlotIncorrect);
        }

        // There is never a need for more oblique hashes than a cycle has
        // slots.
        if a.oblique_parent_hashes.len() > usize::from(self.cycle_length) {
            return Err(AttestationValidationError::TooManyObliqueHashes);
        }

        // The committee gives the validator that each bit stands for.
        let attestation_indices = match self.attester_map.get(a.slot, a.shard_id) {
            Some(committee) => committee,
            None => {
                return Err(AttestationValidationError::BadAttesterMap);
            },
        };

        // The bitfield must take exactly the bytes that the committee needs.
        if a.attester_bitfield.num_bytes() != bytes_for_bits(attestation_indices.len()) {
            return Err(AttestationValidationError::BadBitfieldLength);
        }

        // A bit past the last member would give one attestation two encodings.
        if a.attester_bitfield.len() > attestation_indices.len() {
            return Err(AttestationValidationError::InvalidBitfieldEndBits);
        }
        assert(self.first_violation(a) is None);

        // The justified block must be known to the store.
        let block_answer = self.block_store.block_exists(&a.justified_block_hash);
        let ghost justified_block = block_answer;
        if let Err(e) = check_justified_block(block_answer) {
            proof {
                let answers = Answers {
                    justified_block,
                    parent_hashes: arbitrary(),
                    signed_message: arbitrary(),
                    signature: arbitrary(),
                };
                assert(self.may_answer(a, answers));
            }
            return Err(e);
        }

        // The attesters signed the ancestor hashes as they saw them.
        let hashes_answer = self.protocol.attestation_parent_hashes(
            self.cycle_length,
            self.block_slot,
            a.slot,
            &self.parent_hashes,
            &a.oblique_parent_hashes,
        );
        let ghost parent_hashes = hashes_answer;
        let hashes = match check_parent_hashes(hashes_answer) {
            Ok(hashes) => hashes,
            Err(e) => {
                proof {
                    let answers = Answers {
                        justified_block,
                        parent_hashes,
                        signed_message: arbitrary(),
                        signature: arbitrary(),
                    };
                    assert(self.may_answer(a, answers));
                }
                return Err(e);
            },
        };
        let signed_message = self.protocol.generate_signed_message(
            a.slot,
            &hashes,
            a.shard_id,
            &a.shard_block_hash,
            a.justified_slot,
        );
        let signature_answer = self.protocol.verify_aggregate_signature_for_indices(
            &signed_message,
            &a.aggregate_sig,
            attestation_indices,
            &a.attester_bitfield,
            &*self.validator_store,
        );
        proof {
            let answers = Answers {
                justified_block,
                parent_hashes,
                signed_message,
                signature: signature_answer,
            };
            assert(self.may_answer(a, answers));
        }

        // A signature that does not match is an error; a match gives the
        // members that signed.
        check_signature(signature_answer)
    }
}

/// Whether the block store answers one question in one way only.
pub open spec fn store_is_determined<T: ClientDB>() -> bool {
    forall|store: &T, hash: &Hash256, first: Result<bool, DBError>, second: Result<bool, DBError>|
        #![trigger call_ensures(T::block_exists, (store, hash), first), call_ensures(T::block_exists, (store, hash), second)]
        call_ensures(T::block_exists, (store, hash), first) && call_ensures(
            T::block_exists,
            (store, hash),
            second,
        ) ==> first == second
}

/// Whether the protocol answers one question in one way only.
pub open spec fn protocol_is_determined<T: ClientDB, P: Protocol>() -> bool {
    &&& forall|
        args: (&P, u8, u64, u64, &Vec<Hash256>, &Vec<Hash256>),
        first: Result<Vec<Hash256>, ParentHashesError>,
        second: Result<Vec<Hash256>, ParentHashesError>,
    |
        #![trigger call_ensures(P::attestation_parent_hashes, args, first), call_ensures(P::attestation_parent_hashes, args, second)]
        call_ensures(P::attestation_parent_hashes, args, first) && call_ensures(
            P::attestation_parent_hashes,
            args,
            second,
        ) ==> first == second
    &&& forall|args: (&P, u64, &Vec<Hash256>, u16, &Hash256, u64), first: Vec<u8>, second: Vec<u8>|
        #![trigger call_ensures(P::generate_signed_message, args, first), call_ensures(P::generate_signed_message, args, second)]
        call_ensures(P::generate_signed_message, args, first) && call_ensures(
            P::generate_signed_message,
            args,
            second,
        ) ==> first == second
    &&& forall|
        args: (&P, &Vec<u8>, &AggregateSignature, &Vec<usize>, &Bitfield, &T),
        first: Result<Option<HashSet<usize>>, SignatureVerificationError>,
        second: Result<Option<HashSet<usize>>, SignatureVerificationError>,
    |
        #![trigger call_ensures(P::verify_aggregate_signature_for_indices::<T>, args, first), call_ensures(P::verify_aggregate_signature_for_indices::<T>, args, second)]
        call_ensures(P::verify_aggregate_signature_for_indices::<T>, args, first) && call_ensures(
            P::verify_aggregate_signature_for_indices::<T>,
            args,
            second,
        ) ==> first == second
}

/// Among the attestations that got as far as the signature check, a signature
/// that does not match gives `BadAggregateSignature` and nothing else does,
/// while a match gives the members that signed, also where none did.
pub proof fn lemma_mismatch_differs_from_empty_match(answers: Answers)
    requires
        justified_block_verdict(answers.justified_block) is Ok,
        answers.parent_hashes is Ok,
    ensures
        answers.signature == Ok::<Option<HashSet<usize>>, SignatureVerificationError>(None)
            <==> conclusion(answers) == Err::<HashSet<usize>, AttestationValidationError>(
            AttestationValidationError::BadAggregateSignature,
        ),
        answers.signature matches Ok(Some(voters)) ==> conclusion(answers) == Ok::<
            HashSet<usize>,
            AttestationValidationError,
        >(voters),
        conclusion(answers) is Ok <==> answers.signature matches Ok(Some(_)),
{
}

impl<T, P> AttestationValidationContext<T, P> where T: ClientDB, P: Protocol {
    /// An attestation for a later slot than the block's is turned down with
    /// `SlotTooHigh`, whatever else it holds.
    pub proof fn lemma_later_slot_is_too_high(
        &self,
        a: &AttestationRecord,
        result: Result<HashSet<usize>, AttestationValidationError>,
    )
        requires
            a.slot > self.block_slot,
            self.admits(a, result),
        ensures
            result == Err::<HashSet<usize>, AttestationValidationError>(
                AttestationValidationError::SlotTooHigh,
            ),
    {
    }

    /// An attestation for a slot more than a cycle and one slot before the
    /// block's is turned down with `SlotTooLow`, whatever else it holds.
    pub proof fn lemma_stale_slot_is_too_low(
        &self,
        a: &AttestationRecord,
        result: Result<HashSet<usize>, AttestationValidationError>,
    )
        requires
            a.slot < self.lowest_slot(),
            self.admits(a, result),
        ensures
            result == Err::<HashSet<usize>, AttestationValidationError>(
                AttestationValidationError::SlotTooLow,
            ),
    {
    }

    /// An attestation for an admissible slot that names another justified
    /// slot than the node's is turned down with `JustifiedSlotIncorrect`,
    /// whatever the committees are.
    pub proof fn lemma_other_justified_slot_is_incorrect(
        &self,
        a: &AttestationRecord,
        result: Result<HashSet<usize>, AttestationValidationError>,
    )
        requires
            self.lowest_slot() <= a.slot <= self.block_slot,
            a.justified_slot != self.last_justified_slot,
            self.admits(a, result),
        ensures
            result == Err::<HashSet<usize>, AttestationValidationError>(
                AttestationValidationError::JustifiedSlotIncorrect,
            ),
    {
    }

    /// An attestation that is in order as to its slots and carries more
    /// oblique hashes than a cycle has slots is turned down with
    /// `TooManyObliqueHashes`, whatever the committees and the store hold.
    pub proof fn lemma_excess_oblique_hashes_are_too_many(
        &self,
        a: &AttestationRecord,
        result: Result<HashSet<usize>, AttestationValidationError>,
    )
        requires
            self.lowest_slot() <= a.slot <= self.block_slot,
            a.justified_slot == self.last_justified_slot,
            a.oblique_parent_hashes@.len() > self.cycle_length,
            self.admits(a, result),
        ensures
            result == Err::<HashSet<usize>, AttestationValidationError>(
                AttestationValidationError::TooManyObliqueHashes,
            ),
    {
    }

    /// An attestation that is in order so far, for a slot and shard without a
    /// committee, is turned down with `BadAttesterMap`, whatever its bitfield
    /// and its signature are.
    pub proof fn lemma_missing_committee_is_bad_attester_map(
        &self,
        a: &AttestationRecord,
        result: Result<HashSet<usize>, AttestationValidationError>,
    )
        requires
            self.lowest_slot() <= a.slot <= self.block_slot,
            a.justified_slot == self.last_justified_slot,
            a.oblique_parent_hashes@.len() <= self.cycle_length,
            !self.attester_map@.contains_key((a.slot, a.shard_id)),
            self.admits(a, result),
        ensures
            result == Err::<HashSet<usize>, AttestationValidationError>(
                AttestationValidationError::BadAttesterMap,
            ),
    {
    }

    /// An attestation that is in order so far, with a bitfield of any other
    /// byte length than the least that holds a bit for each member of its
    /// committee, is turned down with `BadBitfieldLength`.
    pub proof fn lemma_other_byte_length_is_bad(
        &self,
        a: &AttestationRecord,
        result: Result<HashSet<usize>, AttestationValidationError>,
    )
        requires
            self.lowest_slot() <= a.slot <= self.block_slot,
            a.justified_slot == self.last_justified_slot,
            a.oblique_parent_hashes@.len() <= self.cycle_length,
            self.attester_map@.contains_key((a.slot, a.shard_id)),
            a.attester_bitfield@.len() != bytes_needed(
                self.attester_map@[(a.slot, a.shard_id)].len(),
            ),
            self.admits(a, result),
        ensures
            result == Err::<HashSet<usize>, AttestationValidationError>(
                AttestationValidationError::BadBitfieldLength,
            ),
    {
    }

    /// An attestation that is in order so far, with a bitfield of the right
    /// byte length whose logical length exceeds the size of its committee, is
    /// turned down with `InvalidBitfieldEndBits`.
    pub proof fn lemma_longer_bitfield_has_invalid_end_bits(
        &self,
        a: &AttestationRecord,
        result: Result<HashSet<usize>, AttestationValidationError>,
    )
        requires
            self.lowest_slot() <= a.slot <= self.block_slot,
            a.justified_slot == self.last_justified_slot,
            a.oblique_parent_hashes@.len() <= self.cycle_length,
            self.attester_map@.contains_key((a.slot, a.shard_id)),
            a.attester_bitfield@.len() == bytes_needed(
                self.attester_map@[(a.slot, a.shard_id)].len(),
            ),
            logical_length(a.attester_bitfield@) > self.attester_map@[(a.slot, a.shard_id)].len(),
            self.admits(a, result),
        ensures
            result == Err::<HashSet<usize>, AttestationValidationError>(
                AttestationValidationError::InvalidBitfieldEndBits,
            ),
    {
    }

    /// In an attestation that meets the structural rules, every set bit of
    /// the bitfield stands for a member of the committee: no bit at or past
    /// the committee's size is set.
    pub proof fn lemma_set_bits_stand_for_members(&self, a: &AttestationRecord, i: int)
        requires
            self.first_violation(a) is None,
            has_bit(a.attester_bitfield@, i),
        ensures
            0 <= i < self.attester_map@[(a.slot, a.shard_id)].len(),
    {
        if i >= self.attester_map@[(a.slot, a.shard_id)].len() {
            lemma_no_bit_past_logical_length(a.attester_bitfield@, i);
        }
    }

    /// Validation adds no choice of its own: where the store and the protocol
    /// answer each question in one way only, any two results of validating
    /// one attestation against one context are the same.
    pub proof fn lemma_validation_is_repeatable(
        &self,
        a: &AttestationRecord,
        first: Result<HashSet<usize>, AttestationValidationError>,
        second: Result<HashSet<usize>, AttestationValidationError>,
    )
        requires
            store_is_determined::<T>(),
            protocol_is_determined::<T, P>(),
            self.admits(a, first),
            self.admits(a, second),
        ensures
            first == second,
    {
        if self.first_violation(a) is None {
            let x = choose|x: Answers| #[trigger] self.may_answer(a, x) && first == conclusion(x);
            let y = choose|y: Answers| #[trigger] self.may_answer(a, y) && second == conclusion(y);
            assert(x.justified_block == y.justified_block);
            if justified_block_verdict(x.justified_block) is Ok {
                assert(x.parent_hashes == y.parent_hashes);
                if x.parent_hashes is Ok {
                    assert(x.signed_message == y.signed_message);
                    assert(x.signature == y.signature);
                }
            }
        }
    }
}

} // verus!
