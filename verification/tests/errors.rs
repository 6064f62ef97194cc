use std::collections::HashSet;

use validation::attestation_validation::{
    check_justified_block, check_parent_hashes, check_signature, AttestationValidationError,
};
use validation::db::DBError;
use validation::protocol::{ParentHashesError, SignatureVerificationError};
use validation::types::Hash256;

#[test]
fn parent_hashes_errors_keep_their_names() {
    assert_eq!(
        AttestationValidationError::from(ParentHashesError::BadCurrentHashes),
        AttestationValidationError::BadCurrentHashes
    );
    assert_eq!(
        AttestationValidationError::from(ParentHashesError::BadObliqueHashes),
        AttestationValidationError::BadObliqueHashes
    );
    assert_eq!(
        AttestationValidationError::from(ParentHashesError::SlotTooLow),
        AttestationValidationError::SlotTooLow
    );
    assert_eq!(
        AttestationValidationError::from(ParentHashesError::SlotTooHigh),
        AttestationValidationError::SlotTooHigh
    );
    assert_eq!(
        AttestationValidationError::from(ParentHashesError::IntWrapping),
        AttestationValidationError::IntWrapping
    );
}

#[test]
fn store_error_carries_its_message() {
    let e = DBError { message: String::from("disk on fire") };
    assert_eq!(
        AttestationValidationError::from(e),
        AttestationValidationError::DBError(String::from("disk on fire"))
    );
    let empty = DBError { message: String::new() };
    assert_eq!(
        AttestationValidationError::from(empty),
        AttestationValidationError::DBError(String::new())
    );
}

#[test]
fn signature_errors_are_mapped() {
    assert_eq!(
        AttestationValidationError::from(SignatureVerificationError::BadValidatorIndex),
        AttestationValidationError::BadAttesterMap
    );
    assert_eq!(
        AttestationValidationError::from(SignatureVerificationError::PublicKeyCorrupt),
        AttestationValidationError::PublicKeyCorrupt
    );
    assert_eq!(
        AttestationValidationError::from(SignatureVerificationError::NoPublicKeyForValidator),
        AttestationValidationError::NoPublicKeyForValidator
    );
    assert_eq!(
        AttestationValidationError::from(SignatureVerificationError::DBError(String::from(
            "no such column"
        ))),
        AttestationValidationError::DBError(String::from("no such column"))
    );
}

#[test]
fn known_justified_block_lets_the_pass_go_on() {
    assert_eq!(check_justified_block(Ok(true)), Ok(()));
}

#[test]
fn unknown_justified_block_ends_the_pass() {
    assert_eq!(
        check_justified_block(Ok(false)),
        Err(AttestationValidationError::UnknownJustifiedBlock)
    );
}

#[test]
fn failing_store_ends_the_pass_with_its_message() {
    assert_eq!(
        check_justified_block(Err(DBError { message: String::from("timeout") })),
        Err(AttestationValidationError::DBError(String::from("timeout")))
    );
}

#[test]
fn resolved_hashes_are_handed_on_unchanged() {
    let hashes = vec![Hash256 { bytes: [1; 32] }, Hash256 { bytes: [2; 32] }];
    assert_eq!(check_parent_hashes(Ok(hashes.clone())), Ok(hashes));
    assert_eq!(check_parent_hashes(Ok(vec![])), Ok(vec![]));
}

#[test]
fn unresolved_hashes_end_the_pass() {
    assert_eq!(
        check_parent_hashes(Err(ParentHashesError::BadCurrentHashes)),
        Err(AttestationValidationError::BadCurrentHashes)
    );
    assert_eq!(
        check_parent_hashes(Err(ParentHashesError::IntWrapping)),
        Err(AttestationValidationError::IntWrapping)
    );
}

#[test]
fn signers_are_the_result() {
    let voters: HashSet<usize> = [3, 9].into_iter().collect();
    assert_eq!(check_signature(Ok(Some(voters.clone()))), Ok(voters));
}

#[test]
fn mismatch_is_an_error_and_an_empty_match_is_not() {
    assert_eq!(check_signature(Ok(None)), Err(AttestationValidationError::BadAggregateSignature));
    assert_eq!(check_signature(Ok(Some(HashSet::new()))), Ok(HashSet::new()));
}

#[test]
fn verifier_faults_end_the_pass() {
    assert_eq!(
        check_signature(Err(SignatureVerificationError::BadValidatorIndex)),
        Err(AttestationValidationError::BadAttesterMap)
    );
    assert_eq!(
        check_signature(Err(SignatureVerificationError::DBError(String::from("gone")))),
        Err(AttestationValidationError::DBError(String::from("gone")))
    );
}
