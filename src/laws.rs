//! Properties of validation that relate several steps, proved over the
//! contracts of the functions involved.

use crate::assumptions::{
    searched_assumptions, AssumptionCheckOutcome, AssumptionSearch, SearchStage,
};
use crate::chain_state::{outputs_checked, resolution};
use crate::exhaustive::execution_verdict;
use crate::primitives::{
    head_hash, pvd_hash, CandidateDescriptor, CandidateCommitments, InvalidCandidate,
    PersistedValidationData, RuntimeApiError, ValidationCode, ValidationError, ValidationFailed,
    ValidationResult, WasmValidationResult,
};
use vstd::prelude::*;

verus! {

/// Two answers are the same verdict, equal with messages compared by their
/// characters.
pub open spec fn same_verdict(
    a: Result<ValidationResult, ValidationFailed>,
    b: Result<ValidationResult, ValidationFailed>,
) -> bool {
    match (a, b) {
        (Ok(ValidationResult::Invalid(InvalidCandidate::ExecutionError(x))), Ok(ValidationResult::Invalid(InvalidCandidate::ExecutionError(y)))) => x@ == y@,
        (Err(ValidationFailed(x)), Err(ValidationFailed(y))) => x@ == y@,
        _ => a == b,
    }
}

/// A `Valid` verdict binds the head data: the commitments it carries hold
/// head data whose hash is the descriptor's `para_head`, and the data it
/// names is the data the candidate was validated against.
pub proof fn lemma_valid_binds_head_hash(
    h: Result<WasmValidationResult, ValidationError>,
    d: CandidateDescriptor,
    pvd: PersistedValidationData,
    r: Result<ValidationResult, ValidationFailed>,
)
    requires
        execution_verdict(r, h, d, pvd),
    ensures
        r matches Ok(ValidationResult::Valid(c, used)) ==> head_hash(c.head_data) == d.para_head@
            && used == pvd,
{
}

/// The runtime's check of the outputs makes no `Valid` verdict of its own: a
/// `Valid` answer after the check is the verdict that was checked.
pub proof fn lemma_checked_valid_was_valid(
    result: Result<ValidationResult, ValidationFailed>,
    answer: Result<bool, RuntimeApiError>,
    r: Result<ValidationResult, ValidationFailed>,
)
    requires
        outputs_checked(result, answer, r),
    ensures
        r matches Ok(ValidationResult::Valid(_, _)) ==> r == result,
{
}

/// An answer is exactly one of a `Valid` verdict, an `Invalid` verdict, and a
/// failure to validate.
pub proof fn lemma_verdict_kinds_disjoint(r: Result<ValidationResult, ValidationFailed>)
    ensures
        (r matches Ok(ValidationResult::Valid(_, _))) as int + (r matches Ok(
            ValidationResult::Invalid(_),
        )) as int + (r is Err) as int == 1,
{
}

/// When the data under `Included` and under `TimedOut` both come back and
/// neither hashes to the descriptor's commitment, the search ends without a
/// match, and validation from the chain state gives `Invalid(BadParent)`.
pub proof fn lemma_assumption_exhaustion(
    descriptor: CandidateDescriptor,
    search: AssumptionSearch,
    included: PersistedValidationData,
    timed_out: PersistedValidationData,
    r: Result<(PersistedValidationData, ValidationCode), Result<ValidationResult, ValidationFailed>>,
)
    requires
        search.started(descriptor, searched_assumptions()),
        pvd_hash(included) != descriptor.persisted_validation_data_hash@,
        pvd_hash(timed_out) != descriptor.persisted_validation_data_hash@,
        resolution(AssumptionCheckOutcome::DoesNotMatch, r),
    ensures
        search.after_data(Ok(Some(included))).after_data(Ok(Some(timed_out))).stage
            == SearchStage::Finished(AssumptionCheckOutcome::DoesNotMatch),
        r == Err::<(PersistedValidationData, ValidationCode), Result<ValidationResult, ValidationFailed>>(
            Ok(ValidationResult::Invalid(InvalidCandidate::BadParent)),
        ),
{
    let s1 = search.after_data(Ok(Some(included)));
    assert(s1.stage == SearchStage::AwaitingData(1));
    assert(s1.assumptions@.len() == 2);
}

/// A `Valid` verdict of the exhaustive validation is kept after the runtime's
/// check of the outputs exactly when the runtime accepts them.
pub proof fn lemma_output_check_gates_valid(
    commitments: CandidateCommitments,
    pvd: PersistedValidationData,
    answer: Result<bool, RuntimeApiError>,
    r: Result<ValidationResult, ValidationFailed>,
)
    requires
        outputs_checked(
            Ok(ValidationResult::Valid(commitments, pvd)),
            answer,
            r,
        ),
    ensures
        r == Ok::<ValidationResult, ValidationFailed>(ValidationResult::Valid(commitments, pvd))
            <==> answer == Ok::<bool, RuntimeApiError>(true),
{
}

/// The verdict on an execution is a function of its inputs: two verdicts on
/// the same outcome of the host, for the same descriptor and data, are the
/// same.
pub proof fn lemma_execution_verdict_deterministic(
    h: Result<WasmValidationResult, ValidationError>,
    d: CandidateDescriptor,
    pvd: PersistedValidationData,
    r1: Result<ValidationResult, ValidationFailed>,
    r2: Result<ValidationResult, ValidationFailed>,
)
    requires
        execution_verdict(r1, h, d, pvd),
        execution_verdict(r2, h, d, pvd),
    ensures
        same_verdict(r1, r2),
{
}

/// The outputs check is a function of its inputs too.
pub proof fn lemma_outputs_check_deterministic(
    result: Result<ValidationResult, ValidationFailed>,
    answer: Result<bool, RuntimeApiError>,
    r1: Result<ValidationResult, ValidationFailed>,
    r2: Result<ValidationResult, ValidationFailed>,
)
    requires
        outputs_checked(result, answer, r1),
        outputs_checked(result, answer, r2),
    ensures
        same_verdict(r1, r2),
{
}

} // verus!
