//! Validation of a candidate from its descriptor alone: the decisions around
//! the assumption search, the exhaustive validation and the runtime's check
//! of the outputs.

use crate::assumptions::AssumptionCheckOutcome;
use crate::primitives::{
    InvalidCandidate, PersistedValidationData, RuntimeApiError, ValidationCode, ValidationFailed,
    ValidationResult,
};
use vstd::prelude::*;
use vstd::string::StringExecFns;

verus! {

/// Whether `r` is what the outcome of the assumption search leads to: the
/// inputs of the validation on a match, `Invalid(BadParent)` when nothing
/// matches, and a failure when the runtime API did not answer.
pub open spec fn resolution(
    outcome: AssumptionCheckOutcome,
    r: Result<(PersistedValidationData, ValidationCode), Result<ValidationResult, ValidationFailed>>,
) -> bool {
    match outcome {
        AssumptionCheckOutcome::Matches(d, c) => r == Ok::<
            (PersistedValidationData, ValidationCode),
            Result<ValidationResult, ValidationFailed>,
        >((d, c)),
        AssumptionCheckOutcome::DoesNotMatch => r == Err::<
            (PersistedValidationData, ValidationCode),
            Result<ValidationResult, ValidationFailed>,
        >(Ok(ValidationResult::Invalid(InvalidCandidate::BadParent))),
        AssumptionCheckOutcome::BadRequest => {
            &&& r matches Err(Err(ValidationFailed(m)))
            &&& m@ == "assumption check: bad request"@
        },
    }
}

/// Whether `r` is what the runtime's answer `answer` on the outputs makes of
/// `result`: a `Valid` verdict stands if the runtime accepts the outputs,
/// becomes `Invalid(InvalidOutputs)` if it refuses them, and a failure if it
/// cannot answer; any other result is left as it is.
pub open spec fn outputs_checked(
    result: Result<ValidationResult, ValidationFailed>,
    answer: Result<bool, RuntimeApiError>,
    r: Result<ValidationResult, ValidationFailed>,
) -> bool {
    if result matches Ok(ValidationResult::Valid(_, _)) {
        match answer {
            Ok(true) => r == result,
            Ok(false) => r == Ok::<ValidationResult, ValidationFailed>(
                ValidationResult::Invalid(InvalidCandidate::InvalidOutputs),
            ),
            Err(_) => {
                &&& r matches Err(ValidationFailed(m))
                &&& m@ == "check validation outputs: bad request"@
            },
        }
    } else {
        r == result
    }
}

/// Decides what the outcome of the assumption search means for the
/// validation: the data and code to validate against, or the result to
/// return at once.
pub fn inputs_from_assumption_check(outcome: AssumptionCheckOutcome) -> (r: Result<
    (PersistedValidationData, ValidationCode),
    Result<ValidationResult, ValidationFailed>,
>)
    ensures
        resolution(outcome, r),
{
    match outcome {
        AssumptionCheckOutcome::Matches(d, c) => Ok((d, c)),
        AssumptionCheckOutcome::DoesNotMatch => Err(
            Ok(ValidationResult::Invalid(InvalidCandidate::BadParent)),
        ),
        AssumptionCheckOutcome::BadRequest => Err(
            Err(ValidationFailed(String::from_str("assumption check: bad request"))),
        ),
    }
}

/// Whether the runtime must check the outputs of `result`: only a `Valid`
/// verdict is checked.
pub fn needs_outputs_check(result: &Result<ValidationResult, ValidationFailed>) -> (r: bool)
    ensures
        r == (*result matches Ok(ValidationResult::Valid(_, _))),
{
    matches!(result, Ok(ValidationResult::Valid(_, _)))
}

/// Applies the runtime's answer on the outputs to the result of validation.
pub fn apply_outputs_check(
    result: Result<ValidationResult, ValidationFailed>,
    answer: Result<bool, RuntimeApiError>,
) -> (r: Result<ValidationResult, ValidationFailed>)
    ensures
        outputs_checked(result, answer, r),
{
    if !needs_outputs_check(&result) {
        return result;
    }
    match answer {
        Ok(true) => result,
        Ok(false) => Ok(ValidationResult::Invalid(InvalidCandidate::InvalidOutputs)),
        Err(_) => Err(ValidationFailed(String::from_str("check validation outputs: bad request"))),
    }
}

} // verus!
