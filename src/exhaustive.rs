//! Validation of a candidate whose inputs are all supplied: basic checks,
//! bounded decompression, execution, and the classification of its outcome.

use crate::basic_checks::{basic_checks, perform_basic_checks};
use crate::codec::{decompress, decompressed_of, hash_eq, is_compressed};
use crate::primitives::{
    head_hash, BlockData, CandidateCommitments, CandidateDescriptor, HeadData, InvalidCandidate,
    PersistedValidationData, PoV, ValidationCode, ValidationError, ValidationFailed,
    ValidationParams, ValidationResult, WasmInvalidCandidate, WasmValidationResult,
};
use vstd::prelude::*;
use vstd::string::StringExecFns;

verus! {

/// The most bytes that decompressing validation code may produce.
pub const VALIDATION_CODE_BOMB_LIMIT: usize = 16777216;

/// The most bytes that decompressing PoV block data may produce.
pub const POV_BOMB_LIMIT: usize = 5242880;

/// What is handed to the execution host: the decompressed code and the
/// parameters of the validation function.
#[derive(Clone, Debug, PartialEq, Eq)]
pub struct ExecutionRequest {
    pub raw_validation_code: Vec<u8>,
    pub params: ValidationParams,
}

/// The inputs of an execution, or why there is none: the basic checks, then
/// the decompressed code, then the decompressed block data.
pub open spec fn preparation(
    pvd: PersistedValidationData,
    code: ValidationCode,
    d: CandidateDescriptor,
    pov: PoV,
) -> Result<(Seq<u8>, Seq<u8>), InvalidCandidate> {
    match basic_checks(d, pvd.max_pov_size, pov, code) {
        Err(e) => Err(e),
        Ok(_) => match decompressed_of(code.0@, VALIDATION_CODE_BOMB_LIMIT as nat) {
            None => Err(InvalidCandidate::CodeDecompressionFailure),
            Some(c) => match decompressed_of(pov.block_data.0@, POV_BOMB_LIMIT as nat) {
                None => Err(InvalidCandidate::PoVDecompressionFailure),
                Some(b) => Ok((c, b)),
            },
        },
    }
}

/// Whether `req` runs the code `code` on the block data `block` against `pvd`.
pub open spec fn request_for(
    req: ExecutionRequest,
    pvd: PersistedValidationData,
    code: Seq<u8>,
    block: Seq<u8>,
) -> bool {
    &&& req.raw_validation_code@ == code
    &&& req.params.parent_head.0@ == pvd.parent_head.0@
    &&& req.params.block_data.0@ == block
    &&& req.params.relay_parent_number == pvd.relay_parent_number
    &&& req.params.relay_parent_storage_root == pvd.relay_parent_storage_root
}

/// The commitments that a successful execution yields, field for field.
pub open spec fn commitments_of(res: WasmValidationResult) -> CandidateCommitments {
    CandidateCommitments {
        upward_messages: res.upward_messages,
        horizontal_messages: res.horizontal_messages,
        new_validation_code: res.new_validation_code,
        head_data: res.head_data,
        processed_downward_messages: res.processed_downward_messages,
        hrmp_watermark: res.hrmp_watermark,
    }
}

/// Whether `r` is the verdict for the execution outcome `h` of a candidate
/// with descriptor `d`, built on `pvd`.
pub open spec fn execution_verdict(
    r: Result<ValidationResult, ValidationFailed>,
    h: Result<WasmValidationResult, ValidationError>,
    d: CandidateDescriptor,
    pvd: PersistedValidationData,
) -> bool {
    match h {
        Ok(res) => if head_hash(res.head_data) == d.para_head@ {
            r == Ok::<ValidationResult, ValidationFailed>(
                ValidationResult::Valid(commitments_of(res), pvd),
            )
        } else {
            r == Ok::<ValidationResult, ValidationFailed>(
                ValidationResult::Invalid(InvalidCandidate::ParaHeadHashMismatch),
            )
        },
        Err(ValidationError::InternalError(m)) => r == Err::<ValidationResult, ValidationFailed>(
            ValidationFailed(m),
        ),
        Err(ValidationError::InvalidCandidate(WasmInvalidCandidate::HardTimeout)) => r == Ok::<
            ValidationResult,
            ValidationFailed,
        >(ValidationResult::Invalid(InvalidCandidate::Timeout)),
        Err(ValidationError::InvalidCandidate(WasmInvalidCandidate::WorkerReportedError(m))) => r
            == Ok::<ValidationResult, ValidationFailed>(
            ValidationResult::Invalid(InvalidCandidate::ExecutionError(m)),
        ),
        Err(ValidationError::InvalidCandidate(WasmInvalidCandidate::AmbiguousWorkerDeath)) => {
            &&& r matches Ok(ValidationResult::Invalid(InvalidCandidate::ExecutionError(m)))
            &&& m@ == "ambiguous worker death"@
        },
    }
}

/// Runs the basic checks and decompresses the code and the block data, each
/// within its bomb limit. Gives what the execution host is to run, or why the
/// candidate is invalid before any execution.
pub fn prepare_candidate_execution(
    persisted_validation_data: &PersistedValidationData,
    validation_code: &ValidationCode,
    descriptor: &CandidateDescriptor,
    pov: &PoV,
) -> (r: Result<ExecutionRequest, InvalidCandidate>)
    requires
        pov.block_data.0@.len() <= u32::MAX,
    ensures
        match preparation(*persisted_validation_data, *validation_code, *descriptor, *pov) {
            Err(e) => r == Err::<ExecutionRequest, InvalidCandidate>(e),
            Ok((c, b)) => r matches Ok(req) && request_for(
                req,
                *persisted_validation_data,
                c,
                b,
            ),
        },
        r matches Ok(req) ==> (is_compressed(validation_code.0@)
            ==> req.raw_validation_code@.len() <= VALIDATION_CODE_BOMB_LIMIT),
        r matches Ok(req) ==> (is_compressed(pov.block_data.0@) ==> req.params.block_data.0@.len()
            <= POV_BOMB_LIMIT),
{
    if let Err(e) = perform_basic_checks(
        descriptor,
        persisted_validation_data.max_pov_size,
        pov,
        validation_code,
    ) {
        return Err(e);
    }
    let raw_validation_code = match decompress(
        validation_code.0.as_slice(),
        VALIDATION_CODE_BOMB_LIMIT,
    ) {
        Some(code) => code,
        None => return Err(InvalidCandidate::CodeDecompressionFailure),
    };
    let raw_block_data = match decompress(pov.block_data.0.as_slice(), POV_BOMB_LIMIT) {
        Some(block_data) => BlockData(block_data),
        None => return Err(InvalidCandidate::PoVDecompressionFailure),
    };
    let params = ValidationParams {
        parent_head: HeadData(persisted_validation_data.parent_head.0.clone()),
        block_data: raw_block_data,
        relay_parent_number: persisted_validation_data.relay_parent_number,
        relay_parent_storage_root: persisted_validation_data.relay_parent_storage_root,
    };
    Ok(ExecutionRequest { raw_validation_code, params })
}

/// Turns what the execution host returned into a verdict. A successful run is
/// `Valid` only where its head data hashes to the descriptor's `para_head`; a
/// timeout or a failed run blames the candidate, as does a worker death that
/// cannot be attributed; an internal error of the host is no verdict.
pub fn classify_execution_result(
    result: Result<WasmValidationResult, ValidationError>,
    descriptor: &CandidateDescriptor,
    persisted_validation_data: PersistedValidationData,
) -> (r: Result<ValidationResult, ValidationFailed>)
    ensures
        execution_verdict(r, result, *descriptor, persisted_validation_data),
{
    match result {
        Err(ValidationError::InternalError(e)) => Err(ValidationFailed(e)),
        Err(ValidationError::InvalidCandidate(WasmInvalidCandidate::HardTimeout)) => Ok(
            ValidationResult::Invalid(InvalidCandidate::Timeout),
        ),
        Err(ValidationError::InvalidCandidate(WasmInvalidCandidate::WorkerReportedError(e))) => Ok(
            ValidationResult::Invalid(InvalidCandidate::ExecutionError(e)),
        ),
        Err(ValidationError::InvalidCandidate(WasmInvalidCandidate::AmbiguousWorkerDeath)) => Ok(
            ValidationResult::Invalid(
                InvalidCandidate::ExecutionError(String::from_str("ambiguous worker death")),
            ),
        ),
        Ok(res) => {
            let head_hash = res.head_data.hash();
            if !hash_eq(&head_hash, &descriptor.para_head) {
                Ok(ValidationResult::Invalid(InvalidCandidate::ParaHeadHashMismatch))
            } else {
                let outputs = CandidateCommitments {
                    upward_messages: res.upward_messages,
                    horizontal_messages: res.horizontal_messages,
                    new_validation_code: res.new_validation_code,
                    head_data: res.head_data,
                    processed_downward_messages: res.processed_downward_messages,
                    hrmp_watermark: res.hrmp_watermark,
                };
                Ok(ValidationResult::Valid(outputs, persisted_validation_data))
            }
        },
    }
}

/// Something that runs validation code on validation parameters.
pub trait ValidationBackend {
    /// Executes the decompressed code on the parameters.
    fn validate_candidate(
        &mut self,
        raw_validation_code: Vec<u8>,
        params: ValidationParams,
    ) -> Result<WasmValidationResult, ValidationError>;
}

/// Validates a candidate from all of its inputs: the basic checks and the
/// decompressions decide first, and the backend is asked to execute only when
/// they pass (else it is left as it was); then its outcome is classified.
pub fn validate_candidate_exhaustive<B: ValidationBackend>(
    validation_backend: &mut B,
    persisted_validation_data: PersistedValidationData,
    validation_code: ValidationCode,
    descriptor: CandidateDescriptor,
    pov: &PoV,
) -> (r: Result<ValidationResult, ValidationFailed>)
    requires
        pov.block_data.0@.len() <= u32::MAX,
    ensures
        match preparation(persisted_validation_data, validation_code, descriptor, *pov) {
            Err(e) => r == Ok::<ValidationResult, ValidationFailed>(ValidationResult::Invalid(e)),
            Ok(_) => exists|h: Result<WasmValidationResult, ValidationError>|
                #[trigger] execution_verdict(r, h, descriptor, persisted_validation_data),
        },
        preparation(persisted_validation_data, validation_code, descriptor, *pov) is Err
            ==> *final(validation_backend) == *old(validation_backend),
{
    let request = match prepare_candidate_execution(
        &persisted_validation_data,
        &validation_code,
        &descriptor,
        pov,
    ) {
        Ok(request) => request,
        Err(e) => return Ok(ValidationResult::Invalid(e)),
    };
    let result = validation_backend.validate_candidate(request.raw_validation_code, request.params);
    let ghost h = result;
    let r = classify_execution_result(result, &descriptor, persisted_validation_data);
    assert(execution_verdict(r, h, descriptor, persisted_validation_data));
    r
}

} // verus!
