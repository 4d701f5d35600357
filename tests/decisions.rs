use candidate_validation::assumptions::AssumptionCheckOutcome;
use candidate_validation::basic_checks::{collator_signature_payload, perform_basic_checks};
use candidate_validation::chain_state::{
    apply_outputs_check, inputs_from_assumption_check, needs_outputs_check,
};
use candidate_validation::codec::u32_le_bytes;
use candidate_validation::exhaustive::{
    classify_execution_result, prepare_candidate_execution, VALIDATION_CODE_BOMB_LIMIT,
};
use candidate_validation::primitives::{
    BlockData, CandidateCommitments, CandidateDescriptor, HeadData, InvalidCandidate,
    PersistedValidationData, PoV, RuntimeApiError, ValidationCode, ValidationError,
    ValidationFailed, ValidationParams, ValidationResult, WasmInvalidCandidate,
    WasmValidationResult,
};
use candidate_validation::subsystem::{on_signal, LoopControl, OverseerSignal, Validity};

fn signed(pov: &PoV, code: &ValidationCode, para_head: [u8; 32]) -> CandidateDescriptor {
    let mut d = CandidateDescriptor::default();
    d.pov_hash = pov.hash();
    d.validation_code_hash = code.hash();
    d.para_head = para_head;
    let keypair = schnorrkel::MiniSecretKey::from_bytes(&[4; 32])
        .unwrap()
        .expand_to_keypair(schnorrkel::ExpansionMode::Ed25519);
    d.collator = keypair.public.to_bytes();
    d.signature = keypair.sign_simple(b"substrate", &d.signature_payload()).to_bytes();
    d
}

fn host_result(head: Vec<u8>) -> WasmValidationResult {
    WasmValidationResult {
        head_data: HeadData(head),
        new_validation_code: None,
        upward_messages: vec![vec![7]],
        horizontal_messages: Vec::new(),
        processed_downward_messages: 3,
        hrmp_watermark: 9,
    }
}

fn valid_result() -> Result<ValidationResult, ValidationFailed> {
    let commitments = CandidateCommitments {
        upward_messages: Vec::new(),
        horizontal_messages: Vec::new(),
        new_validation_code: None,
        head_data: HeadData(vec![1]),
        processed_downward_messages: 0,
        hrmp_watermark: 0,
    };
    Ok(ValidationResult::Valid(commitments, PersistedValidationData::default()))
}

#[test]
fn scale_encodings_are_exact() {
    assert_eq!(u32_le_bytes(0x0102_0304), vec![4, 3, 2, 1]);
    let small = PoV { block_data: BlockData(vec![1; 32]) };
    let mut expected = vec![128u8];
    expected.extend_from_slice(&[1; 32]);
    assert_eq!(small.encode(), expected);
    let medium = PoV { block_data: BlockData(vec![0; 64]) };
    assert_eq!(&medium.encode()[..2], &[1u8, 1][..]);
    assert_eq!(medium.encode().len(), 66);
    let data = PersistedValidationData {
        parent_head: HeadData(vec![5]),
        relay_parent_number: 2,
        relay_parent_storage_root: [0; 32],
        max_pov_size: 256,
    };
    let mut expected = vec![4u8, 5, 2, 0, 0, 0];
    expected.extend_from_slice(&[0; 32]);
    expected.extend_from_slice(&[0, 1, 0, 0]);
    assert_eq!(data.encode(), expected);
    let params = ValidationParams {
        parent_head: HeadData(vec![]),
        block_data: BlockData(vec![6, 6]),
        relay_parent_number: 1,
        relay_parent_storage_root: [9; 32],
    };
    let mut expected = vec![0u8, 8, 6, 6, 1, 0, 0, 0];
    expected.extend_from_slice(&[9; 32]);
    assert_eq!(params.encode(), expected);
}

#[test]
fn hashes_are_blake2_256() {
    assert_eq!(HeadData(vec![1, 1, 1]).hash(), sp_crypto_hashing::blake2_256(&[1, 1, 1]));
    assert_eq!(ValidationCode(vec![2; 16]).hash(), sp_crypto_hashing::blake2_256(&[2; 16]));
    let pov = PoV { block_data: BlockData(vec![1; 32]) };
    assert_eq!(pov.hash(), sp_crypto_hashing::blake2_256(&pov.encode()));
    let data = PersistedValidationData::default();
    assert_eq!(data.hash(), sp_crypto_hashing::blake2_256(&data.encode()));
    assert_ne!(data.hash(), [0; 32]);
}

#[test]
fn signature_payload_layout() {
    let payload = collator_signature_payload(&[1; 32], 0x0a0b, &[2; 32], &[3; 32], &[4; 32]);
    assert_eq!(payload.len(), 132);
    assert_eq!(&payload[..32], &[1; 32][..]);
    assert_eq!(&payload[32..36], &[0x0b, 0x0a, 0, 0][..]);
    assert_eq!(&payload[36..68], &[2; 32][..]);
    assert_eq!(&payload[100..], &[4; 32][..]);
}

#[test]
fn params_too_large_reports_encoded_size() {
    let pov = PoV { block_data: BlockData(vec![1; 32]) };
    let code = ValidationCode(vec![2; 16]);
    let d = signed(&pov, &code, [0; 32]);
    assert_eq!(perform_basic_checks(&d, 10, &pov, &code), Err(InvalidCandidate::ParamsTooLarge(33)));
    assert_eq!(perform_basic_checks(&d, 33, &pov, &code), Ok(()));
}

#[test]
fn pov_hash_mismatch_and_bad_signature() {
    let pov = PoV { block_data: BlockData(vec![1; 32]) };
    let code = ValidationCode(vec![2; 16]);
    let mut d = signed(&pov, &code, [0; 32]);
    let other = PoV { block_data: BlockData(vec![2; 32]) };
    assert_eq!(perform_basic_checks(&d, 1024, &other, &code), Err(InvalidCandidate::PoVHashMismatch));
    d.para_id = 8;
    assert!(d.check_collator_signature().is_err());
    assert_eq!(perform_basic_checks(&d, 1024, &pov, &code), Err(InvalidCandidate::BadSignature));
}

#[test]
fn preparation_decompresses_code() {
    let pov = PoV { block_data: BlockData(vec![1; 32]) };
    let raw = vec![2u8; 100];
    let code = ValidationCode(
        sp_maybe_compressed_blob::compress_weakly(&raw, VALIDATION_CODE_BOMB_LIMIT).unwrap(),
    );
    assert_ne!(code.0, raw);
    let d = signed(&pov, &code, [0; 32]);
    let data = PersistedValidationData {
        parent_head: HeadData(vec![3]),
        relay_parent_number: 4,
        relay_parent_storage_root: [5; 32],
        max_pov_size: 1024,
    };
    let req = prepare_candidate_execution(&data, &code, &d, &pov).unwrap();
    assert_eq!(req.raw_validation_code, raw);
    assert_eq!(req.params.block_data, BlockData(vec![1; 32]));
    assert_eq!(req.params.parent_head, HeadData(vec![3]));
    assert_eq!(req.params.relay_parent_number, 4);
    assert_eq!(req.params.relay_parent_storage_root, [5; 32]);
}

#[test]
fn classification_of_host_outcomes() {
    let head = vec![1, 1, 1];
    let mut d = CandidateDescriptor::default();
    d.para_head = HeadData(head.clone()).hash();
    let data = PersistedValidationData::default();

    let valid = classify_execution_result(Ok(host_result(head.clone())), &d, data.clone());
    match valid {
        Ok(ValidationResult::Valid(c, used)) => {
            assert_eq!(c.head_data, HeadData(head.clone()));
            assert_eq!(c.upward_messages, vec![vec![7]]);
            assert_eq!(c.processed_downward_messages, 3);
            assert_eq!(c.hrmp_watermark, 9);
            assert_eq!(used, data);
        }
        other => panic!("expected a valid verdict, got {:?}", other),
    }
    assert_eq!(
        classify_execution_result(Ok(host_result(vec![2])), &d, data.clone()),
        Ok(ValidationResult::Invalid(InvalidCandidate::ParaHeadHashMismatch))
    );
    assert_eq!(
        classify_execution_result(
            Err(ValidationError::InternalError("ipc broken".to_string())),
            &d,
            data.clone()
        ),
        Err(ValidationFailed("ipc broken".to_string()))
    );
    assert_eq!(
        classify_execution_result(
            Err(ValidationError::InvalidCandidate(WasmInvalidCandidate::WorkerReportedError(
                "trap".to_string()
            ))),
            &d,
            data.clone()
        ),
        Ok(ValidationResult::Invalid(InvalidCandidate::ExecutionError("trap".to_string())))
    );
    assert_eq!(
        classify_execution_result(
            Err(ValidationError::InvalidCandidate(WasmInvalidCandidate::HardTimeout)),
            &d,
            data.clone()
        ),
        Ok(ValidationResult::Invalid(InvalidCandidate::Timeout))
    );
}

#[test]
fn classification_is_idempotent() {
    let d = CandidateDescriptor::default();
    let data = PersistedValidationData::default();
    let outcome = Ok(host_result(vec![1]));
    assert_eq!(
        classify_execution_result(outcome.clone(), &d, data.clone()),
        classify_execution_result(outcome, &d, data)
    );
}

#[test]
fn assumption_outcomes_lead_to_inputs_or_results() {
    let data = PersistedValidationData::default();
    let code = ValidationCode(vec![1]);
    assert_eq!(
        inputs_from_assumption_check(AssumptionCheckOutcome::Matches(data.clone(), code.clone())),
        Ok((data, code))
    );
    assert_eq!(
        inputs_from_assumption_check(AssumptionCheckOutcome::DoesNotMatch),
        Err(Ok(ValidationResult::Invalid(InvalidCandidate::BadParent)))
    );
    assert_eq!(
        inputs_from_assumption_check(AssumptionCheckOutcome::BadRequest),
        Err(Err(ValidationFailed("assumption check: bad request".to_string())))
    );
}

#[test]
fn outputs_check_gates_valid_verdicts() {
    assert!(needs_outputs_check(&valid_result()));
    assert_eq!(apply_outputs_check(valid_result(), Ok(true)), valid_result());
    assert_eq!(
        apply_outputs_check(valid_result(), Ok(false)),
        Ok(ValidationResult::Invalid(InvalidCandidate::InvalidOutputs))
    );
    assert_eq!(
        apply_outputs_check(valid_result(), Err(RuntimeApiError("gone".to_string()))),
        Err(ValidationFailed("check validation outputs: bad request".to_string()))
    );
    let invalid = Ok(ValidationResult::Invalid(InvalidCandidate::Timeout));
    assert!(!needs_outputs_check(&invalid));
    assert_eq!(apply_outputs_check(invalid.clone(), Ok(false)), invalid);
}

#[test]
fn loop_and_metrics_decisions() {
    assert_eq!(on_signal(OverseerSignal::ActiveLeaves), LoopControl::Continue);
    assert_eq!(on_signal(OverseerSignal::BlockFinalized), LoopControl::Continue);
    assert_eq!(on_signal(OverseerSignal::Conclude), LoopControl::Conclude);
    assert_eq!(Validity::of(&valid_result()).label(), "valid");
    assert_eq!(
        Validity::of(&Ok(ValidationResult::Invalid(InvalidCandidate::BadParent))).label(),
        "invalid"
    );
    assert_eq!(
        Validity::of(&Err(ValidationFailed("x".to_string()))).label(),
        "validation failure"
    );
}
