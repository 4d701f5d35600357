//! The data that a validation request carries, as plain values.

use crate::codec::{append_bytes, blake2_256, blake2_256_of, le_bytes, scale_bytes, scale_encode_bytes, u32_le_bytes};
use vstd::prelude::*;

verus! {

/// A 32-byte hash.
pub type H256 = [u8; 32];

/// Identifier of a parachain.
pub type ParaId = u32;

/// A relay-chain block number.
pub type BlockNumber = u32;

/// The head data of a parachain block.
#[derive(Clone, Debug, PartialEq, Eq)]
pub struct HeadData(pub Vec<u8>);

/// The validation code (Wasm) of a parachain, possibly compressed.
#[derive(Clone, Debug, PartialEq, Eq)]
pub struct ValidationCode(pub Vec<u8>);

/// The block data carried by a proof of validity, possibly compressed.
#[derive(Clone, Debug, PartialEq, Eq)]
pub struct BlockData(pub Vec<u8>);

/// A proof of validity.
#[derive(Clone, Debug, PartialEq, Eq)]
pub struct PoV {
    pub block_data: BlockData,
}

/// The relay-chain state a candidate must have been built against.
#[derive(Clone, Debug, PartialEq, Eq)]
pub struct PersistedValidationData {
    pub parent_head: HeadData,
    pub relay_parent_number: BlockNumber,
    pub relay_parent_storage_root: H256,
    pub max_pov_size: u32,
}

impl Default for PersistedValidationData {
    fn default() -> (r: Self)
        ensures
            r.parent_head.0@ == Seq::<u8>::empty(),
            r.relay_parent_number == 0,
            r.relay_parent_storage_root@ == Seq::new(32, |i: int| 0u8),
            r.max_pov_size == 0,
    {
        let r = PersistedValidationData {
            parent_head: HeadData(Vec::new()),
            relay_parent_number: 0,
            relay_parent_storage_root: [0u8; 32],
            max_pov_size: 0,
        };
        assert(r.relay_parent_storage_root@ =~= Seq::new(32, |i: int| 0u8));
        r
    }
}

/// The hash of head data: Blake2-256 of its bytes.
pub open spec fn head_hash(h: HeadData) -> Seq<u8> {
    blake2_256_of(h.0@)
}

/// The hash of validation code: Blake2-256 of its bytes, compressed or not.
pub open spec fn code_hash(c: ValidationCode) -> Seq<u8> {
    blake2_256_of(c.0@)
}

/// The SCALE encoding of a proof of validity.
pub open spec fn pov_encoding(p: PoV) -> Seq<u8> {
    scale_bytes(p.block_data.0@)
}

/// The hash of a proof of validity: Blake2-256 of its encoding.
pub open spec fn pov_hash(p: PoV) -> Seq<u8> {
    blake2_256_of(pov_encoding(p))
}

/// The SCALE encoding of persisted validation data.
pub open spec fn pvd_encoding(d: PersistedValidationData) -> Seq<u8> {
    scale_bytes(d.parent_head.0@) + le_bytes(d.relay_parent_number as nat, 4)
        + d.relay_parent_storage_root@ + le_bytes(d.max_pov_size as nat, 4)
}

/// The hash of persisted validation data: Blake2-256 of its encoding.
pub open spec fn pvd_hash(d: PersistedValidationData) -> Seq<u8> {
    blake2_256_of(pvd_encoding(d))
}

impl HeadData {
    /// The hash of the head data.
    pub fn hash(&self) -> (r: H256)
        ensures
            r@ == head_hash(*self),
    {
        blake2_256(self.0.as_slice())
    }
}

impl ValidationCode {
    /// The hash of the code, as it stands (compressed or not).
    pub fn hash(&self) -> (r: H256)
        ensures
            r@ == code_hash(*self),
    {
        blake2_256(self.0.as_slice())
    }
}

impl PoV {
    /// The SCALE encoding of the proof of validity.
    pub fn encode(&self) -> (r: Vec<u8>)
        requires
            self.block_data.0@.len() <= u32::MAX,
        ensures
            r@ == pov_encoding(*self),
    {
        scale_encode_bytes(self.block_data.0.as_slice())
    }

    /// The hash of the proof of validity.
    pub fn hash(&self) -> (r: H256)
        requires
            self.block_data.0@.len() <= u32::MAX,
        ensures
            r@ == pov_hash(*self),
    {
        let e = self.encode();
        blake2_256(e.as_slice())
    }
}

impl PersistedValidationData {
    /// The SCALE encoding of the data.
    pub fn encode(&self) -> (r: Vec<u8>)
        requires
            self.parent_head.0@.len() <= u32::MAX,
        ensures
            r@ == pvd_encoding(*self),
    {
        let mut r = scale_encode_bytes(self.parent_head.0.as_slice());
        let n = u32_le_bytes(self.relay_parent_number);
        append_bytes(&mut r, n.as_slice());
        append_bytes(&mut r, self.relay_parent_storage_root.as_slice());
        let m = u32_le_bytes(self.max_pov_size);
        append_bytes(&mut r, m.as_slice());
        r
    }

    /// The hash of the data, which a candidate descriptor commits to.
    pub fn hash(&self) -> (r: H256)
        requires
            self.parent_head.0@.len() <= u32::MAX,
        ensures
            r@ == pvd_hash(*self),
    {
        let e = self.encode();
        blake2_256(e.as_slice())
    }
}

/// The collator's commitment to a candidate.
#[derive(Clone, Copy, Debug, PartialEq, Eq)]
pub struct CandidateDescriptor {
    pub para_id: ParaId,
    pub relay_parent: H256,
    pub collator: [u8; 32],
    pub persisted_validation_data_hash: H256,
    pub pov_hash: H256,
    pub erasure_root: H256,
    pub signature: [u8; 64],
    pub para_head: H256,
    pub validation_code_hash: H256,
}

impl Default for CandidateDescriptor {
    fn default() -> (r: Self)
        ensures
            r.para_id == 0,
            r.relay_parent@ == Seq::new(32, |i: int| 0u8),
            r.collator@ == Seq::new(32, |i: int| 0u8),
            r.persisted_validation_data_hash@ == Seq::new(32, |i: int| 0u8),
            r.pov_hash@ == Seq::new(32, |i: int| 0u8),
            r.erasure_root@ == Seq::new(32, |i: int| 0u8),
            r.signature@ == Seq::new(64, |i: int| 0u8),
            r.para_head@ == Seq::new(32, |i: int| 0u8),
            r.validation_code_hash@ == Seq::new(32, |i: int| 0u8),
    {
        let z: H256 = [0u8; 32];
        let r = CandidateDescriptor {
            para_id: 0,
            relay_parent: z,
            collator: z,
            persisted_validation_data_hash: z,
            pov_hash: z,
            erasure_root: z,
            signature: [0u8; 64],
            para_head: z,
            validation_code_hash: z,
        };
        assert(z@ =~= Seq::new(32, |i: int| 0u8));
        assert(r.signature@ =~= Seq::new(64, |i: int| 0u8));
        r
    }
}

/// A message from a parachain to another one.
#[derive(Clone, Debug, PartialEq, Eq)]
pub struct OutboundHrmpMessage {
    pub recipient: ParaId,
    pub data: Vec<u8>,
}

/// A message from a parachain to the relay chain.
pub type UpwardMessage = Vec<u8>;

/// The outputs of a successful execution, which the relay chain records.
#[derive(Clone, Debug, PartialEq, Eq)]
pub struct CandidateCommitments {
    pub upward_messages: Vec<UpwardMessage>,
    pub horizontal_messages: Vec<OutboundHrmpMessage>,
    pub new_validation_code: Option<ValidationCode>,
    pub head_data: HeadData,
    pub processed_downward_messages: u32,
    pub hrmp_watermark: BlockNumber,
}

/// What the validation function returns when it accepts a candidate.
#[derive(Clone, Debug, PartialEq, Eq)]
pub struct WasmValidationResult {
    pub head_data: HeadData,
    pub new_validation_code: Option<ValidationCode>,
    pub upward_messages: Vec<UpwardMessage>,
    pub horizontal_messages: Vec<OutboundHrmpMessage>,
    pub processed_downward_messages: u32,
    pub hrmp_watermark: BlockNumber,
}

/// The arguments handed to the validation function.
#[derive(Clone, Debug, PartialEq, Eq)]
pub struct ValidationParams {
    pub parent_head: HeadData,
    pub block_data: BlockData,
    pub relay_parent_number: BlockNumber,
    pub relay_parent_storage_root: H256,
}

/// The SCALE encoding of validation parameters.
pub open spec fn params_encoding(p: ValidationParams) -> Seq<u8> {
    scale_bytes(p.parent_head.0@) + scale_bytes(p.block_data.0@)
        + le_bytes(p.relay_parent_number as nat, 4) + p.relay_parent_storage_root@
}

impl ValidationParams {
    /// The SCALE encoding of the parameters, as the execution host takes them.
    pub fn encode(&self) -> (r: Vec<u8>)
        requires
            self.parent_head.0@.len() <= u32::MAX,
            self.block_data.0@.len() <= u32::MAX,
        ensures
            r@ == params_encoding(*self),
    {
        let mut r = scale_encode_bytes(self.parent_head.0.as_slice());
        let b = scale_encode_bytes(self.block_data.0.as_slice());
        append_bytes(&mut r, b.as_slice());
        let n = u32_le_bytes(self.relay_parent_number);
        append_bytes(&mut r, n.as_slice());
        append_bytes(&mut r, self.relay_parent_storage_root.as_slice());
        r
    }
}

/// Why a candidate is invalid.
#[derive(Clone, Debug, PartialEq, Eq)]
pub enum InvalidCandidate {
    /// No persisted validation data reachable from the relay parent matches.
    BadParent,
    /// The encoded proof of validity is larger than allowed; its size.
    ParamsTooLarge(u64),
    /// The proof of validity does not hash to the descriptor's `pov_hash`.
    PoVHashMismatch,
    /// The code does not hash to the descriptor's `validation_code_hash`.
    CodeHashMismatch,
    /// The collator's signature does not verify.
    BadSignature,
    /// The validation code could not be decompressed within its bomb limit.
    CodeDecompressionFailure,
    /// The block data could not be decompressed within its bomb limit.
    PoVDecompressionFailure,
    /// Execution took too long.
    Timeout,
    /// Execution failed.
    ExecutionError(String),
    /// The produced head data does not hash to the descriptor's `para_head`.
    ParaHeadHashMismatch,
    /// The relay chain refused the candidate's outputs.
    InvalidOutputs,
}

/// A verdict on a candidate.
#[derive(Clone, Debug, PartialEq, Eq)]
pub enum ValidationResult {
    /// The candidate is valid: its commitments and the data it was built on.
    Valid(CandidateCommitments, PersistedValidationData),
    /// The candidate is invalid.
    Invalid(InvalidCandidate),
}

/// Validation could not be carried out; no verdict on the candidate.
#[derive(Clone, Debug, PartialEq, Eq)]
pub struct ValidationFailed(pub String);

/// Why the execution host rejected a candidate.
#[derive(Clone, Debug, PartialEq, Eq)]
pub enum WasmInvalidCandidate {
    /// The execution exceeded its hard time limit.
    HardTimeout,
    /// The worker reported an error.
    WorkerReportedError(String),
    /// The worker died, and it cannot be told whether the candidate caused it.
    AmbiguousWorkerDeath,
}

/// An error of the execution host.
#[derive(Clone, Debug, PartialEq, Eq)]
pub enum ValidationError {
    /// The host itself failed.
    InternalError(String),
    /// The candidate failed to execute.
    InvalidCandidate(WasmInvalidCandidate),
}

/// Which state of an occupied core the relay-chain state is read under.
#[derive(Clone, Copy, Debug, PartialEq, Eq)]
pub enum OccupiedCoreAssumption {
    /// The candidate occupying the core is included.
    Included,
    /// The candidate occupying the core timed out.
    TimedOut,
    /// The core is free.
    Free,
}

/// An error of the runtime API.
#[derive(Clone, Debug, PartialEq, Eq)]
pub struct RuntimeApiError(pub String);

} // verus!
