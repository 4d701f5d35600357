//! The cheap checks of a candidate that come before any execution.

use crate::codec::{append_bytes, blake2_256, blake2_256_of, hash_eq, le_bytes, sr25519_verifies, sr25519_verify, u32_le_bytes};
use crate::primitives::{
    code_hash, pov_encoding, CandidateDescriptor, InvalidCandidate, PoV, ValidationCode,
};
use vstd::prelude::*;

verus! {

/// The bytes a collator signs: the relay parent, the para id (little endian),
/// the persisted validation data hash, the PoV hash and the code hash.
pub open spec fn signature_payload(d: CandidateDescriptor) -> Seq<u8> {
    d.relay_parent@ + le_bytes(d.para_id as nat, 4) + d.persisted_validation_data_hash@
        + d.pov_hash@ + d.validation_code_hash@
}

/// Whether the descriptor's collator signature verifies.
pub open spec fn collator_signature_valid(d: CandidateDescriptor) -> bool {
    sr25519_verifies(signature_payload(d), d.signature@, d.collator@)
}

/// The outcome of the basic checks, in their order: size of the encoded PoV,
/// PoV hash, code hash, collator signature.
pub open spec fn basic_checks(
    d: CandidateDescriptor,
    max_pov_size: u32,
    pov: PoV,
    code: ValidationCode,
) -> Result<(), InvalidCandidate> {
    let encoded = pov_encoding(pov);
    if encoded.len() > max_pov_size {
        Err(InvalidCandidate::ParamsTooLarge(encoded.len() as u64))
    } else if blake2_256_of(encoded) != d.pov_hash@ {
        Err(InvalidCandidate::PoVHashMismatch)
    } else if code_hash(code) != d.validation_code_hash@ {
        Err(InvalidCandidate::CodeHashMismatch)
    } else if !collator_signature_valid(d) {
        Err(InvalidCandidate::BadSignature)
    } else {
        Ok(())
    }
}

/// The payload of a collator's signature over a descriptor's fields.
pub fn collator_signature_payload(
    relay_parent: &[u8; 32],
    para_id: u32,
    persisted_validation_data_hash: &[u8; 32],
    pov_hash: &[u8; 32],
    validation_code_hash: &[u8; 32],
) -> (r: Vec<u8>)
    ensures
        r@ == relay_parent@ + le_bytes(para_id as nat, 4) + persisted_validation_data_hash@
            + pov_hash@ + validation_code_hash@,
        r@.len() == 132,
{
    let mut r: Vec<u8> = Vec::new();
    append_bytes(&mut r, relay_parent.as_slice());
    let p = u32_le_bytes(para_id);
    append_bytes(&mut r, p.as_slice());
    append_bytes(&mut r, persisted_validation_data_hash.as_slice());
    append_bytes(&mut r, pov_hash.as_slice());
    append_bytes(&mut r, validation_code_hash.as_slice());
    proof {
        reveal_with_fuel(le_bytes, 5);
    }
    r
}

impl CandidateDescriptor {
    /// The payload that the collator signs.
    pub fn signature_payload(&self) -> (r: Vec<u8>)
        ensures
            r@ == signature_payload(*self),
    {
        collator_signature_payload(
            &self.relay_parent,
            self.para_id,
            &self.persisted_validation_data_hash,
            &self.pov_hash,
            &self.validation_code_hash,
        )
    }

    /// Checks the collator's signature over the descriptor.
    pub fn check_collator_signature(&self) -> (r: Result<(), ()>)
        ensures
            r is Ok <==> collator_signature_valid(*self),
    {
        let payload = self.signature_payload();
        if sr25519_verify(payload.as_slice(), &self.signature, &self.collator) {
            Ok(())
        } else {
            Err(())
        }
    }
}

/// Does the basic checks of a candidate against its encoded PoV and its code:
/// `Ok` if all pass, else the reason of the first that fails.
pub fn perform_basic_checks(
    candidate: &CandidateDescriptor,
    max_pov_size: u32,
    pov: &PoV,
    validation_code: &ValidationCode,
) -> (r: Result<(), InvalidCandidate>)
    requires
        pov.block_data.0@.len() <= u32::MAX,
    ensures
        r == basic_checks(*candidate, max_pov_size, *pov, *validation_code),
{
    let encoded = pov.encode();
    let encoded_pov_size = encoded.len();
    if encoded_pov_size > max_pov_size as usize {
        return Err(InvalidCandidate::ParamsTooLarge(encoded_pov_size as u64));
    }
    let pov_hash = blake2_256(encoded.as_slice());
    if !hash_eq(&pov_hash, &candidate.pov_hash) {
        return Err(InvalidCandidate::PoVHashMismatch);
    }
    let validation_code_hash = validation_code.hash();
    if !hash_eq(&validation_code_hash, &candidate.validation_code_hash) {
        return Err(InvalidCandidate::CodeHashMismatch);
    }
    if candidate.check_collator_signature().is_err() {
        return Err(InvalidCandidate::BadSignature);
    }
    Ok(())
}

} // verus!
