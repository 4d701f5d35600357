//! Candidate validation: the checks and decisions that turn a parachain
//! candidate, its proof of validity and its validation code into a verdict.

use vstd::prelude::*;

pub mod assumptions;
pub mod basic_checks;
pub mod chain_state;
pub mod codec;
pub mod exhaustive;
pub mod laws;
pub mod primitives;
pub mod subsystem;

verus! {

} // verus!
