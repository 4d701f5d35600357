//! The decisions of the subsystem's message loop and of its metrics.

use crate::primitives::{ValidationFailed, ValidationResult};
use vstd::prelude::*;

verus! {

/// A lifecycle signal of the overseer.
#[derive(Clone, Copy, Debug, PartialEq, Eq)]
pub enum OverseerSignal {
    /// The set of active leaves changed.
    ActiveLeaves,
    /// A block was finalized.
    BlockFinalized,
    /// The subsystem is to stop.
    Conclude,
}

/// What the loop does after a signal.
#[derive(Clone, Copy, Debug, PartialEq, Eq)]
pub enum LoopControl {
    /// Keep receiving.
    Continue,
    /// Stop, successfully.
    Conclude,
}

/// The loop carries no state: only `Conclude` ends it.
pub fn on_signal(signal: OverseerSignal) -> (r: LoopControl)
    ensures
        r == (if signal == OverseerSignal::Conclude {
            LoopControl::Conclude
        } else {
            LoopControl::Continue
        }),
{
    match signal {
        OverseerSignal::Conclude => LoopControl::Conclude,
        _ => LoopControl::Continue,
    }
}

/// Which of the three kinds an answer to a validation request is.
#[derive(Clone, Copy, Debug, PartialEq, Eq)]
pub enum Validity {
    /// A `Valid` verdict.
    Valid,
    /// An `Invalid` verdict.
    Invalid,
    /// Validation failed, with no verdict.
    ValidationFailure,
}

/// The kind of an answer.
pub open spec fn validity_of(event: Result<ValidationResult, ValidationFailed>) -> Validity {
    match event {
        Ok(ValidationResult::Valid(_, _)) => Validity::Valid,
        Ok(ValidationResult::Invalid(_)) => Validity::Invalid,
        Err(_) => Validity::ValidationFailure,
    }
}

impl Validity {
    /// The kind of an answer.
    pub fn of(event: &Result<ValidationResult, ValidationFailed>) -> (r: Validity)
        ensures
            r == validity_of(*event),
    {
        match event {
            Ok(ValidationResult::Valid(_, _)) => Validity::Valid,
            Ok(ValidationResult::Invalid(_)) => Validity::Invalid,
            Err(_) => Validity::ValidationFailure,
        }
    }

    /// The value of the `validity` label that counts answers of this kind.
    pub fn label(&self) -> (r: &'static str)
        ensures
            *self == Validity::Valid ==> r@ == "valid"@,
            *self == Validity::Invalid ==> r@ == "invalid"@,
            *self == Validity::ValidationFailure ==> r@ == "validation failure"@,
    {
        match self {
            Validity::Valid => "valid",
            Validity::Invalid => "invalid",
            Validity::ValidationFailure => "validation failure",
        }
    }
}

} // verus!
