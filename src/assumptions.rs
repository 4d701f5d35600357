//! The search for the persisted validation data a candidate was built on.
//!
//! A descriptor carries only the hash of that data. The relay chain offers, at
//! the relay parent, one value of it per occupied-core assumption; the search
//! asks for them in turn and compares their hashes. The runtime API is asked by
//! the caller: the search says which query comes next and takes its answer.

use crate::codec::hash_eq;
use crate::primitives::{
    pvd_hash, CandidateDescriptor, H256, OccupiedCoreAssumption, ParaId, PersistedValidationData,
    RuntimeApiError, ValidationCode,
};
use vstd::prelude::*;

verus! {

/// What the search found.
#[derive(Clone, Debug, PartialEq, Eq)]
pub enum AssumptionCheckOutcome {
    /// The data that hashes to the descriptor's commitment, and the code under
    /// the same assumption.
    Matches(PersistedValidationData, ValidationCode),
    /// No assumption gives data with the committed hash.
    DoesNotMatch,
    /// The runtime API failed or had no answer.
    BadRequest,
}

/// A query to the runtime API.
#[derive(Clone, Copy, Debug, PartialEq, Eq)]
pub enum RuntimeRequest {
    /// The persisted validation data of a para under an assumption.
    PersistedValidationData(ParaId, OccupiedCoreAssumption),
    /// The validation code of a para under an assumption.
    ValidationCode(ParaId, OccupiedCoreAssumption),
}

/// Where a search stands.
#[derive(Clone, Debug, PartialEq, Eq)]
pub enum SearchStage {
    /// Waiting for the data under the assumption at this index.
    AwaitingData(usize),
    /// The data under the assumption at this index matched; waiting for the code.
    AwaitingCode(usize, PersistedValidationData),
    /// Done.
    Finished(AssumptionCheckOutcome),
}

/// A search over a list of assumptions, in order.
#[derive(Clone, Debug, PartialEq, Eq)]
pub struct AssumptionSearch {
    pub relay_parent: H256,
    pub para_id: ParaId,
    pub expected_hash: H256,
    pub assumptions: Vec<OccupiedCoreAssumption>,
    pub stage: SearchStage,
}

/// The assumptions a candidate's data is looked for under. `Free` reads as
/// `TimedOut` does, so it is not asked.
pub open spec fn searched_assumptions() -> Seq<OccupiedCoreAssumption> {
    seq![OccupiedCoreAssumption::Included, OccupiedCoreAssumption::TimedOut]
}

impl AssumptionSearch {
    /// The stage indexes an assumption of the list.
    pub open spec fn wf(&self) -> bool {
        &&& self.assumptions@.len() > 0
        &&& match self.stage {
            SearchStage::AwaitingData(i) => i < self.assumptions@.len(),
            SearchStage::AwaitingCode(i, _) => i < self.assumptions@.len(),
            SearchStage::Finished(_) => true,
        }
    }

    /// A search for the descriptor's data under the given assumptions.
    pub open spec fn started(&self, d: CandidateDescriptor, assumptions: Seq<OccupiedCoreAssumption>) -> bool {
        &&& self.relay_parent == d.relay_parent
        &&& self.para_id == d.para_id
        &&& self.expected_hash == d.persisted_validation_data_hash
        &&& self.assumptions@ == assumptions
        &&& self.stage == SearchStage::AwaitingData(0)
    }

    /// The query the search waits on, with the relay parent it is made at.
    pub open spec fn pending(&self) -> Option<(H256, RuntimeRequest)> {
        match self.stage {
            SearchStage::AwaitingData(i) => Some(
                (self.relay_parent, RuntimeRequest::PersistedValidationData(self.para_id, self.assumptions@[i as int])),
            ),
            SearchStage::AwaitingCode(i, _) => Some(
                (self.relay_parent, RuntimeRequest::ValidationCode(self.para_id, self.assumptions@[i as int])),
            ),
            SearchStage::Finished(_) => None,
        }
    }

    /// The search after the answer to a data query: no data ends it with
    /// `BadRequest`; data with the committed hash leads to the code query;
    /// other data moves on to the next assumption, or ends with
    /// `DoesNotMatch` after the last.
    pub open spec fn after_data(
        self,
        answer: Result<Option<PersistedValidationData>, RuntimeApiError>,
    ) -> AssumptionSearch {
        let i = self.stage->AwaitingData_0;
        let stage = match answer {
            Ok(Some(d)) => if pvd_hash(d) == self.expected_hash@ {
                SearchStage::AwaitingCode(i, d)
            } else if i + 1 < self.assumptions@.len() {
                SearchStage::AwaitingData((i + 1) as usize)
            } else {
                SearchStage::Finished(AssumptionCheckOutcome::DoesNotMatch)
            },
            _ => SearchStage::Finished(AssumptionCheckOutcome::BadRequest),
        };
        AssumptionSearch { stage, ..self }
    }

    /// The search after the answer to a code query: code ends it with a
    /// match, no code with `BadRequest`.
    pub open spec fn after_code(
        self,
        answer: Result<Option<ValidationCode>, RuntimeApiError>,
    ) -> AssumptionSearch {
        let d = self.stage->AwaitingCode_1;
        let stage = match answer {
            Ok(Some(c)) => SearchStage::Finished(AssumptionCheckOutcome::Matches(d, c)),
            _ => SearchStage::Finished(AssumptionCheckOutcome::BadRequest),
        };
        AssumptionSearch { stage, ..self }
    }

    /// Whether the search is done.
    pub fn is_finished(&self) -> (r: bool)
        ensures
            r == self.stage is Finished,
    {
        matches!(self.stage, SearchStage::Finished(_))
    }

    /// The query the search waits on, if any.
    pub fn next_request(&self) -> (r: Option<(H256, RuntimeRequest)>)
        requires
            self.wf(),
        ensures
            r == self.pending(),
    {
        match &self.stage {
            SearchStage::AwaitingData(i) => Some(
                (self.relay_parent, RuntimeRequest::PersistedValidationData(self.para_id, self.assumptions[*i])),
            ),
            SearchStage::AwaitingCode(i, _) => Some(
                (self.relay_parent, RuntimeRequest::ValidationCode(self.para_id, self.assumptions[*i])),
            ),
            SearchStage::Finished(_) => None,
        }
    }

    /// Takes the answer to the pending data query.
    pub fn on_validation_data(
        &mut self,
        answer: Result<Option<PersistedValidationData>, RuntimeApiError>,
    )
        requires
            old(self).wf(),
            old(self).stage is AwaitingData,
            answer matches Ok(Some(d)) ==> d.parent_head.0@.len() <= u32::MAX,
        ensures
            final(self).wf(),
            *final(self) == old(self).after_data(answer),
    {
        let i = match self.stage {
            SearchStage::AwaitingData(i) => i,
            _ => 0,
        };
        self.stage = match answer {
            Ok(Some(d)) => {
                let h = d.hash();
                if hash_eq(&h, &self.expected_hash) {
                    SearchStage::AwaitingCode(i, d)
                } else if i < self.assumptions.len() - 1 {
                    SearchStage::AwaitingData(i + 1)
                } else {
                    SearchStage::Finished(AssumptionCheckOutcome::DoesNotMatch)
                }
            },
            _ => SearchStage::Finished(AssumptionCheckOutcome::BadRequest),
        };
    }

    /// Takes the answer to the pending code query.
    pub fn on_validation_code(&mut self, answer: Result<Option<ValidationCode>, RuntimeApiError>)
        requires
            old(self).wf(),
            old(self).stage is AwaitingCode,
        ensures
            final(self).wf(),
            *final(self) == old(self).after_code(answer),
    {
        let mut stage = SearchStage::Finished(AssumptionCheckOutcome::BadRequest);
        std::mem::swap(&mut self.stage, &mut stage);
        if let SearchStage::AwaitingCode(_, d) = stage {
            if let Ok(Some(c)) = answer {
                self.stage = SearchStage::Finished(AssumptionCheckOutcome::Matches(d, c));
            }
        }
    }

    /// What the search found, once it is done.
    pub fn outcome(self) -> (r: Option<AssumptionCheckOutcome>)
        ensures
            r == match self.stage {
                SearchStage::Finished(o) => Some(o),
                _ => None,
            },
    {
        match self.stage {
            SearchStage::Finished(o) => Some(o),
            _ => None,
        }
    }
}

/// Checks the descriptor's commitment against the data under one assumption:
/// the search this returns asks for that data, then, if its hash matches,
/// for the code under the same assumption.
pub fn check_assumption_validation_data(
    descriptor: &CandidateDescriptor,
    assumption: OccupiedCoreAssumption,
) -> (r: AssumptionSearch)
    ensures
        r.wf(),
        r.started(*descriptor, seq![assumption]),
{
    let mut assumptions: Vec<OccupiedCoreAssumption> = Vec::new();
    assumptions.push(assumption);
    let r = AssumptionSearch {
        relay_parent: descriptor.relay_parent,
        para_id: descriptor.para_id,
        expected_hash: descriptor.persisted_validation_data_hash,
        assumptions,
        stage: SearchStage::AwaitingData(0),
    };
    assert(r.assumptions@ =~= seq![assumption]);
    r
}

/// Looks for the data the descriptor commits to, under `Included` and then
/// `TimedOut`; the first assumption that matches, or the first failed query,
/// decides.
pub fn find_assumed_validation_data(descriptor: &CandidateDescriptor) -> (r: AssumptionSearch)
    ensures
        r.wf(),
        r.started(*descriptor, searched_assumptions()),
{
    let mut assumptions: Vec<OccupiedCoreAssumption> = Vec::new();
    assumptions.push(OccupiedCoreAssumption::Included);
    assumptions.push(OccupiedCoreAssumption::TimedOut);
    let r = AssumptionSearch {
        relay_parent: descriptor.relay_parent,
        para_id: descriptor.para_id,
        expected_hash: descriptor.persisted_validation_data_hash,
        assumptions,
        stage: SearchStage::AwaitingData(0),
    };
    assert(r.assumptions@ =~= searched_assumptions());
    r
}

} // verus!
