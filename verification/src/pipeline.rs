//! The making of an operation's calls, one after the other.
//!
//! The host makes the call that the pipeline names and reports how it went;
//! the pipeline says what comes next. A call is named only once every call
//! before it has succeeded, and none is named twice.

use vstd::prelude::*;
use crate::cpi::Call;

verus! {

/// How far the calls of an operation have come.
#[derive(Clone, Copy, Debug, PartialEq, Eq, Structural)]
pub enum PipelineState {
    /// The call at `index` is to be made; all before it have succeeded.
    Calling { index: usize },
    /// Every call has succeeded.
    Completed,
    /// The call at `index` has failed, and the operation with it.
    Failed { index: usize },
}

/// The calls of an operation and how far they have come. The state names a
/// call only where there is one.
pub struct Pipeline {
    calls: Vec<Call>,
    state: PipelineState,
}

/// Where a pipeline of `len` calls stands once `made` of them have
/// succeeded.
pub open spec fn state_after(len: nat, made: nat) -> PipelineState {
    if made < len {
        PipelineState::Calling { index: made as usize }
    } else {
        PipelineState::Completed
    }
}

/// Where a pipeline of `len` calls stands after a report, having stood at
/// `state` before it: after a success the next call is to be made, or the
/// pipeline is complete; after a failure no further call is made; and where
/// no call was to be made, nothing changes.
pub open spec fn state_after_report(
    len: nat,
    state: PipelineState,
    succeeded: bool,
) -> PipelineState {
    match state {
        PipelineState::Calling { index } => if succeeded {
            state_after(len, (index + 1) as nat)
        } else {
            PipelineState::Failed { index }
        },
        other => other,
    }
}

/// The call that a pipeline of `calls` names while it stands at `state`.
pub open spec fn call_at(calls: Seq<Call>, state: PipelineState) -> Option<Call> {
    match state {
        PipelineState::Calling { index } => Some(calls[index as int]),
        _ => None,
    }
}

impl Pipeline {
    #[verifier::type_invariant]
    spec fn names_a_call_that_is_there(&self) -> bool {
        match self.state {
            PipelineState::Calling { index } => index < self.calls@.len(),
            PipelineState::Completed => true,
            PipelineState::Failed { index } => index < self.calls@.len(),
        }
    }

    /// The calls, in the order in which they are made.
    pub closed spec fn spec_calls(&self) -> Seq<Call> {
        self.calls@
    }

    /// How far the calls have come.
    pub closed spec fn spec_state(&self) -> PipelineState {
        self.state
    }

    /// A pipeline of `calls` of which none is made yet.
    pub fn new(calls: Vec<Call>) -> (r: Self)
        ensures
            r.spec_calls() == calls@,
            r.spec_state() == state_after(calls@.len(), 0),
    {
        let state = if calls.len() > 0 {
            PipelineState::Calling { index: 0 }
        } else {
            PipelineState::Completed
        };
        Pipeline { calls, state }
    }

    /// The calls, in the order in which they are made.
    pub fn calls(&self) -> (r: &Vec<Call>)
        ensures
            r@ == self.spec_calls(),
    {
        &self.calls
    }

    /// How far the calls have come.
    #[verifier::when_used_as_spec(spec_state)]
    pub fn state(&self) -> (r: PipelineState)
        ensures
            r == self.spec_state(),
    {
        self.state
    }

    /// The call that is to be made now; none once all are made or one has
    /// failed.
    pub fn next_call(&self) -> (r: Option<Call>)
        ensures
            r == call_at(self.spec_calls(), self.spec_state()),
            r is Some <==> self.spec_state() is Calling,
            self.spec_state() matches PipelineState::Calling { index } ==> index
                < self.spec_calls().len(),
    {
        proof {
            use_type_invariant(self);
        }
        match self.state {
            PipelineState::Calling { index } => Some(self.calls[index]),
            _ => None,
        }
    }

    /// Takes note of how the call that was to be made went. After a success
    /// the next call is to be made, or the pipeline is complete; after a
    /// failure no further call is made. Where no call was to be made,
    /// nothing changes.
    pub fn report(&mut self, succeeded: bool)
        ensures
            final(self).spec_calls() == old(self).spec_calls(),
            final(self).spec_state() == state_after_report(
                old(self).spec_calls().len(),
                old(self).spec_state(),
                succeeded,
            ),
    {
        proof {
            use_type_invariant(&*self);
        }
        let len: usize = self.calls.len();
        let state = self.state;
        match state {
            PipelineState::Calling { index } => {
                if !succeeded {
                    self.state = PipelineState::Failed { index };
                } else if index < len - 1 {
                    self.state = PipelineState::Calling { index: index + 1 };
                } else {
                    self.state = PipelineState::Completed;
                }
            },
            _ => {},
        }
    }
}

/// Where a pipeline stands after the reports `outcomes`, in their order.
pub open spec fn state_after_reports(len: nat, outcomes: Seq<bool>) -> PipelineState
    decreases outcomes.len(),
{
    if outcomes.len() == 0 {
        state_after(len, 0)
    } else {
        state_after_report(len, state_after_reports(len, outcomes.drop_last()), outcomes.last())
    }
}

/// A call is named only once every call before it has succeeded, in the
/// order of the calls: whenever the call at `index` is to be made, exactly
/// `index` reports have come in and each was a success; and the pipeline is
/// complete only when every call has succeeded.
pub proof fn lemma_calls_in_order(len: nat, outcomes: Seq<bool>)
    requires
        len <= usize::MAX,
    ensures
        state_after_reports(len, outcomes) matches PipelineState::Calling { index } ==> {
            &&& index == outcomes.len()
            &&& index < len
            &&& forall|k: int| 0 <= k < outcomes.len() ==> outcomes[k]
        },
        state_after_reports(len, outcomes) is Completed ==> {
            &&& outcomes.len() >= len
            &&& forall|k: int| 0 <= k < len ==> outcomes[k]
        },
        state_after_reports(len, outcomes) matches PipelineState::Failed { index } ==> {
            &&& index < len
            &&& index < outcomes.len()
            &&& !outcomes[index as int]
            &&& forall|k: int| 0 <= k < index ==> outcomes[k]
        },
    decreases outcomes.len(),
{
    if outcomes.len() > 0 {
        let before = outcomes.drop_last();
        lemma_calls_in_order(len, before);
        assert forall|k: int| 0 <= k < before.len() implies before[k] == outcomes[k] by {}
    }
}

} // verus!
