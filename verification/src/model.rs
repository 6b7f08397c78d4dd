//! What a ledger run is, as mathematics.
//!
//! A run is the five arguments it was started with, the number of scenarios
//! that have come back successfully, and whether the scenario after those has
//! failed. Everything the executable run does is stated against this model.

use vstd::prelude::*;
use crate::scenario::{schedule, Scenario, SCENARIO_COUNT};

verus! {

/// The five arguments of a run. `C`, `S` and `P` are the connection handle,
/// the shared connection handle and the payer credential; nothing is known or
/// assumed of them, so a run can do no more than hand them on.
pub struct Arguments<C, S, P> {
    pub client: C,
    pub arc_client: S,
    pub payer: P,
    pub program_data: Seq<u8>,
    pub account_data: Seq<u8>,
}

/// One downstream call: a scenario and the arguments it receives.
pub struct Call<C, S, P> {
    pub scenario: Scenario,
    pub arguments: Arguments<C, S, P>,
}

/// A run at some point of its life.
pub struct Run<C, S, P> {
    pub arguments: Arguments<C, S, P>,
    /// How many scenarios have come back successfully.
    pub completed: nat,
    /// Whether the scenario after those has come back with a failure.
    pub failed: bool,
}

/// How many outcomes at the head of `outcomes` are successes.
pub open spec fn leading_successes(outcomes: Seq<bool>) -> nat
    decreases outcomes.len(),
{
    if outcomes.len() == 0 || !outcomes[0] {
        0
    } else {
        1 + leading_successes(outcomes.drop_first())
    }
}

impl<C, S, P> Run<C, S, P> {
    /// A run that has invoked nothing yet.
    pub open spec fn start(arguments: Arguments<C, S, P>) -> Self {
        Run { arguments, completed: 0, failed: false }
    }

    /// At most ten scenarios complete, and only an invoked one can fail.
    pub open spec fn well_formed(self) -> bool {
        &&& self.completed <= SCENARIO_COUNT
        &&& self.failed ==> self.completed < SCENARIO_COUNT
    }

    /// All ten scenarios have come back successfully.
    pub open spec fn finished(self) -> bool {
        self.completed == SCENARIO_COUNT
    }

    /// The scenario that failed, if one did.
    pub open spec fn failure(self) -> Option<Scenario> {
        if self.failed && self.completed < SCENARIO_COUNT {
            Some(schedule()[self.completed as int])
        } else {
            None
        }
    }

    /// The call to make next. There is none once all ten have completed or
    /// one has failed; otherwise it is the next scenario of the schedule,
    /// with the arguments the run was started with.
    pub open spec fn pending(self) -> Option<Call<C, S, P>> {
        if !self.failed && self.completed < SCENARIO_COUNT {
            Some(Call { scenario: schedule()[self.completed as int], arguments: self.arguments })
        } else {
            None
        }
    }

    /// The run after the pending call has come back, successfully or not.
    /// With no call pending there is nothing to settle and the run stays as
    /// it is.
    pub open spec fn settle(self, succeeded: bool) -> Self {
        if self.pending() is None {
            self
        } else if succeeded {
            Run { completed: self.completed + 1, ..self }
        } else {
            Run { failed: true, ..self }
        }
    }

    /// The calls that are made when the run is driven to its end, where
    /// `outcomes[i]` says whether the `i`-th call made from here on succeeds.
    /// Driving stops when no call is pending or no outcome is left.
    pub open spec fn calls(self, outcomes: Seq<bool>) -> Seq<Call<C, S, P>>
        decreases outcomes.len(),
    {
        if outcomes.len() == 0 {
            Seq::empty()
        } else {
            match self.pending() {
                None => Seq::empty(),
                Some(call) => seq![call] + self.settle(outcomes[0]).calls(outcomes.drop_first()),
            }
        }
    }

    /// The run after it has been driven as `calls` describes.
    pub open spec fn drive(self, outcomes: Seq<bool>) -> Self
        decreases outcomes.len(),
    {
        if outcomes.len() == 0 || self.pending() is None {
            self
        } else {
            self.settle(outcomes[0]).drive(outcomes.drop_first())
        }
    }
}

} // verus!
