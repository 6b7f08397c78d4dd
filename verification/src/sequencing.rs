//! What holds of a ledger run from its first call to its last.
//!
//! The theorems here are about `Run::calls` and `Run::drive`: the calls made,
//! and the state reached, when a run is driven with a given stream of
//! outcomes. They are what the executable `pending` and `settle` add up to.

use vstd::prelude::*;
use crate::model::{leading_successes, Arguments, Call, Run};
use crate::scenario::{lemma_schedule_holds_each_scenario_once, schedule, Scenario, SCENARIO_COUNT};

verus! {

/// The number of calls made when `successes` outcomes at the head of a
/// stream of `supplied` outcomes are successes and `left` scenarios are
/// still to be invoked: one call per leading success, one more for the
/// failure that follows them if there is one, and never more than are left.
pub open spec fn calls_made(successes: nat, supplied: nat, left: nat) -> nat {
    let wanted = if successes < supplied {
        successes + 1
    } else {
        successes
    };
    if wanted < left {
        wanted
    } else {
        left
    }
}

/// Driving a run that has not failed, from wherever it stands: it makes the
/// next scenarios of the schedule, in order and with its own arguments, one
/// for each leading success and one for the first failure, and stops after
/// the tenth scenario or the first failure, whichever comes first.
pub proof fn lemma_drive_from_any_point<C, S, P>(run: Run<C, S, P>, outcomes: Seq<bool>)
    requires
        run.well_formed(),
        !run.failed,
    ensures
        ({
            let successes = leading_successes(outcomes);
            let left = (SCENARIO_COUNT - run.completed) as nat;
            let made = calls_made(successes, outcomes.len(), left);
            &&& run.calls(outcomes).len() == made
            &&& forall|i: int|
                0 <= i < made ==> #[trigger] run.calls(outcomes)[i] == (Call {
                    scenario: schedule()[run.completed + i],
                    arguments: run.arguments,
                })
            &&& run.drive(outcomes) == (Run {
                arguments: run.arguments,
                completed: if successes < left {
                    run.completed + successes
                } else {
                    SCENARIO_COUNT as nat
                },
                failed: successes < left && successes < outcomes.len(),
            })
        }),
    decreases outcomes.len(),
{
    if outcomes.len() == 0 || run.pending() is None {
    } else {
        let next = run.settle(outcomes[0]);
        let rest = outcomes.drop_first();
        let head = run.pending()->Some_0;
        assert(run.calls(outcomes) == seq![head] + next.calls(rest));
        if outcomes[0] {
            lemma_drive_from_any_point(next, rest);
            assert forall|i: int|
                0 <= i < run.calls(outcomes).len() implies #[trigger] run.calls(outcomes)[i] == (Call {
                scenario: schedule()[run.completed + i],
                arguments: run.arguments,
            }) by {
                if i > 0 {
                    assert(run.calls(outcomes)[i] == next.calls(rest)[i - 1]);
                }
            }
        } else {
            assert(next.pending() is None);
            assert(next.calls(rest) == Seq::<Call<C, S, P>>::empty());
            assert(next.drive(rest) == next);
        }
    }
}

/// When every scenario succeeds, all ten are invoked, each exactly once and
/// in the order of the schedule, and the run ends finished and without a
/// failure.
pub proof fn lemma_full_run_invokes_all_ten_in_order<C, S, P>(
    arguments: Arguments<C, S, P>,
    outcomes: Seq<bool>,
)
    requires
        outcomes.len() >= SCENARIO_COUNT,
        forall|i: int| 0 <= i < SCENARIO_COUNT ==> outcomes[i],
    ensures
        Run::start(arguments).calls(outcomes).len() == SCENARIO_COUNT,
        forall|i: int|
            0 <= i < SCENARIO_COUNT ==> (#[trigger] Run::start(arguments).calls(
                outcomes,
            )[i]).scenario == schedule()[i],
        forall|s: Scenario|
            (#[trigger] Run::start(arguments).calls(outcomes)[s.spec_position() as int]).scenario
                == s,
        forall|i: int, j: int|
            0 <= i < SCENARIO_COUNT && 0 <= j < SCENARIO_COUNT && i != j ==> (
            #[trigger] Run::start(arguments).calls(outcomes)[i]).scenario != (
            #[trigger] Run::start(arguments).calls(outcomes)[j]).scenario,
        Run::start(arguments).drive(outcomes).finished(),
        Run::start(arguments).drive(outcomes).failure() is None,
        Run::start(arguments).drive(outcomes).pending() is None,
{
    lemma_successes_at_the_head(outcomes, SCENARIO_COUNT as nat);
    lemma_drive_from_any_point(Run::start(arguments), outcomes);
    lemma_schedule_holds_each_scenario_once();
}

/// Whatever the outcomes, the calls made are the first scenarios of the
/// schedule, in its order: never more than ten, none skipped, none repeated.
pub proof fn lemma_calls_follow_the_schedule<C, S, P>(
    arguments: Arguments<C, S, P>,
    outcomes: Seq<bool>,
)
    ensures
        Run::start(arguments).calls(outcomes).len() <= SCENARIO_COUNT,
        Run::start(arguments).calls(outcomes).len() <= outcomes.len(),
        forall|i: int|
            0 <= i < Run::start(arguments).calls(outcomes).len() ==> (
            #[trigger] Run::start(arguments).calls(outcomes)[i]).scenario == schedule()[i],
{
    lemma_drive_from_any_point(Run::start(arguments), outcomes);
    lemma_leading_successes_end_at_a_failure(outcomes);
}

/// Every call of a run receives the arguments the run was started with, and
/// the run still holds them when it ends.
pub proof fn lemma_every_call_receives_the_arguments<C, S, P>(
    arguments: Arguments<C, S, P>,
    outcomes: Seq<bool>,
)
    ensures
        forall|i: int|
            0 <= i < Run::start(arguments).calls(outcomes).len() ==> (
            #[trigger] Run::start(arguments).calls(outcomes)[i]).arguments == arguments,
        Run::start(arguments).drive(outcomes).arguments == arguments,
{
    lemma_drive_from_any_point(Run::start(arguments), outcomes);
}

/// A run ends finished exactly when the first ten calls all succeed, and it
/// ends with a failure exactly when one of them fails: the failure recorded
/// is then the first scenario that failed, that scenario is the last call
/// made, and nothing is pending after it.
pub proof fn lemma_failure_is_kept_and_ends_the_run<C, S, P>(
    arguments: Arguments<C, S, P>,
    outcomes: Seq<bool>,
)
    ensures
        ({
            let run = Run::start(arguments);
            let successes = leading_successes(outcomes);
            let failed = successes < SCENARIO_COUNT && successes < outcomes.len();
            &&& run.drive(outcomes).finished() <==> successes >= SCENARIO_COUNT
            &&& failed ==> !outcomes[successes as int]
            &&& failed ==> run.drive(outcomes).failure() == Some(schedule()[successes as int])
            &&& failed ==> run.calls(outcomes).len() == successes + 1
            &&& failed ==> run.drive(outcomes).pending() is None
            &&& !failed ==> run.drive(outcomes).failure() is None
            &&& !failed ==> run.calls(outcomes).len() == if successes < SCENARIO_COUNT {
                successes
            } else {
                SCENARIO_COUNT as nat
            }
        }),
{
    lemma_drive_from_any_point(Run::start(arguments), outcomes);
    lemma_leading_successes_end_at_a_failure(outcomes);
}

/// The leading successes are successes, there are no more of them than
/// outcomes, and the outcome after them, if there is one, is a failure.
pub proof fn lemma_leading_successes_end_at_a_failure(outcomes: Seq<bool>)
    ensures
        leading_successes(outcomes) <= outcomes.len(),
        forall|i: int| 0 <= i < leading_successes(outcomes) ==> outcomes[i],
        leading_successes(outcomes) < outcomes.len() ==> !outcomes[leading_successes(
            outcomes,
        ) as int],
    decreases outcomes.len(),
{
    if outcomes.len() == 0 || !outcomes[0] {
    } else {
        let rest = outcomes.drop_first();
        lemma_leading_successes_end_at_a_failure(rest);
        assert forall|i: int| 0 <= i < leading_successes(outcomes) implies outcomes[i] by {
            if i > 0 {
                assert(outcomes[i] == rest[i - 1]);
            }
        }
        if leading_successes(outcomes) < outcomes.len() {
            assert(outcomes[leading_successes(outcomes) as int] == rest[leading_successes(rest) as int]);
        }
    }
}

/// A stream whose first `count` outcomes are successes has at least `count`
/// leading successes.
proof fn lemma_successes_at_the_head(outcomes: Seq<bool>, count: nat)
    requires
        outcomes.len() >= count,
        forall|i: int| 0 <= i < count ==> outcomes[i],
    ensures
        leading_successes(outcomes) >= count,
    decreases count,
{
    if count > 0 {
        let rest = outcomes.drop_first();
        assert forall|i: int| 0 <= i < count - 1 implies rest[i] by {
            assert(rest[i] == outcomes[i + 1]);
        }
        lemma_successes_at_the_head(rest, (count - 1) as nat);
    }
}

} // verus!
