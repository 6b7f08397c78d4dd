//! The ledger run for the BPF loader: ten scenarios, invoked in a fixed
//! order, each with the same five arguments.
//!
//! `bpf_loader_ledger` makes the whole run, given the routine that carries
//! one scenario out against the node. `LedgerRun` is the same run taken one
//! step at a time, for a caller that has to make the calls itself: it asks
//! for the pending invocation, carries it out, and settles the run with the
//! outcome, until nothing is pending any more.

use vstd::prelude::*;
use crate::model::{Arguments, Call, Run};
use crate::scenario::{schedule, Scenario, SCENARIO_COUNT};

verus! {

/// One downstream call, ready to be made: the scenario, and the borrowed
/// arguments of the run.
pub struct Invocation<'a, C, S, P> {
    pub scenario: Scenario,
    pub client: &'a C,
    pub arc_client: &'a S,
    pub payer: &'a P,
    pub program_data: &'a Vec<u8>,
    pub account_data: &'a Vec<u8>,
}

/// The five arguments as a run holds them: the handles as they are, the
/// buffers by their bytes.
pub open spec fn borrowed<C, S, P>(
    client: &C,
    arc_client: &S,
    payer: &P,
    program_data: &Vec<u8>,
    account_data: &Vec<u8>,
) -> Arguments<C, S, P> {
    Arguments {
        client: *client,
        arc_client: *arc_client,
        payer: *payer,
        program_data: program_data@,
        account_data: account_data@,
    }
}

impl<'a, C, S, P> View for Invocation<'a, C, S, P> {
    type V = Call<C, S, P>;

    open spec fn view(&self) -> Call<C, S, P> {
        Call {
            scenario: self.scenario,
            arguments: borrowed(
                self.client,
                self.arc_client,
                self.payer,
                self.program_data,
                self.account_data,
            ),
        }
    }
}

/// A ledger run in progress. It borrows its five arguments for as long as it
/// lives and never changes or inspects them.
pub struct LedgerRun<'a, C, S, P> {
    client: &'a C,
    arc_client: &'a S,
    payer: &'a P,
    program_data: &'a Vec<u8>,
    account_data: &'a Vec<u8>,
    completed: usize,
    failed: bool,
}

impl<'a, C, S, P> View for LedgerRun<'a, C, S, P> {
    type V = Run<C, S, P>;

    closed spec fn view(&self) -> Run<C, S, P> {
        Run {
            arguments: borrowed(
                self.client,
                self.arc_client,
                self.payer,
                self.program_data,
                self.account_data,
            ),
            completed: self.completed as nat,
            failed: self.failed,
        }
    }
}

/// Whether `perform` may answer `outcome` when it is handed the scenario at
/// `index` of the schedule together with `arguments`: some invocation that
/// holds exactly this call is one on which `perform` can come back with
/// this outcome.
pub open spec fn answers<
    'a,
    C: 'a,
    S: 'a,
    P: 'a,
    E,
    F: Fn(Invocation<'a, C, S, P>) -> Result<(), E>,
>(perform: F, arguments: Arguments<C, S, P>, index: int, outcome: Result<(), E>) -> bool {
    exists|invocation: Invocation<'a, C, S, P>|
        {
            &&& invocation@ == (Call { scenario: schedule()[index], arguments })
            &&& #[trigger] call_ensures(perform, (invocation,), outcome)
        }
}

/// Runs the ledger for the BPF loader: hands each scenario of the schedule
/// to `perform`, in order and with the five arguments given here, and stops
/// at the first one that fails.
///
/// `perform` carries one scenario out against the node. It must be callable
/// on every scenario with these arguments; nothing else is asked of it.
///
/// The result is `Ok` only if `perform` answered `Ok` for all ten
/// scenarios. It is `Err(e)` only if `perform` answered `Ok` for the
/// scenarios before some scenario of the schedule and `Err(e)`, this very
/// `e`, for that one. The run adds no failure of its own: where `perform`
/// cannot fail on these arguments, the result is `Ok`.
pub fn bpf_loader_ledger<'a, C, S, P, E, F>(
    client: &'a C,
    arc_client: &'a S,
    payer: &'a P,
    program_data: &'a Vec<u8>,
    account_data: &'a Vec<u8>,
    perform: F,
) -> (result: Result<(), E>) where F: Fn(Invocation<'a, C, S, P>) -> Result<(), E>
    requires
        forall|invocation: Invocation<'a, C, S, P>|
            invocation@.arguments == borrowed(client, arc_client, payer, program_data, account_data) ==> #[trigger] call_requires(perform, (invocation,)),
    ensures
        ({
            let arguments = borrowed(client, arc_client, payer, program_data, account_data);
            match result {
                Ok(_) => forall|i: int|
                    0 <= i < SCENARIO_COUNT ==> #[trigger] answers(
                        perform,
                        arguments,
                        i,
                        Ok::<(), E>(()),
                    ),
                Err(e) => exists|k: int|
                    {
                        &&& 0 <= k < SCENARIO_COUNT
                        &&& forall|i: int|
                            0 <= i < k ==> #[trigger] answers(
                                perform,
                                arguments,
                                i,
                                Ok::<(), E>(()),
                            )
                        &&& #[trigger] answers(perform, arguments, k, Err::<(), E>(e))
                    },
            }
        }),
        (forall|invocation: Invocation<'a, C, S, P>, outcome: Result<(), E>|
            invocation@.arguments == borrowed(client, arc_client, payer, program_data, account_data) && #[trigger] call_ensures(
                perform,
                (invocation,),
                outcome,
            ) ==> outcome is Ok) ==> result is Ok,
{
    let ghost arguments = borrowed(client, arc_client, payer, program_data, account_data);
    let mut run = LedgerRun::new(client, arc_client, payer, program_data, account_data);
    loop
        invariant
            arguments == borrowed(client, arc_client, payer, program_data, account_data),
            run@.arguments == arguments,
            run@.well_formed(),
            !run@.failed,
            forall|invocation: Invocation<'a, C, S, P>|
                invocation@.arguments == arguments ==> #[trigger] call_requires(
                    perform,
                    (invocation,),
                ),
            forall|i: int|
                0 <= i < run@.completed ==> #[trigger] answers(
                    perform,
                    arguments,
                    i,
                    Ok::<(), E>(()),
                ),
        decreases SCENARIO_COUNT - run@.completed,
    {
        match run.pending() {
            None => {
                return Ok(());
            },
            Some(invocation) => {
                let ghost before = run@.completed as int;
                let outcome = perform(invocation);
                assert(answers(perform, arguments, before, outcome));
                match run.settle(outcome) {
                    Ok(done) => {
                        assert(outcome == Ok::<(), E>(done));
                    },
                    Err(e) => {
                        return Err(e);
                    },
                }
            },
        }
    }
}

impl<'a, C, S, P> LedgerRun<'a, C, S, P> {
    #[verifier::type_invariant]
    spec fn keeps_well_formed(self) -> bool {
        self@.well_formed()
    }

    /// A run on the given connection, shared connection, payer, program
    /// bytes and account bytes. Nothing has been invoked yet; the first
    /// scenario of the schedule is pending.
    pub fn new(
        client: &'a C,
        arc_client: &'a S,
        payer: &'a P,
        program_data: &'a Vec<u8>,
        account_data: &'a Vec<u8>,
    ) -> (run: Self)
        ensures
            run@ == Run::start(borrowed(client, arc_client, payer, program_data, account_data)),
    {
        LedgerRun {
            client,
            arc_client,
            payer,
            program_data,
            account_data,
            completed: 0,
            failed: false,
        }
    }

    /// The invocation to carry out next, or `None` when the run is over:
    /// all ten scenarios have completed, or one has failed.
    pub fn pending(&self) -> (next: Option<Invocation<'a, C, S, P>>)
        ensures
            self@.well_formed(),
            match next {
                Some(invocation) => self@.pending() == Some(invocation@),
                None => self@.pending() is None,
            },
    {
        proof {
            use_type_invariant(self);
        }
        if self.failed {
            return None;
        }
        match Scenario::at(self.completed) {
            Some(scenario) => Some(
                Invocation {
                    scenario,
                    client: self.client,
                    arc_client: self.arc_client,
                    payer: self.payer,
                    program_data: self.program_data,
                    account_data: self.account_data,
                },
            ),
            None => None,
        }
    }

    /// Records how the pending invocation came back and hands the outcome
    /// on, untouched. A success makes the next scenario pending; a failure
    /// ends the run. With nothing pending the run stays as it is.
    pub fn settle<E>(&mut self, outcome: Result<(), E>) -> (reported: Result<(), E>)
        ensures
            reported == outcome,
            final(self)@ == old(self)@.settle(outcome is Ok),
            final(self)@.well_formed(),
    {
        proof {
            use_type_invariant(&*self);
        }
        if !self.failed && self.completed < SCENARIO_COUNT {
            match &outcome {
                Ok(_) => {
                    self.completed = self.completed + 1;
                },
                Err(_) => {
                    self.failed = true;
                },
            }
        }
        outcome
    }

    /// How many scenarios have completed successfully.
    pub fn completed(&self) -> (count: usize)
        ensures
            count == self@.completed,
            count <= SCENARIO_COUNT,
    {
        proof {
            use_type_invariant(self);
        }
        self.completed
    }

    /// Whether all ten scenarios have completed successfully.
    pub fn is_finished(&self) -> (finished: bool)
        ensures
            finished == self@.finished(),
    {
        self.completed == SCENARIO_COUNT
    }

    /// The scenario that failed, if one did.
    pub fn failure(&self) -> (failed: Option<Scenario>)
        ensures
            failed == self@.failure(),
    {
        if self.failed {
            Scenario::at(self.completed)
        } else {
            None
        }
    }
}

} // verus!
