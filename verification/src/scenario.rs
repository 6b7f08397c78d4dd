//! The ten scenarios and the order in which a ledger run goes through them.

use vstd::prelude::*;

verus! {

/// Number of scenarios in a ledger run.
pub const SCENARIO_COUNT: usize = 10;

/// The pair of loader operations that a scenario exercises.
#[derive(Clone, Copy, Debug, PartialEq, Eq, Hash)]
pub enum Operation {
    DeployInvoke,
    UpgradeInvoke,
    DeployClose,
    CloseInvoke,
    CloseRedeploy,
}

/// Whether the two operations of a scenario land in one slot or in two.
#[derive(Clone, Copy, Debug, PartialEq, Eq, Hash)]
pub enum SlotTiming {
    SameSlot,
    DiffSlot,
}

/// One scenario of a ledger run.
#[derive(Clone, Copy, Debug, PartialEq, Eq, Hash)]
pub enum Scenario {
    DeployInvokeSameSlot,
    DeployInvokeDiffSlot,
    UpgradeInvokeSameSlot,
    UpgradeInvokeDiffSlot,
    DeployCloseSameSlot,
    DeployCloseDiffSlot,
    CloseInvokeSameSlot,
    CloseInvokeDiffSlot,
    CloseRedeploySameSlot,
    CloseRedeployDiffSlot,
}

/// The scenarios in the order in which a run invokes them.
pub open spec fn schedule() -> Seq<Scenario> {
    seq![
        Scenario::DeployInvokeSameSlot,
        Scenario::DeployInvokeDiffSlot,
        Scenario::UpgradeInvokeSameSlot,
        Scenario::UpgradeInvokeDiffSlot,
        Scenario::DeployCloseSameSlot,
        Scenario::DeployCloseDiffSlot,
        Scenario::CloseInvokeSameSlot,
        Scenario::CloseInvokeDiffSlot,
        Scenario::CloseRedeploySameSlot,
        Scenario::CloseRedeployDiffSlot,
    ]
}

impl Operation {
    /// Place of the pair among the five pairs, counted from zero.
    pub open spec fn rank(self) -> nat {
        match self {
            Operation::DeployInvoke => 0,
            Operation::UpgradeInvoke => 1,
            Operation::DeployClose => 2,
            Operation::CloseInvoke => 3,
            Operation::CloseRedeploy => 4,
        }
    }
}

impl SlotTiming {
    /// Place of the variant within its pair: same slot first.
    pub open spec fn rank(self) -> nat {
        match self {
            SlotTiming::SameSlot => 0,
            SlotTiming::DiffSlot => 1,
        }
    }
}

impl Scenario {
    /// The pair of operations this scenario belongs to.
    pub open spec fn spec_operation(self) -> Operation {
        match self {
            Scenario::DeployInvokeSameSlot | Scenario::DeployInvokeDiffSlot => Operation::DeployInvoke,
            Scenario::UpgradeInvokeSameSlot | Scenario::UpgradeInvokeDiffSlot => Operation::UpgradeInvoke,
            Scenario::DeployCloseSameSlot | Scenario::DeployCloseDiffSlot => Operation::DeployClose,
            Scenario::CloseInvokeSameSlot | Scenario::CloseInvokeDiffSlot => Operation::CloseInvoke,
            Scenario::CloseRedeploySameSlot | Scenario::CloseRedeployDiffSlot => Operation::CloseRedeploy,
        }
    }

    /// The slot variant of this scenario.
    pub open spec fn spec_timing(self) -> SlotTiming {
        match self {
            Scenario::DeployInvokeSameSlot
            | Scenario::UpgradeInvokeSameSlot
            | Scenario::DeployCloseSameSlot
            | Scenario::CloseInvokeSameSlot
            | Scenario::CloseRedeploySameSlot => SlotTiming::SameSlot,
            Scenario::DeployInvokeDiffSlot
            | Scenario::UpgradeInvokeDiffSlot
            | Scenario::DeployCloseDiffSlot
            | Scenario::CloseInvokeDiffSlot
            | Scenario::CloseRedeployDiffSlot => SlotTiming::DiffSlot,
        }
    }

    /// Place of this scenario in the schedule: pairs in their order, and
    /// within a pair the same-slot variant before the other.
    pub open spec fn spec_position(self) -> nat {
        2 * self.spec_operation().rank() + self.spec_timing().rank()
    }

    /// Name of the routine that carries this scenario out.
    pub open spec fn spec_name(self) -> Seq<char> {
        match self {
            Scenario::DeployInvokeSameSlot => "deploy_invoke_same_slot"@,
            Scenario::DeployInvokeDiffSlot => "deploy_invoke_diff_slot"@,
            Scenario::UpgradeInvokeSameSlot => "upgrade_invoke_same_slot"@,
            Scenario::UpgradeInvokeDiffSlot => "upgrade_invoke_diff_slot"@,
            Scenario::DeployCloseSameSlot => "deploy_close_same_slot"@,
            Scenario::DeployCloseDiffSlot => "deploy_close_diff_slot"@,
            Scenario::CloseInvokeSameSlot => "close_invoke_same_slot"@,
            Scenario::CloseInvokeDiffSlot => "close_invoke_diff_slot"@,
            Scenario::CloseRedeploySameSlot => "close_redeploy_same_slot"@,
            Scenario::CloseRedeployDiffSlot => "close_redeploy_diff_slot"@,
        }
    }

    /// The scenario that stands at `index` in the schedule, if there is one.
    pub fn at(index: usize) -> (found: Option<Scenario>)
        ensures
            index < SCENARIO_COUNT ==> found == Some(schedule()[index as int]),
            index >= SCENARIO_COUNT ==> found is None,
    {
        match index {
            0 => Some(Scenario::DeployInvokeSameSlot),
            1 => Some(Scenario::DeployInvokeDiffSlot),
            2 => Some(Scenario::UpgradeInvokeSameSlot),
            3 => Some(Scenario::UpgradeInvokeDiffSlot),
            4 => Some(Scenario::DeployCloseSameSlot),
            5 => Some(Scenario::DeployCloseDiffSlot),
            6 => Some(Scenario::CloseInvokeSameSlot),
            7 => Some(Scenario::CloseInvokeDiffSlot),
            8 => Some(Scenario::CloseRedeploySameSlot),
            9 => Some(Scenario::CloseRedeployDiffSlot),
            _ => None,
        }
    }

    /// Where this scenario stands in the schedule.
    pub fn position(self) -> (index: usize)
        ensures
            index == self.spec_position(),
            index < SCENARIO_COUNT,
            schedule()[index as int] == self,
    {
        match self {
            Scenario::DeployInvokeSameSlot => 0,
            Scenario::DeployInvokeDiffSlot => 1,
            Scenario::UpgradeInvokeSameSlot => 2,
            Scenario::UpgradeInvokeDiffSlot => 3,
            Scenario::DeployCloseSameSlot => 4,
            Scenario::DeployCloseDiffSlot => 5,
            Scenario::CloseInvokeSameSlot => 6,
            Scenario::CloseInvokeDiffSlot => 7,
            Scenario::CloseRedeploySameSlot => 8,
            Scenario::CloseRedeployDiffSlot => 9,
        }
    }

    /// The pair of operations this scenario belongs to.
    pub fn operation(self) -> (operation: Operation)
        ensures
            operation == self.spec_operation(),
    {
        match self {
            Scenario::DeployInvokeSameSlot | Scenario::DeployInvokeDiffSlot => Operation::DeployInvoke,
            Scenario::UpgradeInvokeSameSlot | Scenario::UpgradeInvokeDiffSlot => Operation::UpgradeInvoke,
            Scenario::DeployCloseSameSlot | Scenario::DeployCloseDiffSlot => Operation::DeployClose,
            Scenario::CloseInvokeSameSlot | Scenario::CloseInvokeDiffSlot => Operation::CloseInvoke,
            Scenario::CloseRedeploySameSlot | Scenario::CloseRedeployDiffSlot => Operation::CloseRedeploy,
        }
    }

    /// The slot variant of this scenario.
    pub fn timing(self) -> (timing: SlotTiming)
        ensures
            timing == self.spec_timing(),
    {
        match self {
            Scenario::DeployInvokeSameSlot
            | Scenario::UpgradeInvokeSameSlot
            | Scenario::DeployCloseSameSlot
            | Scenario::CloseInvokeSameSlot
            | Scenario::CloseRedeploySameSlot => SlotTiming::SameSlot,
            Scenario::DeployInvokeDiffSlot
            | Scenario::UpgradeInvokeDiffSlot
            | Scenario::DeployCloseDiffSlot
            | Scenario::CloseInvokeDiffSlot
            | Scenario::CloseRedeployDiffSlot => SlotTiming::DiffSlot,
        }
    }

    /// Name of the routine that carries this scenario out.
    pub fn name(self) -> (name: &'static str)
        ensures
            name@ == self.spec_name(),
    {
        match self {
            Scenario::DeployInvokeSameSlot => "deploy_invoke_same_slot",
            Scenario::DeployInvokeDiffSlot => "deploy_invoke_diff_slot",
            Scenario::UpgradeInvokeSameSlot => "upgrade_invoke_same_slot",
            Scenario::UpgradeInvokeDiffSlot => "upgrade_invoke_diff_slot",
            Scenario::DeployCloseSameSlot => "deploy_close_same_slot",
            Scenario::DeployCloseDiffSlot => "deploy_close_diff_slot",
            Scenario::CloseInvokeSameSlot => "close_invoke_same_slot",
            Scenario::CloseInvokeDiffSlot => "close_invoke_diff_slot",
            Scenario::CloseRedeploySameSlot => "close_redeploy_same_slot",
            Scenario::CloseRedeployDiffSlot => "close_redeploy_diff_slot",
        }
    }
}

/// Every scenario stands in the schedule exactly once: the schedule has ten
/// places, each scenario stands at its own position, and no two places hold
/// the same scenario.
pub proof fn lemma_schedule_holds_each_scenario_once()
    ensures
        schedule().len() == SCENARIO_COUNT,
        forall|s: Scenario| #[trigger]
            s.spec_position() < SCENARIO_COUNT && schedule()[s.spec_position() as int] == s,
        forall|i: int, j: int|
            0 <= i < SCENARIO_COUNT && 0 <= j < SCENARIO_COUNT && i != j ==> schedule()[i]
                != schedule()[j],
{
}

} // verus!
