use vstd::prelude::*;

verus! {

#[derive(Debug, Clone, Copy, PartialEq, Eq, Structural)]
pub enum BeginningStep {
    Untap,
    Upkeep,
    Draw,
}

#[derive(Debug, Clone, Copy, PartialEq, Eq, Structural)]
pub enum CombatStep {
    BeginCombat,
    DeclareAttackers,
    DeclareBlockers,
    FirstCombatDamage,
    CombatDamage,
    EndCombat,
}

#[derive(Debug, Clone, Copy, PartialEq, Eq, Structural)]
pub enum EndingStep {
    End,
    Cleanup,
}

/// A step of a turn; the main phases have a single step each.
#[derive(Debug, Clone, Copy, PartialEq, Eq, Structural)]
pub enum Step {
    Beginning(BeginningStep),
    FirstMain,
    Combat(CombatStep),
    SecondMain,
    Ending(EndingStep),
}

#[derive(Debug, Clone, Copy, PartialEq, Eq, Structural)]
pub enum Phase {
    Beginning,
    FirstMain,
    Combat,
    SecondMain,
    Ending,
}

/// The steps of a turn, in the order in which they happen.
pub open spec fn turn_steps() -> Seq<Step> {
    seq![
        Step::Beginning(BeginningStep::Untap),
        Step::Beginning(BeginningStep::Upkeep),
        Step::Beginning(BeginningStep::Draw),
        Step::FirstMain,
        Step::Combat(CombatStep::BeginCombat),
        Step::Combat(CombatStep::DeclareAttackers),
        Step::Combat(CombatStep::DeclareBlockers),
        Step::Combat(CombatStep::FirstCombatDamage),
        Step::Combat(CombatStep::CombatDamage),
        Step::Combat(CombatStep::EndCombat),
        Step::SecondMain,
        Step::Ending(EndingStep::End),
        Step::Ending(EndingStep::Cleanup),
    ]
}

impl Step {
    pub open spec fn spec_phase(self) -> Phase {
        match self {
            Step::Beginning(_) => Phase::Beginning,
            Step::FirstMain => Phase::FirstMain,
            Step::Combat(_) => Phase::Combat,
            Step::SecondMain => Phase::SecondMain,
            Step::Ending(_) => Phase::Ending,
        }
    }

    /// Players receive priority in every step but untap and cleanup.
    pub open spec fn spec_has_priority(self) -> bool {
        self != Step::Beginning(BeginningStep::Untap) && self != Step::Ending(EndingStep::Cleanup)
    }

    /// The steps of a turn in order.
    pub fn iterator() -> (r: Vec<Step>)
        ensures
            r@ == turn_steps(),
    {
        let r = vec![
            Step::Beginning(BeginningStep::Untap),
            Step::Beginning(BeginningStep::Upkeep),
            Step::Beginning(BeginningStep::Draw),
            Step::FirstMain,
            Step::Combat(CombatStep::BeginCombat),
            Step::Combat(CombatStep::DeclareAttackers),
            Step::Combat(CombatStep::DeclareBlockers),
            Step::Combat(CombatStep::FirstCombatDamage),
            Step::Combat(CombatStep::CombatDamage),
            Step::Combat(CombatStep::EndCombat),
            Step::SecondMain,
            Step::Ending(EndingStep::End),
            Step::Ending(EndingStep::Cleanup),
        ];
        assert(r@ =~= turn_steps());
        r
    }

    pub fn phase(self) -> (r: Phase)
        ensures
            r == self.spec_phase(),
    {
        match self {
            Step::Beginning(_) => Phase::Beginning,
            Step::FirstMain => Phase::FirstMain,
            Step::Combat(_) => Phase::Combat,
            Step::SecondMain => Phase::SecondMain,
            Step::Ending(_) => Phase::Ending,
        }
    }

    pub fn has_priority(self) -> (r: bool)
        ensures
            r == self.spec_has_priority(),
    {
        match self {
            Step::Beginning(BeginningStep::Untap) | Step::Ending(EndingStep::Cleanup) => false,
            _ => true,
        }
    }
}

} // verus!
