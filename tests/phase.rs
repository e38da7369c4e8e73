use magic::phase::{BeginningStep, CombatStep, EndingStep, Phase, Step};

#[test]
fn steps_in_turn_order() {
    let steps = Step::iterator();
    assert_eq!(steps.len(), 13);
    assert_eq!(steps[0], Step::Beginning(BeginningStep::Untap));
    assert_eq!(steps[3], Step::FirstMain);
    assert_eq!(steps[7], Step::Combat(CombatStep::FirstCombatDamage));
    assert_eq!(steps[12], Step::Ending(EndingStep::Cleanup));
}

#[test]
fn phases_and_priority() {
    assert_eq!(Step::Combat(CombatStep::EndCombat).phase(), Phase::Combat);
    assert_eq!(Step::SecondMain.phase(), Phase::SecondMain);
    assert_eq!(Step::Beginning(BeginningStep::Draw).phase(), Phase::Beginning);
    assert!(!Step::Beginning(BeginningStep::Untap).has_priority());
    assert!(!Step::Ending(EndingStep::Cleanup).has_priority());
    assert!(Step::Ending(EndingStep::End).has_priority());
    let with_priority = Step::iterator().iter().filter(|s| s.has_priority()).count();
    assert_eq!(with_priority, 11);
}
