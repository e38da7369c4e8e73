use magic::mana::{ConvertedManaCost, ManaCost, ManaSymbol};
use magic::Color::{Black, Blue, Green, Red, White};

#[test]
fn mana_symbol_to_string() {
    assert_eq!(ManaSymbol::phyrexian(Blue).to_string(), "{U/P}");
    assert_eq!(ManaSymbol::generic(0).to_string(), "{0}");
}

#[test]
fn mana_mana_symbol_to_string() {
    assert_eq!(ManaSymbol::Phyrexian(Blue).to_string(), "{U/P}");
    assert_eq!(ManaSymbol::Generic(0).to_string(), "{0}");
}

#[test]
fn mana_cost_to_string() {
    let cost = ManaCost::from_iter(vec![
        ManaSymbol::generic(5),
        ManaSymbol::colorless(),
        ManaSymbol::colored(Green),
        ManaSymbol::hybrid(Black, White),
    ]);

    assert_eq!(cost.to_string(), "{5}{C}{G}{W/B}");
}

#[test]
fn mana_mana_cost_to_string() {
    let cost = ManaCost::from_iter(vec![
        ManaSymbol::Generic(5),
        ManaSymbol::Colorless,
        ManaSymbol::Colored(Green),
        ManaSymbol::Hybrid(Black, White),
    ]);

    assert_eq!(cost.to_string(), "{5}{C}{G}{W/B}");
}

#[test]
fn mana_cost_scenario_value() {
    let cost = ManaCost::from_iter(vec![
        ManaSymbol::generic(5),
        ManaSymbol::colorless(),
        ManaSymbol::colored(Green),
        ManaSymbol::hybrid(Black, White),
    ]);

    assert_eq!(cost.to_string(), "{5}{C}{G}{W/B}");
    assert_eq!(cost.converted_mana_cost(), 8);
}

#[test]
fn symbol_texts() {
    assert_eq!(ManaSymbol::generic(12).to_string(), "{12}");
    assert_eq!(ManaSymbol::generic(100).to_string(), "{100}");
    assert_eq!(ManaSymbol::colorless().to_string(), "{C}");
    assert_eq!(ManaSymbol::colored(Red).to_string(), "{R}");
    assert_eq!(ManaSymbol::variable().to_string(), "{X}");
    assert_eq!(ManaSymbol::hybrid(White, Blue).to_string(), "{W/U}");
    assert_eq!(ManaSymbol::hybrid(Green, Black).to_string(), "{B/G}");
    assert_eq!(ManaSymbol::Hybrid(White, Green).to_string(), "{G/W}");
    assert_eq!(ManaSymbol::mono_hybrid(Black).to_string(), "{B/2}");
    assert_eq!(ManaSymbol::snow().to_string(), "{S}");
}

#[test]
fn hybrid_is_stored_in_pie_order() {
    assert_eq!(ManaSymbol::hybrid(Black, White), ManaSymbol::Hybrid(White, Black));
    assert_eq!(ManaSymbol::hybrid(White, Green), ManaSymbol::Hybrid(Green, White));
}

#[test]
fn symbol_values() {
    assert_eq!(ManaSymbol::generic(7).converted_mana_cost(), 7);
    assert_eq!(ManaSymbol::colored(Blue).converted_mana_cost(), 1);
    assert_eq!(ManaSymbol::colorless().converted_mana_cost(), 1);
    assert_eq!(ManaSymbol::variable().converted_mana_cost(), 0);
    assert_eq!(ManaSymbol::hybrid(Red, Green).converted_mana_cost(), 1);
    assert_eq!(ManaSymbol::mono_hybrid(Red).converted_mana_cost(), 2);
    assert_eq!(ManaSymbol::phyrexian(Red).converted_mana_cost(), 1);
    assert_eq!(ManaSymbol::snow().converted_mana_cost(), 1);
}

#[test]
fn mana_value_is_sum_in_any_order() {
    let a = ManaCost::from_iter(vec![
        ManaSymbol::variable(),
        ManaSymbol::generic(3),
        ManaSymbol::mono_hybrid(White),
        ManaSymbol::snow(),
    ]);
    let b = ManaCost::from_iter(vec![
        ManaSymbol::snow(),
        ManaSymbol::mono_hybrid(White),
        ManaSymbol::generic(3),
        ManaSymbol::variable(),
    ]);
    assert_eq!(a.converted_mana_cost(), 6);
    assert_eq!(b.converted_mana_cost(), 6);
    assert_eq!(ManaCost::new().converted_mana_cost(), 0);
}

#[test]
fn permuted_costs_are_equal() {
    let a = ManaCost::from_iter(vec![
        ManaSymbol::generic(2),
        ManaSymbol::colored(Green),
        ManaSymbol::hybrid(Black, White),
        ManaSymbol::phyrexian(Red),
    ]);
    let b = ManaCost::from_iter(vec![
        ManaSymbol::phyrexian(Red),
        ManaSymbol::Hybrid(Black, White),
        ManaSymbol::colored(Green),
        ManaSymbol::generic(2),
    ]);
    assert_eq!(a, b);
    assert_ne!(a.to_string(), b.to_string());
}

#[test]
fn generic_amounts_merge() {
    let a = ManaCost::from_iter(vec![ManaSymbol::generic(2), ManaSymbol::generic(3)]);
    let b = ManaCost::from_iter(vec![ManaSymbol::generic(5)]);
    assert_eq!(a, b);
    let c = ManaCost::from_iter(vec![ManaSymbol::generic(4)]);
    assert_ne!(a, c);
}

#[test]
fn distinct_costs_differ() {
    let colored = ManaCost::from_iter(vec![ManaSymbol::colored(Green)]);
    let colorless = ManaCost::from_iter(vec![ManaSymbol::colorless()]);
    assert_ne!(colored, colorless);
    let hybrid = ManaCost::from_iter(vec![ManaSymbol::hybrid(Green, Green)]);
    let mono = ManaCost::from_iter(vec![ManaSymbol::mono_hybrid(Green)]);
    assert_ne!(hybrid, mono);
    let two = ManaCost::from_iter(vec![ManaSymbol::snow(), ManaSymbol::snow()]);
    let one = ManaCost::from_iter(vec![ManaSymbol::snow()]);
    assert_ne!(two, one);
    assert_ne!(one, two);
    assert_eq!(ManaCost::new(), ManaCost::default());
}

#[test]
fn cost_push_and_symbols() {
    let mut cost = ManaCost::new();
    cost.push(ManaSymbol::variable());
    cost.push(ManaSymbol::colored(Blue));
    assert_eq!(cost.symbols(), &vec![ManaSymbol::Variable, ManaSymbol::Colored(Blue)]);
    assert_eq!(cost.to_string(), "{X}{U}");
    assert!(cost.equivalent(&ManaCost::from_iter(vec![ManaSymbol::colored(Blue), ManaSymbol::variable()])));
}
