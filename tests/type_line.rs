use magic::type_::{
    CreatureType, EnchantmentType, LandType, PlanarType, PlaneswalkerType, SpellType, Subtype,
    Supertype, Type,
};
use magic::type_::Supertype::{Basic, Legendary, Snow};
use magic::type_::Type::{
    Artifact, Creature, Enchantment, Instant, Land, Plane, Planeswalker,
};
use magic::type_line::{TypeLine, TypeLineReadError};

fn line(supertypes: &[Supertype], types: &[Type], subtypes: &[Subtype]) -> TypeLine {
    let mut l = TypeLine::new();
    for s in supertypes {
        l.add_supertype(*s);
    }
    for t in types {
        l.add_type(*t);
    }
    for s in subtypes {
        l.add_subtype(*s);
    }
    l
}

fn creature(c: CreatureType) -> Subtype {
    Subtype::Creature(c)
}

#[test]
fn type_lines() {

    let pairs = [
        (
            line(&[Legendary], &[Enchantment, Creature], &[creature(CreatureType::God)]),
            "Legendary Enchantment Creature \u{2014} God",
        ),
        (
            line(&[], &[Artifact, Creature], &[creature(CreatureType::Construct)]),
            "Artifact Creature \u{2014} Construct",
        ),
        (
            line(&[], &[Creature], &[creature(CreatureType::Merfolk), creature(CreatureType::Wizard)]),
            "Creature \u{2014} Merfolk Wizard",
        ),
        (line(&[], &[Land], &[]), "Land"),
        (
            line(&[Legendary], &[Planeswalker], &[Subtype::Planeswalker(PlaneswalkerType::Karn)]),
            "Legendary Planeswalker \u{2014} Karn",
        ),
        (
            line(
                &[],
                &[Enchantment],
                &[
                    Subtype::Enchantment(EnchantmentType::Aura),
                    Subtype::Enchantment(EnchantmentType::Curse),
                ],
            ),
            "Enchantment \u{2014} Aura Curse",
        ),
        (
            line(&[Basic, Snow], &[Land], &[Subtype::Land(LandType::Mountain)]),
            "Basic Snow Land \u{2014} Mountain",
        ),
        (line(&[], &[Instant], &[Subtype::Spell(SpellType::Arcane)]), "Instant \u{2014} Arcane"),
        (
            line(&[], &[Plane], &[Subtype::Plane(PlanarType::BolassMeditationRealm)]),
            "Plane \u{2014} Bolas's Meditation Realm",
        ),
    ];

    for (line, string) in pairs.iter() {
        assert!(line.is_valid());
        assert_eq!(line.to_string(), *string);
        assert_eq!(string.parse::<TypeLine>().unwrap(), *line);
    }
}

#[test]
fn invalid_type_lines() {

    let lines = [
        line(&[], &[Artifact], &[creature(CreatureType::Human)]),
        line(&[], &[Enchantment, Creature], &[Subtype::Planeswalker(PlaneswalkerType::Jace)]),
        line(&[Legendary, Snow], &[Land], &[Subtype::Enchantment(EnchantmentType::Curse)]),
    ];

    for line in lines.iter() {
        assert!(!line.is_valid());
    }
}

#[test]
fn scenario_render_god() {
    let l = line(
        &[Supertype::Legendary],
        &[Type::Enchantment, Type::Creature],
        &[creature(CreatureType::God)],
    );
    assert_eq!(l.to_string(), "Legendary Enchantment Creature \u{2014} God");
}

#[test]
fn scenario_parse_multi_word_subtype() {
    let l = TypeLine::parse("Plane \u{2014} Bolas's Meditation Realm").unwrap();
    assert_eq!(l.types_iter(), vec![Type::Plane]);
    assert_eq!(l.subtypes_iter(), vec![Subtype::Plane(PlanarType::BolassMeditationRealm)]);
    assert_eq!(l.supertypes_iter(), vec![]);
}

#[test]
fn scenario_artifact_human_invalid() {
    let l = line(&[], &[Type::Artifact], &[creature(CreatureType::Human)]);
    assert!(!l.is_valid());
}

#[test]
fn empty_type_line_is_invalid() {
    assert!(!TypeLine::new().is_valid());
    assert!(!line(&[Supertype::Legendary], &[], &[]).is_valid());
    assert!(line(&[], &[Type::Tribal, Type::Instant], &[creature(CreatureType::Goblin)]).is_valid());
}

#[test]
fn round_trip_keeps_order() {
    let l = line(
        &[Supertype::Snow, Supertype::Basic],
        &[Type::Land, Type::Artifact],
        &[Subtype::Land(LandType::Urzas), Subtype::Land(LandType::PowerPlant)],
    );
    let text = l.to_string();
    assert_eq!(text, "Snow Basic Land Artifact \u{2014} Urza's Power-Plant");
    let back = TypeLine::parse(&text).unwrap();
    assert_eq!(back.supertypes_iter(), l.supertypes_iter());
    assert_eq!(back.types_iter(), l.types_iter());
    assert_eq!(back.subtypes_iter(), l.subtypes_iter());
}

#[test]
fn parse_errors() {
    assert_eq!(
        TypeLine::parse("Legendary Goblin"),
        Err(TypeLineReadError::ExtraParts("Goblin".to_string()))
    );
    assert_eq!(
        TypeLine::parse("Creature Legendary"),
        Err(TypeLineReadError::ExtraParts("Legendary".to_string()))
    );
    assert_eq!(
        TypeLine::parse("Creature \u{2014} Goblin Shaman Wizzard"),
        Err(TypeLineReadError::ExtraParts("Wizzard".to_string()))
    );
}

#[test]
fn parse_edge_cases() {
    let empty = TypeLine::parse("").unwrap();
    assert_eq!(empty, TypeLine::new());
    let spaced = TypeLine::parse("  Creature   \u{2014}  Elf  Warrior ").unwrap();
    assert_eq!(
        spaced.subtypes_iter(),
        vec![creature(CreatureType::Elf), creature(CreatureType::Warrior)]
    );
    let dup = TypeLine::parse("Creature Creature \u{2014} Elf Elf").unwrap();
    assert_eq!(dup.types_iter(), vec![Type::Creature]);
    assert_eq!(dup.subtypes_iter(), vec![creature(CreatureType::Elf)]);
    let two_dashes = TypeLine::parse("Creature \u{2014} Elf \u{2014} Warrior").unwrap();
    assert_eq!(two_dashes.subtypes_iter(), vec![creature(CreatureType::Elf)]);
}

#[test]
fn add_remove_has() {
    let mut l = TypeLine::new();
    l.add_type(Type::Creature);
    l.add_type(Type::Artifact);
    l.add_type(Type::Creature);
    assert_eq!(l.types_iter(), vec![Type::Creature, Type::Artifact]);
    assert!(l.has_type(Type::Artifact));
    l.remove_type(Type::Creature);
    l.remove_type(Type::Land);
    assert_eq!(l.types_iter(), vec![Type::Artifact]);
    assert!(!l.has_type(Type::Creature));
    l.add_supertype(Supertype::World);
    assert!(l.has_supertype(Supertype::World));
    l.remove_supertype(Supertype::World);
    assert!(!l.has_supertype(Supertype::World));
    l.add_subtype(creature(CreatureType::Golem));
    assert!(l.has_subtype(creature(CreatureType::Golem)));
    l.remove_subtype(creature(CreatureType::Golem));
    assert!(!l.has_subtype(creature(CreatureType::Golem)));
}

#[test]
fn equality_ignores_order() {
    let a = line(&[], &[Type::Artifact, Type::Creature], &[]);
    let b = line(&[], &[Type::Creature, Type::Artifact], &[]);
    assert_eq!(a, b);
    let c = line(&[], &[Type::Creature], &[]);
    assert_ne!(a, c);
    let d = TypeLine::from_iters(vec![], vec![Type::Creature, Type::Artifact, Type::Creature], vec![]);
    assert_eq!(d.types_iter(), vec![Type::Creature, Type::Artifact]);
    assert_eq!(d.clone(), b);
}

#[test]
fn multi_word_subtype_with_another_does_not_read_back() {
    let l = line(
        &[],
        &[Plane],
        &[
            Subtype::Plane(PlanarType::BolassMeditationRealm),
            Subtype::Plane(PlanarType::Lorwyn),
        ],
    );
    let text = l.to_string();
    assert_eq!(text, "Plane \u{2014} Bolas's Meditation Realm Lorwyn");
    assert_eq!(
        TypeLine::parse(&text),
        Err(TypeLineReadError::ExtraParts("Bolas's".to_string()))
    );
}

#[test]
fn single_word_round_trips() {
    let l = line(
        &[Supertype::World],
        &[Type::Enchantment],
        &[
            Subtype::Enchantment(EnchantmentType::Shrine),
            Subtype::Enchantment(EnchantmentType::Saga),
            Subtype::Enchantment(EnchantmentType::Cartouche),
        ],
    );
    let back = TypeLine::parse(&l.to_string()).unwrap();
    assert_eq!(back.supertypes_iter(), l.supertypes_iter());
    assert_eq!(back.types_iter(), l.types_iter());
    assert_eq!(back.subtypes_iter(), l.subtypes_iter());
    let new_phyrexia = line(&[], &[Plane], &[Subtype::Plane(PlanarType::NewPhyrexia)]);
    assert_eq!(TypeLine::parse(&new_phyrexia.to_string()).unwrap(), new_phyrexia);
}
