use magic::type_::{
    ArtifactType, CreatureType, EnchantmentType, LandType, PlanarType, PlaneswalkerType,
    SpellType, Subtype, Supertype, Type,
};

fn subtype_data() -> (String, Vec<Subtype>) {
    let json = r#"
[
    "Clue",
    "Saga",
    "Swamp",
    "Elspeth",
    "Arcane",
    "Vampire",
    "Lorwyn"
]
        "#
    .replace(char::is_whitespace, "");

    let subtypes = vec![
        Subtype::Artifact(ArtifactType::Clue),
        Subtype::Enchantment(EnchantmentType::Saga),
        Subtype::Land(LandType::Swamp),
        Subtype::Planeswalker(PlaneswalkerType::Elspeth),
        Subtype::Spell(SpellType::Arcane),
        Subtype::Creature(CreatureType::Vampire),
        Subtype::Plane(PlanarType::Lorwyn),
    ];

    (json, subtypes)
}

#[test]
fn subtype_deserialize() {
    let (json, expected) = subtype_data();

    let names: Vec<String> = serde_json::from_str(&json).unwrap();
    let subtypes: Vec<Subtype> = names.iter().map(|n| n.parse::<Subtype>().unwrap()).collect();

    assert_eq!(subtypes, expected);
}

#[test]
fn subtype_serialize() {
    let (expected, subtypes) = subtype_data();

    let names: Vec<String> = subtypes.iter().map(|s| s.to_string()).collect();
    let json = serde_json::to_string(&names).unwrap();

    assert_eq!(json, expected);
}

#[test]
fn subtype_to_string() {
    assert_eq!(Subtype::Creature(CreatureType::Merfolk).to_string(), "Merfolk");
}

#[test]
fn subtype_parse() {
    assert_eq!(Subtype::Land(LandType::Mountain), "Mountain".parse::<Subtype>().unwrap());
}

#[test]
fn bolas_realm_json() {
    assert_eq!(
        serde_json::to_string(&PlanarType::BolassMeditationRealm.to_string()).unwrap(),
        "\"Bolas's Meditation Realm\""
    );
}

#[test]
fn bolas_realm_to_string() {
    assert_eq!(PlanarType::BolassMeditationRealm.to_string(), "Bolas's Meditation Realm");
}

#[test]
fn renamed_names_round_trip() {
    assert_eq!(LandType::PowerPlant.name(), "Power-Plant");
    assert_eq!(LandType::Urzas.name(), "Urza's");
    assert_eq!(CreatureType::AssemblyWorker.name(), "Assembly-Worker");
    assert_eq!(PlanarType::NewPhyrexia.name(), "New Phyrexia");
    assert_eq!(PlanarType::SerrasRealm.name(), "Serra's Realm");
    assert_eq!("Urza's".parse::<LandType>(), Ok(LandType::Urzas));
    assert_eq!("Serra's Realm".parse::<Subtype>(), Ok(Subtype::Plane(PlanarType::SerrasRealm)));
    assert_eq!(CreatureType::from_name("Zubera"), Some(CreatureType::Zubera));
}

#[test]
fn unknown_names_are_rejected() {
    assert!("mountain".parse::<Subtype>().is_err());
    assert!("".parse::<Type>().is_err());
    assert!("Legendary".parse::<Type>().is_err());
    assert_eq!(Supertype::from_name("Legendary"), Some(Supertype::Legendary));
    assert_eq!(Type::from_name("Creature"), Some(Type::Creature));
    assert_eq!(Supertype::from_name("Creature"), None);
}

#[test]
fn subtype_validity_table() {
    let human = Subtype::Creature(CreatureType::Human);
    assert!(human.valid_for(Type::Creature));
    assert!(human.valid_for(Type::Tribal));
    assert!(!human.valid_for(Type::Artifact));
    let arcane = Subtype::Spell(SpellType::Arcane);
    assert!(arcane.valid_for(Type::Instant));
    assert!(arcane.valid_for(Type::Sorcery));
    assert!(!arcane.valid_for(Type::Enchantment));
    assert!(Subtype::Plane(PlanarType::Lorwyn).valid_for(Type::Plane));
    assert!(Subtype::Land(LandType::Gate).valid_for(Type::Land));
    assert!(Subtype::Artifact(ArtifactType::Vehicle).valid_for(Type::Artifact));
    assert!(Subtype::Enchantment(EnchantmentType::Aura).valid_for(Type::Enchantment));
    assert!(Subtype::Planeswalker(PlaneswalkerType::Karn).valid_for(Type::Planeswalker));
    assert!(!Subtype::Planeswalker(PlaneswalkerType::Karn).valid_for(Type::Creature));
}
