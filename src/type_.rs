use vstd::prelude::*;

use crate::text::{chars_of, matches_text};

verus! {

/// A name that is not in the vocabulary asked for.
#[derive(Debug, Clone, PartialEq, Eq)]
pub struct UnknownName;

/// Card types.
#[derive(Debug, Clone, Copy, PartialEq, Eq, Hash, Structural)]
pub enum Type {
    Artifact,
    Conspiracy,
    Creature,
    Enchantment,
    Instant,
    Land,
    Phenomenon,
    Plane,
    Planeswalker,
    Scheme,
    Sorcery,
    Tribal,
    Vanguard,
}

impl Type {
    /// The name as printed on a card.
    #[verifier::opaque]
    pub open spec fn text(self) -> Seq<char> {
        match self {
            Type::Artifact => "Artifact"@,
            Type::Conspiracy => "Conspiracy"@,
            Type::Creature => "Creature"@,
            Type::Enchantment => "Enchantment"@,
            Type::Instant => "Instant"@,
            Type::Land => "Land"@,
            Type::Phenomenon => "Phenomenon"@,
            Type::Plane => "Plane"@,
            Type::Planeswalker => "Planeswalker"@,
            Type::Scheme => "Scheme"@,
            Type::Sorcery => "Sorcery"@,
            Type::Tribal => "Tribal"@,
            Type::Vanguard => "Vanguard"@,
        }
    }

    /// The first value of the vocabulary whose name is `t`.
    #[verifier::opaque]
    pub open spec fn from_text(t: Seq<char>) -> Option<Type> {
        if t == Type::Artifact.text() {
            Some(Type::Artifact)
        } else if t == Type::Conspiracy.text() {
            Some(Type::Conspiracy)
        } else if t == Type::Creature.text() {
            Some(Type::Creature)
        } else if t == Type::Enchantment.text() {
            Some(Type::Enchantment)
        } else if t == Type::Instant.text() {
            Some(Type::Instant)
        } else if t == Type::Land.text() {
            Some(Type::Land)
        } else if t == Type::Phenomenon.text() {
            Some(Type::Phenomenon)
        } else if t == Type::Plane.text() {
            Some(Type::Plane)
        } else if t == Type::Planeswalker.text() {
            Some(Type::Planeswalker)
        } else if t == Type::Scheme.text() {
            Some(Type::Scheme)
        } else if t == Type::Sorcery.text() {
            Some(Type::Sorcery)
        } else if t == Type::Tribal.text() {
            Some(Type::Tribal)
        } else if t == Type::Vanguard.text() {
            Some(Type::Vanguard)
        } else {
            None
        }
    }

    pub fn name(self) -> (r: &'static str)
        ensures
            r@ == self.text(),
    {
        proof {
            reveal(Type::text);
        }
        match self {
            Type::Artifact => "Artifact",
            Type::Conspiracy => "Conspiracy",
            Type::Creature => "Creature",
            Type::Enchantment => "Enchantment",
            Type::Instant => "Instant",
            Type::Land => "Land",
            Type::Phenomenon => "Phenomenon",
            Type::Plane => "Plane",
            Type::Planeswalker => "Planeswalker",
            Type::Scheme => "Scheme",
            Type::Sorcery => "Sorcery",
            Type::Tribal => "Tribal",
            Type::Vanguard => "Vanguard",
        }
    }

    pub fn to_string(self) -> (r: String)
        ensures
            r@ == self.text(),
    {
        String::from_str(self.name())
    }

    /// The value named by `t[lo..hi]`.
    pub fn parse_range(t: &Vec<char>, lo: usize, hi: usize) -> (r: Option<Type>)
        requires
            lo <= hi <= t@.len(),
        ensures
            r == Type::from_text(t@.subrange(lo as int, hi as int)),
    {
        proof {
            reveal(Type::from_text);
        }
        if matches_text(t, lo, hi, Type::Artifact.name()) {
            return Some(Type::Artifact);
        }
        if matches_text(t, lo, hi, Type::Conspiracy.name()) {
            return Some(Type::Conspiracy);
        }
        if matches_text(t, lo, hi, Type::Creature.name()) {
            return Some(Type::Creature);
        }
        if matches_text(t, lo, hi, Type::Enchantment.name()) {
            return Some(Type::Enchantment);
        }
        if matches_text(t, lo, hi, Type::Instant.name()) {
            return Some(Type::Instant);
        }
        if matches_text(t, lo, hi, Type::Land.name()) {
            return Some(Type::Land);
        }
        if matches_text(t, lo, hi, Type::Phenomenon.name()) {
            return Some(Type::Phenomenon);
        }
        if matches_text(t, lo, hi, Type::Plane.name()) {
            return Some(Type::Plane);
        }
        if matches_text(t, lo, hi, Type::Planeswalker.name()) {
            return Some(Type::Planeswalker);
        }
        if matches_text(t, lo, hi, Type::Scheme.name()) {
            return Some(Type::Scheme);
        }
        if matches_text(t, lo, hi, Type::Sorcery.name()) {
            return Some(Type::Sorcery);
        }
        if matches_text(t, lo, hi, Type::Tribal.name()) {
            return Some(Type::Tribal);
        }
        if matches_text(t, lo, hi, Type::Vanguard.name()) {
            return Some(Type::Vanguard);
        }
        None
    }

    pub fn from_name(s: &str) -> (r: Option<Type>)
        ensures
            r == Type::from_text(s@),
    {
        let t = chars_of(s);
        assert(t@.subrange(0, t@.len() as int) =~= t@);
        Type::parse_range(&t, 0, t.len())
    }
}

impl core::str::FromStr for Type {
    type Err = UnknownName;

    fn from_str(s: &str) -> Result<Type, UnknownName> {
        match Type::from_name(s) {
            Some(v) => Ok(v),
            None => Err(UnknownName),
        }
    }
}

/// Supertypes.
#[derive(Debug, Clone, Copy, PartialEq, Eq, Hash, Structural)]
pub enum Supertype {
    Basic,
    Legendary,
    Ongoing,
    Snow,
    World,
}

impl Supertype {
    /// The name as printed on a card.
    #[verifier::opaque]
    pub open spec fn text(self) -> Seq<char> {
        match self {
            Supertype::Basic => "Basic"@,
            Supertype::Legendary => "Legendary"@,
            Supertype::Ongoing => "Ongoing"@,
            Supertype::Snow => "Snow"@,
            Supertype::World => "World"@,
        }
    }

    /// The first value of the vocabulary whose name is `t`.
    #[verifier::opaque]
    pub open spec fn from_text(t: Seq<char>) -> Option<Supertype> {
        if t == Supertype::Basic.text() {
            Some(Supertype::Basic)
        } else if t == Supertype::Legendary.text() {
            Some(Supertype::Legendary)
        } else if t == Supertype::Ongoing.text() {
            Some(Supertype::Ongoing)
        } else if t == Supertype::Snow.text() {
            Some(Supertype::Snow)
        } else if t == Supertype::World.text() {
            Some(Supertype::World)
        } else {
            None
        }
    }

    pub fn name(self) -> (r: &'static str)
        ensures
            r@ == self.text(),
    {
        proof {
            reveal(Supertype::text);
        }
        match self {
            Supertype::Basic => "Basic",
            Supertype::Legendary => "Legendary",
            Supertype::Ongoing => "Ongoing",
            Supertype::Snow => "Snow",
            Supertype::World => "World",
        }
    }

    pub fn to_string(self) -> (r: String)
        ensures
            r@ == self.text(),
    {
        String::from_str(self.name())
    }

    /// The value named by `t[lo..hi]`.
    pub fn parse_range(t: &Vec<char>, lo: usize, hi: usize) -> (r: Option<Supertype>)
        requires
            lo <= hi <= t@.len(),
        ensures
            r == Supertype::from_text(t@.subrange(lo as int, hi as int)),
    {
        proof {
            reveal(Supertype::from_text);
        }
        if matches_text(t, lo, hi, Supertype::Basic.name()) {
            return Some(Supertype::Basic);
        }
        if matches_text(t, lo, hi, Supertype::Legendary.name()) {
            return Some(Supertype::Legendary);
        }
        if matches_text(t, lo, hi, Supertype::Ongoing.name()) {
            return Some(Supertype::Ongoing);
        }
        if matches_text(t, lo, hi, Supertype::Snow.name()) {
            return Some(Supertype::Snow);
        }
        if matches_text(t, lo, hi, Supertype::World.name()) {
            return Some(Supertype::World);
        }
        None
    }

    pub fn from_name(s: &str) -> (r: Option<Supertype>)
        ensures
            r == Supertype::from_text(s@),
    {
        let t = chars_of(s);
        assert(t@.subrange(0, t@.len() as int) =~= t@);
        Supertype::parse_range(&t, 0, t.len())
    }
}

impl core::str::FromStr for Supertype {
    type Err = UnknownName;

    fn from_str(s: &str) -> Result<Supertype, UnknownName> {
        match Supertype::from_name(s) {
            Some(v) => Ok(v),
            None => Err(UnknownName),
        }
    }
}

/// Subtypes, by the card type they belong to.
#[derive(Debug, Clone, Copy, PartialEq, Eq, Hash, Structural)]
pub enum Subtype {
    Artifact(ArtifactType),
    Enchantment(EnchantmentType),
    Land(LandType),
    Planeswalker(PlaneswalkerType),
    Spell(SpellType),
    Creature(CreatureType),
    Plane(PlanarType),
}

impl Subtype {
    pub open spec fn text(self) -> Seq<char> {
        match self {
            Subtype::Artifact(x) => x.text(),
            Subtype::Enchantment(x) => x.text(),
            Subtype::Land(x) => x.text(),
            Subtype::Planeswalker(x) => x.text(),
            Subtype::Spell(x) => x.text(),
            Subtype::Creature(x) => x.text(),
            Subtype::Plane(x) => x.text(),
        }
    }

    /// The subtype named `t`, the vocabularies tried in declaration order.
    #[verifier::opaque]
    pub open spec fn from_text(t: Seq<char>) -> Option<Subtype> {
        if ArtifactType::from_text(t) is Some {
            Some(Subtype::Artifact(ArtifactType::from_text(t)->0))
        } else if EnchantmentType::from_text(t) is Some {
            Some(Subtype::Enchantment(EnchantmentType::from_text(t)->0))
        } else if LandType::from_text(t) is Some {
            Some(Subtype::Land(LandType::from_text(t)->0))
        } else if PlaneswalkerType::from_text(t) is Some {
            Some(Subtype::Planeswalker(PlaneswalkerType::from_text(t)->0))
        } else if SpellType::from_text(t) is Some {
            Some(Subtype::Spell(SpellType::from_text(t)->0))
        } else if CreatureType::from_text(t) is Some {
            Some(Subtype::Creature(CreatureType::from_text(t)->0))
        } else if PlanarType::from_text(t) is Some {
            Some(Subtype::Plane(PlanarType::from_text(t)->0))
        } else {
            None
        }
    }

    /// Whether a card of type `t` may have this subtype.
    pub open spec fn spec_valid_for(self, t: Type) -> bool {
        match self {
            Subtype::Artifact(_) => t == Type::Artifact,
            Subtype::Enchantment(_) => t == Type::Enchantment,
            Subtype::Land(_) => t == Type::Land,
            Subtype::Planeswalker(_) => t == Type::Planeswalker,
            Subtype::Spell(_) => t == Type::Instant || t == Type::Sorcery,
            Subtype::Creature(_) => t == Type::Creature || t == Type::Tribal,
            Subtype::Plane(_) => t == Type::Plane,
        }
    }

    pub fn valid_for(&self, type_: Type) -> (r: bool)
        ensures
            r == self.spec_valid_for(type_),
    {
        match self {
            Subtype::Artifact(_) => type_ == Type::Artifact,
            Subtype::Enchantment(_) => type_ == Type::Enchantment,
            Subtype::Land(_) => type_ == Type::Land,
            Subtype::Planeswalker(_) => type_ == Type::Planeswalker,
            Subtype::Spell(_) => type_ == Type::Instant || type_ == Type::Sorcery,
            Subtype::Creature(_) => type_ == Type::Creature || type_ == Type::Tribal,
            Subtype::Plane(_) => type_ == Type::Plane,
        }
    }

    pub fn name(self) -> (r: &'static str)
        ensures
            r@ == self.text(),
    {
        match self {
            Subtype::Artifact(x) => x.name(),
            Subtype::Enchantment(x) => x.name(),
            Subtype::Land(x) => x.name(),
            Subtype::Planeswalker(x) => x.name(),
            Subtype::Spell(x) => x.name(),
            Subtype::Creature(x) => x.name(),
            Subtype::Plane(x) => x.name(),
        }
    }

    pub fn to_string(self) -> (r: String)
        ensures
            r@ == self.text(),
    {
        String::from_str(self.name())
    }

    /// The subtype named by `t[lo..hi]`.
    pub fn parse_range(t: &Vec<char>, lo: usize, hi: usize) -> (r: Option<Subtype>)
        requires
            lo <= hi <= t@.len(),
        ensures
            r == Subtype::from_text(t@.subrange(lo as int, hi as int)),
    {
        proof {
            reveal(Subtype::from_text);
        }
        if let Some(x) = ArtifactType::parse_range(t, lo, hi) {
            return Some(Subtype::Artifact(x));
        }
        if let Some(x) = EnchantmentType::parse_range(t, lo, hi) {
            return Some(Subtype::Enchantment(x));
        }
        if let Some(x) = LandType::parse_range(t, lo, hi) {
            return Some(Subtype::Land(x));
        }
        if let Some(x) = PlaneswalkerType::parse_range(t, lo, hi) {
            return Some(Subtype::Planeswalker(x));
        }
        if let Some(x) = SpellType::parse_range(t, lo, hi) {
            return Some(Subtype::Spell(x));
        }
        if let Some(x) = CreatureType::parse_range(t, lo, hi) {
            return Some(Subtype::Creature(x));
        }
        if let Some(x) = PlanarType::parse_range(t, lo, hi) {
            return Some(Subtype::Plane(x));
        }
        None
    }

    pub fn from_name(s: &str) -> (r: Option<Subtype>)
        ensures
            r == Subtype::from_text(s@),
    {
        let t = chars_of(s);
        assert(t@.subrange(0, t@.len() as int) =~= t@);
        Subtype::parse_range(&t, 0, t.len())
    }
}

impl core::str::FromStr for Subtype {
    type Err = UnknownName;

    fn from_str(s: &str) -> Result<Subtype, UnknownName> {
        match Subtype::from_name(s) {
            Some(v) => Ok(v),
            None => Err(UnknownName),
        }
    }
}

/// Artifact subtypes.
#[derive(Debug, Clone, Copy, PartialEq, Eq, Hash, Structural)]
pub enum ArtifactType {
    Clue,
    Contraption,
    Equipment,
    Fortification,
    Treasure,
    Vehicle,
}

impl ArtifactType {
    /// The name as printed on a card.
    #[verifier::opaque]
    pub open spec fn text(self) -> Seq<char> {
        match self {
            ArtifactType::Clue => "Clue"@,
            ArtifactType::Contraption => "Contraption"@,
            ArtifactType::Equipment => "Equipment"@,
            ArtifactType::Fortification => "Fortification"@,
            ArtifactType::Treasure => "Treasure"@,
            ArtifactType::Vehicle => "Vehicle"@,
        }
    }

    /// The first value of the vocabulary whose name is `t`.
    #[verifier::opaque]
    pub open spec fn from_text(t: Seq<char>) -> Option<ArtifactType> {
        if t == ArtifactType::Clue.text() {
            Some(ArtifactType::Clue)
        } else if t == ArtifactType::Contraption.text() {
            Some(ArtifactType::Contraption)
        } else if t == ArtifactType::Equipment.text() {
            Some(ArtifactType::Equipment)
        } else if t == ArtifactType::Fortification.text() {
            Some(ArtifactType::Fortification)
        } else if t == ArtifactType::Treasure.text() {
            Some(ArtifactType::Treasure)
        } else if t == ArtifactType::Vehicle.text() {
            Some(ArtifactType::Vehicle)
        } else {
            None
        }
    }

    pub fn name(self) -> (r: &'static str)
        ensures
            r@ == self.text(),
    {
        proof {
            reveal(ArtifactType::text);
        }
        match self {
            ArtifactType::Clue => "Clue",
            ArtifactType::Contraption => "Contraption",
            ArtifactType::Equipment => "Equipment",
            ArtifactType::Fortification => "Fortification",
            ArtifactType::Treasure => "Treasure",
            ArtifactType::Vehicle => "Vehicle",
        }
    }

    pub fn to_string(self) -> (r: String)
        ensures
            r@ == self.text(),
    {
        String::from_str(self.name())
    }

    /// The value named by `t[lo..hi]`.
    pub fn parse_range(t: &Vec<char>, lo: usize, hi: usize) -> (r: Option<ArtifactType>)
        requires
            lo <= hi <= t@.len(),
        ensures
            r == ArtifactType::from_text(t@.subrange(lo as int, hi as int)),
    {
        proof {
            reveal(ArtifactType::from_text);
        }
        if matches_text(t, lo, hi, ArtifactType::Clue.name()) {
            return Some(ArtifactType::Clue);
        }
        if matches_text(t, lo, hi, ArtifactType::Contraption.name()) {
            return Some(ArtifactType::Contraption);
        }
        if matches_text(t, lo, hi, ArtifactType::Equipment.name()) {
            return Some(ArtifactType::Equipment);
        }
        if matches_text(t, lo, hi, ArtifactType::Fortification.name()) {
            return Some(ArtifactType::Fortification);
        }
        if matches_text(t, lo, hi, ArtifactType::Treasure.name()) {
            return Some(ArtifactType::Treasure);
        }
        if matches_text(t, lo, hi, ArtifactType::Vehicle.name()) {
            return Some(ArtifactType::Vehicle);
        }
        None
    }

    pub fn from_name(s: &str) -> (r: Option<ArtifactType>)
        ensures
            r == ArtifactType::from_text(s@),
    {
        let t = chars_of(s);
        assert(t@.subrange(0, t@.len() as int) =~= t@);
        ArtifactType::parse_range(&t, 0, t.len())
    }
}

impl core::str::FromStr for ArtifactType {
    type Err = UnknownName;

    fn from_str(s: &str) -> Result<ArtifactType, UnknownName> {
        match ArtifactType::from_name(s) {
            Some(v) => Ok(v),
            None => Err(UnknownName),
        }
    }
}

/// Enchantment subtypes.
#[derive(Debug, Clone, Copy, PartialEq, Eq, Hash, Structural)]
pub enum EnchantmentType {
    Aura,
    Cartouche,
    Curse,
    Saga,
    Shrine,
}

impl EnchantmentType {
    /// The name as printed on a card.
    #[verifier::opaque]
    pub open spec fn text(self) -> Seq<char> {
        match self {
            EnchantmentType::Aura => "Aura"@,
            EnchantmentType::Cartouche => "Cartouche"@,
            EnchantmentType::Curse => "Curse"@,
            EnchantmentType::Saga => "Saga"@,
            EnchantmentType::Shrine => "Shrine"@,
        }
    }

    /// The first value of the vocabulary whose name is `t`.
    #[verifier::opaque]
    pub open spec fn from_text(t: Seq<char>) -> Option<EnchantmentType> {
        if t == EnchantmentType::Aura.text() {
            Some(EnchantmentType::Aura)
        } else if t == EnchantmentType::Cartouche.text() {
            Some(EnchantmentType::Cartouche)
        } else if t == EnchantmentType::Curse.text() {
            Some(EnchantmentType::Curse)
        } else if t == EnchantmentType::Saga.text() {
            Some(EnchantmentType::Saga)
        } else if t == EnchantmentType::Shrine.text() {
            Some(EnchantmentType::Shrine)
        } else {
            None
        }
    }

    pub fn name(self) -> (r: &'static str)
        ensures
            r@ == self.text(),
    {
        proof {
            reveal(EnchantmentType::text);
        }
        match self {
            EnchantmentType::Aura => "Aura",
            EnchantmentType::Cartouche => "Cartouche",
            EnchantmentType::Curse => "Curse",
            EnchantmentType::Saga => "Saga",
            EnchantmentType::Shrine => "Shrine",
        }
    }

    pub fn to_string(self) -> (r: String)
        ensures
            r@ == self.text(),
    {
        String::from_str(self.name())
    }

    /// The value named by `t[lo..hi]`.
    pub fn parse_range(t: &Vec<char>, lo: usize, hi: usize) -> (r: Option<EnchantmentType>)
        requires
            lo <= hi <= t@.len(),
        ensures
            r == EnchantmentType::from_text(t@.subrange(lo as int, hi as int)),
    {
        proof {
            reveal(EnchantmentType::from_text);
        }
        if matches_text(t, lo, hi, EnchantmentType::Aura.name()) {
            return Some(EnchantmentType::Aura);
        }
        if matches_text(t, lo, hi, EnchantmentType::Cartouche.name()) {
            return Some(EnchantmentType::Cartouche);
        }
        if matches_text(t, lo, hi, EnchantmentType::Curse.name()) {
            return Some(EnchantmentType::Curse);
        }
        if matches_text(t, lo, hi, EnchantmentType::Saga.name()) {
            return Some(EnchantmentType::Saga);
        }
        if matches_text(t, lo, hi, EnchantmentType::Shrine.name()) {
            return Some(EnchantmentType::Shrine);
        }
        None
    }

    pub fn from_name(s: &str) -> (r: Option<EnchantmentType>)
        ensures
            r == EnchantmentType::from_text(s@),
    {
        let t = chars_of(s);
        assert(t@.subrange(0, t@.len() as int) =~= t@);
        EnchantmentType::parse_range(&t, 0, t.len())
    }
}

impl core::str::FromStr for EnchantmentType {
    type Err = UnknownName;

    fn from_str(s: &str) -> Result<EnchantmentType, UnknownName> {
        match EnchantmentType::from_name(s) {
            Some(v) => Ok(v),
            None => Err(UnknownName),
        }
    }
}

/// Land subtypes.
#[derive(Debug, Clone, Copy, PartialEq, Eq, Hash, Structural)]
pub enum LandType {
    Desert,
    Forest,
    Gate,
    Island,
    Lair,
    Locus,
    Mine,
    Mountain,
    Plains,
    PowerPlant,
    Swamp,
    Tower,
    Urzas,
}

impl LandType {
    /// The name as printed on a card.
    #[verifier::opaque]
    pub open spec fn text(self) -> Seq<char> {
        match self {
            LandType::Desert => "Desert"@,
            LandType::Forest => "Forest"@,
            LandType::Gate => "Gate"@,
            LandType::Island => "Island"@,
            LandType::Lair => "Lair"@,
            LandType::Locus => "Locus"@,
            LandType::Mine => "Mine"@,
            LandType::Mountain => "Mountain"@,
            LandType::Plains => "Plains"@,
            LandType::PowerPlant => "Power-Plant"@,
            LandType::Swamp => "Swamp"@,
            LandType::Tower => "Tower"@,
            LandType::Urzas => "Urza's"@,
        }
    }

    /// The first value of the vocabulary whose name is `t`.
    #[verifier::opaque]
    pub open spec fn from_text(t: Seq<char>) -> Option<LandType> {
        if t == LandType::Desert.text() {
            Some(LandType::Desert)
        } else if t == LandType::Forest.text() {
            Some(LandType::Forest)
        } else if t == LandType::Gate.text() {
            Some(LandType::Gate)
        } else if t == LandType::Island.text() {
            Some(LandType::Island)
        } else if t == LandType::Lair.text() {
            Some(LandType::Lair)
        } else if t == LandType::Locus.text() {
            Some(LandType::Locus)
        } else if t == LandType::Mine.text() {
            Some(LandType::Mine)
        } else if t == LandType::Mountain.text() {
            Some(LandType::Mountain)
        } else if t == LandType::Plains.text() {
            Some(LandType::Plains)
        } else if t == LandType::PowerPlant.text() {
            Some(LandType::PowerPlant)
        } else if t == LandType::Swamp.text() {
            Some(LandType::Swamp)
        } else if t == LandType::Tower.text() {
            Some(LandType::Tower)
        } else if t == LandType::Urzas.text() {
            Some(LandType::Urzas)
        } else {
            None
        }
    }

    pub fn name(self) -> (r: &'static str)
        ensures
            r@ == self.text(),
    {
        proof {
            reveal(LandType::text);
        }
        match self {
            LandType::Desert => "Desert",
            LandType::Forest => "Forest",
            LandType::Gate => "Gate",
            LandType::Island => "Island",
            LandType::Lair => "Lair",
            LandType::Locus => "Locus",
            LandType::Mine => "Mine",
            LandType::Mountain => "Mountain",
            LandType::Plains => "Plains",
            LandType::PowerPlant => "Power-Plant",
            LandType::Swamp => "Swamp",
            LandType::Tower => "Tower",
            LandType::Urzas => "Urza's",
        }
    }

    pub fn to_string(self) -> (r: String)
        ensures
            r@ == self.text(),
    {
        String::from_str(self.name())
    }

    /// The value named by `t[lo..hi]`.
    pub fn parse_range(t: &Vec<char>, lo: usize, hi: usize) -> (r: Option<LandType>)
        requires
            lo <= hi <= t@.len(),
        ensures
            r == LandType::from_text(t@.subrange(lo as int, hi as int)),
    {
        proof {
            reveal(LandType::from_text);
        }
        if matches_text(t, lo, hi, LandType::Desert.name()) {
            return Some(LandType::Desert);
        }
        if matches_text(t, lo, hi, LandType::Forest.name()) {
            return Some(LandType::Forest);
        }
        if matches_text(t, lo, hi, LandType::Gate.name()) {
            return Some(LandType::Gate);
        }
        if matches_text(t, lo, hi, LandType::Island.name()) {
            return Some(LandType::Island);
        }
        if matches_text(t, lo, hi, LandType::Lair.name()) {
            return Some(LandType::Lair);
        }
        if matches_text(t, lo, hi, LandType::Locus.name()) {
            return Some(LandType::Locus);
        }
        if matches_text(t, lo, hi, LandType::Mine.name()) {
            return Some(LandType::Mine);
        }
        if matches_text(t, lo, hi, LandType::Mountain.name()) {
            return Some(LandType::Mountain);
        }
        if matches_text(t, lo, hi, LandType::Plains.name()) {
            return Some(LandType::Plains);
        }
        if matches_text(t, lo, hi, LandType::PowerPlant.name()) {
            return Some(LandType::PowerPlant);
        }
        if matches_text(t, lo, hi, LandType::Swamp.name()) {
            return Some(LandType::Swamp);
        }
        if matches_text(t, lo, hi, LandType::Tower.name()) {
            return Some(LandType::Tower);
        }
        if matches_text(t, lo, hi, LandType::Urzas.name()) {
            return Some(LandType::Urzas);
        }
        None
    }

    pub fn from_name(s: &str) -> (r: Option<LandType>)
        ensures
            r == LandType::from_text(s@),
    {
        let t = chars_of(s);
        assert(t@.subrange(0, t@.len() as int) =~= t@);
        LandType::parse_range(&t, 0, t.len())
    }
}

impl core::str::FromStr for LandType {
    type Err = UnknownName;

    fn from_str(s: &str) -> Result<LandType, UnknownName> {
        match LandType::from_name(s) {
            Some(v) => Ok(v),
            None => Err(UnknownName),
        }
    }
}

/// Planeswalker subtypes.
#[derive(Debug, Clone, Copy, PartialEq, Eq, Hash, Structural)]
pub enum PlaneswalkerType {
    Ajani,
    Aminatou,
    Angrath,
    Arlinn,
    Ashiok,
    Bolas,
    Chandra,
    Dack,
    Daretti,
    Domri,
    Dovin,
    Elspeth,
    Estrid,
    Freyalise,
    Garruk,
    Gideon,
    Huatli,
    Jace,
    Jaya,
    Karn,
    Kaya,
    Kiora,
    Koth,
    Liliana,
    Nahiri,
    Narset,
    Nissa,
    Nixilis,
    Ral,
    Rowan,
    Saheeli,
    Samut,
    Sarkhan,
    Sorin,
    Tamiyo,
    Teferi,
    Tezzeret,
    Tibalt,
    Ugin,
    Venser,
    Vivien,
    Vraska,
    Will,
    Windgrace,
    Xenagos,
    Yanggu,
    Yanling,
}

impl PlaneswalkerType {
    /// The name as printed on a card.
    #[verifier::opaque]
    pub open spec fn text(self) -> Seq<char> {
        match self {
            PlaneswalkerType::Ajani => "Ajani"@,
            PlaneswalkerType::Aminatou => "Aminatou"@,
            PlaneswalkerType::Angrath => "Angrath"@,
            PlaneswalkerType::Arlinn => "Arlinn"@,
            PlaneswalkerType::Ashiok => "Ashiok"@,
            PlaneswalkerType::Bolas => "Bolas"@,
            PlaneswalkerType::Chandra => "Chandra"@,
            PlaneswalkerType::Dack => "Dack"@,
            PlaneswalkerType::Daretti => "Daretti"@,
            PlaneswalkerType::Domri => "Domri"@,
            PlaneswalkerType::Dovin => "Dovin"@,
            PlaneswalkerType::Elspeth => "Elspeth"@,
            PlaneswalkerType::Estrid => "Estrid"@,
            PlaneswalkerType::Freyalise => "Freyalise"@,
            PlaneswalkerType::Garruk => "Garruk"@,
            PlaneswalkerType::Gideon => "Gideon"@,
            PlaneswalkerType::Huatli => "Huatli"@,
            PlaneswalkerType::Jace => "Jace"@,
            PlaneswalkerType::Jaya => "Jaya"@,
            PlaneswalkerType::Karn => "Karn"@,
            PlaneswalkerType::Kaya => "Kaya"@,
            PlaneswalkerType::Kiora => "Kiora"@,
            PlaneswalkerType::Koth => "Koth"@,
            PlaneswalkerType::Liliana => "Liliana"@,
            PlaneswalkerType::Nahiri => "Nahiri"@,
            PlaneswalkerType::Narset => "Narset"@,
            PlaneswalkerType::Nissa => "Nissa"@,
            PlaneswalkerType::Nixilis => "Nixilis"@,
            PlaneswalkerType::Ral => "Ral"@,
            PlaneswalkerType::Rowan => "Rowan"@,
            PlaneswalkerType::Saheeli => "Saheeli"@,
            PlaneswalkerType::Samut => "Samut"@,
            PlaneswalkerType::Sarkhan => "Sarkhan"@,
            PlaneswalkerType::Sorin => "Sorin"@,
            PlaneswalkerType::Tamiyo => "Tamiyo"@,
            PlaneswalkerType::Teferi => "Teferi"@,
            PlaneswalkerType::Tezzeret => "Tezzeret"@,
            PlaneswalkerType::Tibalt => "Tibalt"@,
            PlaneswalkerType::Ugin => "Ugin"@,
            PlaneswalkerType::Venser => "Venser"@,
            PlaneswalkerType::Vivien => "Vivien"@,
            PlaneswalkerType::Vraska => "Vraska"@,
            PlaneswalkerType::Will => "Will"@,
            PlaneswalkerType::Windgrace => "Windgrace"@,
            PlaneswalkerType::Xenagos => "Xenagos"@,
            PlaneswalkerType::Yanggu => "Yanggu"@,
            PlaneswalkerType::Yanling => "Yanling"@,
        }
    }

    /// The first value of the vocabulary whose name is `t`.
    #[verifier::opaque]
    pub open spec fn from_text(t: Seq<char>) -> Option<PlaneswalkerType> {
        if t == PlaneswalkerType::Ajani.text() {
            Some(PlaneswalkerType::Ajani)
        } else if t == PlaneswalkerType::Aminatou.text() {
            Some(PlaneswalkerType::Aminatou)
        } else if t == PlaneswalkerType::Angrath.text() {
            Some(PlaneswalkerType::Angrath)
        } else if t == PlaneswalkerType::Arlinn.text() {
            Some(PlaneswalkerType::Arlinn)
        } else if t == PlaneswalkerType::Ashiok.text() {
            Some(PlaneswalkerType::Ashiok)
        } else if t == PlaneswalkerType::Bolas.text() {
            Some(PlaneswalkerType::Bolas)
        } else if t == PlaneswalkerType::Chandra.text() {
            Some(PlaneswalkerType::Chandra)
        } else if t == PlaneswalkerType::Dack.text() {
            Some(PlaneswalkerType::Dack)
        } else if t == PlaneswalkerType::Daretti.text() {
            Some(PlaneswalkerType::Daretti)
        } else if t == PlaneswalkerType::Domri.text() {
            Some(PlaneswalkerType::Domri)
        } else if t == PlaneswalkerType::Dovin.text() {
            Some(PlaneswalkerType::Dovin)
        } else if t == PlaneswalkerType::Elspeth.text() {
            Some(PlaneswalkerType::Elspeth)
        } else if t == PlaneswalkerType::Estrid.text() {
            Some(PlaneswalkerType::Estrid)
        } else if t == PlaneswalkerType::Freyalise.text() {
            Some(PlaneswalkerType::Freyalise)
        } else if t == PlaneswalkerType::Garruk.text() {
            Some(PlaneswalkerType::Garruk)
        } else if t == PlaneswalkerType::Gideon.text() {
            Some(PlaneswalkerType::Gideon)
        } else if t == PlaneswalkerType::Huatli.text() {
            Some(PlaneswalkerType::Huatli)
        } else if t == PlaneswalkerType::Jace.text() {
            Some(PlaneswalkerType::Jace)
        } else if t == PlaneswalkerType::Jaya.text() {
            Some(PlaneswalkerType::Jaya)
        } else if t == PlaneswalkerType::Karn.text() {
            Some(PlaneswalkerType::Karn)
        } else if t == PlaneswalkerType::Kaya.text() {
            Some(PlaneswalkerType::Kaya)
        } else if t == PlaneswalkerType::Kiora.text() {
            Some(PlaneswalkerType::Kiora)
        } else if t == PlaneswalkerType::Koth.text() {
            Some(PlaneswalkerType::Koth)
        } else if t == PlaneswalkerType::Liliana.text() {
            Some(PlaneswalkerType::Liliana)
        } else if t == PlaneswalkerType::Nahiri.text() {
            Some(PlaneswalkerType::Nahiri)
        } else if t == PlaneswalkerType::Narset.text() {
            Some(PlaneswalkerType::Narset)
        } else if t == PlaneswalkerType::Nissa.text() {
            Some(PlaneswalkerType::Nissa)
        } else if t == PlaneswalkerType::Nixilis.text() {
            Some(PlaneswalkerType::Nixilis)
        } else if t == PlaneswalkerType::Ral.text() {
            Some(PlaneswalkerType::Ral)
        } else if t == PlaneswalkerType::Rowan.text() {
            Some(PlaneswalkerType::Rowan)
        } else if t == PlaneswalkerType::Saheeli.text() {
            Some(PlaneswalkerType::Saheeli)
        } else if t == PlaneswalkerType::Samut.text() {
            Some(PlaneswalkerType::Samut)
        } else if t == PlaneswalkerType::Sarkhan.text() {
            Some(PlaneswalkerType::Sarkhan)
        } else if t == PlaneswalkerType::Sorin.text() {
            Some(PlaneswalkerType::Sorin)
        } else if t == PlaneswalkerType::Tamiyo.text() {
            Some(PlaneswalkerType::Tamiyo)
        } else if t == PlaneswalkerType::Teferi.text() {
            Some(PlaneswalkerType::Teferi)
        } else if t == PlaneswalkerType::Tezzeret.text() {
            Some(PlaneswalkerType::Tezzeret)
        } else if t == PlaneswalkerType::Tibalt.text() {
            Some(PlaneswalkerType::Tibalt)
        } else if t == PlaneswalkerType::Ugin.text() {
            Some(PlaneswalkerType::Ugin)
        } else if t == PlaneswalkerType::Venser.text() {
            Some(PlaneswalkerType::Venser)
        } else if t == PlaneswalkerType::Vivien.text() {
            Some(PlaneswalkerType::Vivien)
        } else if t == PlaneswalkerType::Vraska.text() {
            Some(PlaneswalkerType::Vraska)
        } else if t == PlaneswalkerType::Will.text() {
            Some(PlaneswalkerType::Will)
        } else if t == PlaneswalkerType::Windgrace.text() {
            Some(PlaneswalkerType::Windgrace)
        } else if t == PlaneswalkerType::Xenagos.text() {
            Some(PlaneswalkerType::Xenagos)
        } else if t == PlaneswalkerType::Yanggu.text() {
            Some(PlaneswalkerType::Yanggu)
        } else if t == PlaneswalkerType::Yanling.text() {
            Some(PlaneswalkerType::Yanling)
        } else {
            None
        }
    }

    pub fn name(self) -> (r: &'static str)
        ensures
            r@ == self.text(),
    {
        proof {
            reveal(PlaneswalkerType::text);
        }
        match self {
            PlaneswalkerType::Ajani => "Ajani",
            PlaneswalkerType::Aminatou => "Aminatou",
            PlaneswalkerType::Angrath => "Angrath",
            PlaneswalkerType::Arlinn => "Arlinn",
            PlaneswalkerType::Ashiok => "Ashiok",
            PlaneswalkerType::Bolas => "Bolas",
            PlaneswalkerType::Chandra => "Chandra",
            PlaneswalkerType::Dack => "Dack",
            PlaneswalkerType::Daretti => "Daretti",
            PlaneswalkerType::Domri => "Domri",
            PlaneswalkerType::Dovin => "Dovin",
            PlaneswalkerType::Elspeth => "Elspeth",
            PlaneswalkerType::Estrid => "Estrid",
            PlaneswalkerType::Freyalise => "Freyalise",
            PlaneswalkerType::Garruk => "Garruk",
            PlaneswalkerType::Gideon => "Gideon",
            PlaneswalkerType::Huatli => "Huatli",
            PlaneswalkerType::Jace => "Jace",
            PlaneswalkerType::Jaya => "Jaya",
            PlaneswalkerType::Karn => "Karn",
            PlaneswalkerType::Kaya => "Kaya",
            PlaneswalkerType::Kiora => "Kiora",
            PlaneswalkerType::Koth => "Koth",
            PlaneswalkerType::Liliana => "Liliana",
            PlaneswalkerType::Nahiri => "Nahiri",
            PlaneswalkerType::Narset => "Narset",
            PlaneswalkerType::Nissa => "Nissa",
            PlaneswalkerType::Nixilis => "Nixilis",
            PlaneswalkerType::Ral => "Ral",
            PlaneswalkerType::Rowan => "Rowan",
            PlaneswalkerType::Saheeli => "Saheeli",
            PlaneswalkerType::Samut => "Samut",
            PlaneswalkerType::Sarkhan => "Sarkhan",
            PlaneswalkerType::Sorin => "Sorin",
            PlaneswalkerType::Tamiyo => "Tamiyo",
            PlaneswalkerType::Teferi => "Teferi",
            PlaneswalkerType::Tezzeret => "Tezzeret",
            PlaneswalkerType::Tibalt => "Tibalt",
            PlaneswalkerType::Ugin => "Ugin",
            PlaneswalkerType::Venser => "Venser",
            PlaneswalkerType::Vivien => "Vivien",
            PlaneswalkerType::Vraska => "Vraska",
            PlaneswalkerType::Will => "Will",
            PlaneswalkerType::Windgrace => "Windgrace",
            PlaneswalkerType::Xenagos => "Xenagos",
            PlaneswalkerType::Yanggu => "Yanggu",
            PlaneswalkerType::Yanling => "Yanling",
        }
    }

    pub fn to_string(self) -> (r: String)
        ensures
            r@ == self.text(),
    {
        String::from_str(self.name())
    }

    /// The value named by `t[lo..hi]`.
    pub fn parse_range(t: &Vec<char>, lo: usize, hi: usize) -> (r: Option<PlaneswalkerType>)
        requires
            lo <= hi <= t@.len(),
        ensures
            r == PlaneswalkerType::from_text(t@.subrange(lo as int, hi as int)),
    {
        proof {
            reveal(PlaneswalkerType::from_text);
        }
        if matches_text(t, lo, hi, PlaneswalkerType::Ajani.name()) {
            return Some(PlaneswalkerType::Ajani);
        }
        if matches_text(t, lo, hi, PlaneswalkerType::Aminatou.name()) {
            return Some(PlaneswalkerType::Aminatou);
        }
        if matches_text(t, lo, hi, PlaneswalkerType::Angrath.name()) {
            return Some(PlaneswalkerType::Angrath);
        }
        if matches_text(t, lo, hi, PlaneswalkerType::Arlinn.name()) {
            return Some(PlaneswalkerType::Arlinn);
        }
        if matches_text(t, lo, hi, PlaneswalkerType::Ashiok.name()) {
            return Some(PlaneswalkerType::Ashiok);
        }
        if matches_text(t, lo, hi, PlaneswalkerType::Bolas.name()) {
            return Some(PlaneswalkerType::Bolas);
        }
        if matches_text(t, lo, hi, PlaneswalkerType::Chandra.name()) {
            return Some(PlaneswalkerType::Chandra);
        }
        if matches_text(t, lo, hi, PlaneswalkerType::Dack.name()) {
            return Some(PlaneswalkerType::Dack);
        }
        if matches_text(t, lo, hi, PlaneswalkerType::Daretti.name()) {
            return Some(PlaneswalkerType::Daretti);
        }
        if matches_text(t, lo, hi, PlaneswalkerType::Domri.name()) {
            return Some(PlaneswalkerType::Domri);
        }
        if matches_text(t, lo, hi, PlaneswalkerType::Dovin.name()) {
            return Some(PlaneswalkerType::Dovin);
        }
        if matches_text(t, lo, hi, PlaneswalkerType::Elspeth.name()) {
            return Some(PlaneswalkerType::Elspeth);
        }
        if matches_text(t, lo, hi, PlaneswalkerType::Estrid.name()) {
            return Some(PlaneswalkerType::Estrid);
        }
        if matches_text(t, lo, hi, PlaneswalkerType::Freyalise.name()) {
            return Some(PlaneswalkerType::Freyalise);
        }
        if matches_text(t, lo, hi, PlaneswalkerType::Garruk.name()) {
            return Some(PlaneswalkerType::Garruk);
        }
        if matches_text(t, lo, hi, PlaneswalkerType::Gideon.name()) {
            return Some(PlaneswalkerType::Gideon);
        }
        if matches_text(t, lo, hi, PlaneswalkerType::Huatli.name()) {
            return Some(PlaneswalkerType::Huatli);
        }
        if matches_text(t, lo, hi, PlaneswalkerType::Jace.name()) {
            return Some(PlaneswalkerType::Jace);
        }
        if matches_text(t, lo, hi, PlaneswalkerType::Jaya.name()) {
            return Some(PlaneswalkerType::Jaya);
        }
        if matches_text(t, lo, hi, PlaneswalkerType::Karn.name()) {
            return Some(PlaneswalkerType::Karn);
        }
        if matches_text(t, lo, hi, PlaneswalkerType::Kaya.name()) {
            return Some(PlaneswalkerType::Kaya);
        }
        if matches_text(t, lo, hi, PlaneswalkerType::Kiora.name()) {
            return Some(PlaneswalkerType::Kiora);
        }
        if matches_text(t, lo, hi, PlaneswalkerType::Koth.name()) {
            return Some(PlaneswalkerType::Koth);
        }
        if matches_text(t, lo, hi, PlaneswalkerType::Liliana.name()) {
            return Some(PlaneswalkerType::Liliana);
        }
        if matches_text(t, lo, hi, PlaneswalkerType::Nahiri.name()) {
            return Some(PlaneswalkerType::Nahiri);
        }
        if matches_text(t, lo, hi, PlaneswalkerType::Narset.name()) {
            return Some(PlaneswalkerType::Narset);
        }
        if matches_text(t, lo, hi, PlaneswalkerType::Nissa.name()) {
            return Some(PlaneswalkerType::Nissa);
        }
        if matches_text(t, lo, hi, PlaneswalkerType::Nixilis.name()) {
            return Some(PlaneswalkerType::Nixilis);
        }
        if matches_text(t, lo, hi, PlaneswalkerType::Ral.name()) {
            return Some(PlaneswalkerType::Ral);
        }
        if matches_text(t, lo, hi, PlaneswalkerType::Rowan.name()) {
            return Some(PlaneswalkerType::Rowan);
        }
        if matches_text(t, lo, hi, PlaneswalkerType::Saheeli.name()) {
            return Some(PlaneswalkerType::Saheeli);
        }
        if matches_text(t, lo, hi, PlaneswalkerType::Samut.name()) {
            return Some(PlaneswalkerType::Samut);
        }
        if matches_text(t, lo, hi, PlaneswalkerType::Sarkhan.name()) {
            return Some(PlaneswalkerType::Sarkhan);
        }
        if matches_text(t, lo, hi, PlaneswalkerType::Sorin.name()) {
            return Some(PlaneswalkerType::Sorin);
        }
        if matches_text(t, lo, hi, PlaneswalkerType::Tamiyo.name()) {
            return Some(PlaneswalkerType::Tamiyo);
        }
        if matches_text(t, lo, hi, PlaneswalkerType::Teferi.name()) {
            return Some(PlaneswalkerType::Teferi);
        }
        if matches_text(t, lo, hi, PlaneswalkerType::Tezzeret.name()) {
            return Some(PlaneswalkerType::Tezzeret);
        }
        if matches_text(t, lo, hi, PlaneswalkerType::Tibalt.name()) {
            return Some(PlaneswalkerType::Tibalt);
        }
        if matches_text(t, lo, hi, PlaneswalkerType::Ugin.name()) {
            return Some(PlaneswalkerType::Ugin);
        }
        if matches_text(t, lo, hi, PlaneswalkerType::Venser.name()) {
            return Some(PlaneswalkerType::Venser);
        }
        if matches_text(t, lo, hi, PlaneswalkerType::Vivien.name()) {
            return Some(PlaneswalkerType::Vivien);
        }
        if matches_text(t, lo, hi, PlaneswalkerType::Vraska.name()) {
            return Some(PlaneswalkerType::Vraska);
        }
        if matches_text(t, lo, hi, PlaneswalkerType::Will.name()) {
            return Some(PlaneswalkerType::Will);
        }
        if matches_text(t, lo, hi, PlaneswalkerType::Windgrace.name()) {
            return Some(PlaneswalkerType::Windgrace);
        }
        if matches_text(t, lo, hi, PlaneswalkerType::Xenagos.name()) {
            return Some(PlaneswalkerType::Xenagos);
        }
        if matches_text(t, lo, hi, PlaneswalkerType::Yanggu.name()) {
            return Some(PlaneswalkerType::Yanggu);
        }
        if matches_text(t, lo, hi, PlaneswalkerType::Yanling.name()) {
            return Some(PlaneswalkerType::Yanling);
        }
        None
    }

    pub fn from_name(s: &str) -> (r: Option<PlaneswalkerType>)
        ensures
            r == PlaneswalkerType::from_text(s@),
    {
        let t = chars_of(s);
        assert(t@.subrange(0, t@.len() as int) =~= t@);
        PlaneswalkerType::parse_range(&t, 0, t.len())
    }
}

impl core::str::FromStr for PlaneswalkerType {
    type Err = UnknownName;

    fn from_str(s: &str) -> Result<PlaneswalkerType, UnknownName> {
        match PlaneswalkerType::from_name(s) {
            Some(v) => Ok(v),
            None => Err(UnknownName),
        }
    }
}

/// Instant and sorcery subtypes.
#[derive(Debug, Clone, Copy, PartialEq, Eq, Hash, Structural)]
pub enum SpellType {
    Arcane,
    Trap,
}

impl SpellType {
    /// The name as printed on a card.
    #[verifier::opaque]
    pub open spec fn text(self) -> Seq<char> {
        match self {
            SpellType::Arcane => "Arcane"@,
            SpellType::Trap => "Trap"@,
        }
    }

    /// The first value of the vocabulary whose name is `t`.
    #[verifier::opaque]
    pub open spec fn from_text(t: Seq<char>) -> Option<SpellType> {
        if t == SpellType::Arcane.text() {
            Some(SpellType::Arcane)
        } else if t == SpellType::Trap.text() {
            Some(SpellType::Trap)
        } else {
            None
        }
    }

    pub fn name(self) -> (r: &'static str)
        ensures
            r@ == self.text(),
    {
        proof {
            reveal(SpellType::text);
        }
        match self {
            SpellType::Arcane => "Arcane",
            SpellType::Trap => "Trap",
        }
    }

    pub fn to_string(self) -> (r: String)
        ensures
            r@ == self.text(),
    {
        String::from_str(self.name())
    }

    /// The value named by `t[lo..hi]`.
    pub fn parse_range(t: &Vec<char>, lo: usize, hi: usize) -> (r: Option<SpellType>)
        requires
            lo <= hi <= t@.len(),
        ensures
            r == SpellType::from_text(t@.subrange(lo as int, hi as int)),
    {
        proof {
            reveal(SpellType::from_text);
        }
        if matches_text(t, lo, hi, SpellType::Arcane.name()) {
            return Some(SpellType::Arcane);
        }
        if matches_text(t, lo, hi, SpellType::Trap.name()) {
            return Some(SpellType::Trap);
        }
        None
    }

    pub fn from_name(s: &str) -> (r: Option<SpellType>)
        ensures
            r == SpellType::from_text(s@),
    {
        let t = chars_of(s);
        assert(t@.subrange(0, t@.len() as int) =~= t@);
        SpellType::parse_range(&t, 0, t.len())
    }
}

impl core::str::FromStr for SpellType {
    type Err = UnknownName;

    fn from_str(s: &str) -> Result<SpellType, UnknownName> {
        match SpellType::from_name(s) {
            Some(v) => Ok(v),
            None => Err(UnknownName),
        }
    }
}

/// Creature and tribal subtypes.
#[derive(Debug, Clone, Copy, PartialEq, Eq, Hash, Structural)]
pub enum CreatureType {
    Advisor,
    Aetherborn,
    Ally,
    Angel,
    Antelope,
    Ape,
    Archer,
    Archon,
    Artificer,
    Assassin,
    AssemblyWorker,
    Atog,
    Aurochs,
    Avatar,
    Azra,
    Badger,
    Barbarian,
    Basilisk,
    Bat,
    Bear,
    Beast,
    Beeble,
    Berserker,
    Bird,
    Blinkmoth,
    Boar,
    Bringer,
    Brushwagg,
    Camarid,
    Camel,
    Caribou,
    Carrier,
    Cat,
    Centaur,
    Cephalid,
    Chimera,
    Citizen,
    Cleric,
    Cockatrice,
    Construct,
    Coward,
    Crab,
    Crocodile,
    Cyclops,
    Dauthi,
    Demon,
    Deserter,
    Devil,
    Dinosaur,
    Djinn,
    Dragon,
    Drake,
    Dreadnought,
    Drone,
    Druid,
    Dryad,
    Dwarf,
    Efreet,
    Egg,
    Elder,
    Eldrazi,
    Elemental,
    Elephant,
    Elf,
    Elk,
    Eye,
    Faerie,
    Ferret,
    Fish,
    Flagbearer,
    Fox,
    Frog,
    Fungus,
    Gargoyle,
    Germ,
    Giant,
    Gnome,
    Goat,
    Goblin,
    God,
    Golem,
    Gorgon,
    Graveborn,
    Gremlin,
    Griffin,
    Hag,
    Harpy,
    Hellion,
    Hippo,
    Hippogriff,
    Homarid,
    Homunculus,
    Horror,
    Horse,
    Hound,
    Human,
    Hydra,
    Hyena,
    Illusion,
    Imp,
    Incarnation,
    Insect,
    Jackal,
    Jellyfish,
    Juggernaut,
    Kavu,
    Kirin,
    Kithkin,
    Knight,
    Kobold,
    Kor,
    Kraken,
    Lamia,
    Lammasu,
    Leech,
    Leviathan,
    Lhurgoyf,
    Licid,
    Lizard,
    Manticore,
    Masticore,
    Mercenary,
    Merfolk,
    Metathran,
    Minion,
    Minotaur,
    Mole,
    Monger,
    Mongoose,
    Monk,
    Monkey,
    Moonfolk,
    Mutant,
    Myr,
    Mystic,
    Naga,
    Nautilus,
    Nephilim,
    Nightmare,
    Nightstalker,
    Ninja,
    Noggle,
    Nomad,
    Nymph,
    Octopus,
    Ogre,
    Ooze,
    Orb,
    Orc,
    Orgg,
    Ouphe,
    Ox,
    Oyster,
    Pangolin,
    Pegasus,
    Pentavite,
    Pest,
    Phelddagrif,
    Phoenix,
    Pilot,
    Pincher,
    Pirate,
    Plant,
    Praetor,
    Prism,
    Processor,
    Rabbit,
    Rat,
    Rebel,
    Reflection,
    Rhino,
    Rigger,
    Rogue,
    Sable,
    Salamander,
    Samurai,
    Sand,
    Saproling,
    Satyr,
    Scarecrow,
    Scion,
    Scorpion,
    Scout,
    Serf,
    Serpent,
    Servo,
    Shade,
    Shaman,
    Shapeshifter,
    Sheep,
    Siren,
    Skeleton,
    Slith,
    Sliver,
    Slug,
    Snake,
    Soldier,
    Soltari,
    Spawn,
    Specter,
    Spellshaper,
    Sphinx,
    Spider,
    Spike,
    Spirit,
    Splinter,
    Sponge,
    Squid,
    Squirrel,
    Starfish,
    Surrakar,
    Survivor,
    Tetravite,
    Thalakos,
    Thopter,
    Thrull,
    Treefolk,
    Trilobite,
    Triskelavite,
    Troll,
    Turtle,
    Unicorn,
    Vampire,
    Vedalken,
    Viashino,
    Volver,
    Wall,
    Warrior,
    Weird,
    Werewolf,
    Whale,
    Wizard,
    Wolf,
    Wolverine,
    Wombat,
    Worm,
    Wraith,
    Wurm,
    Yeti,
    Zombie,
    Zubera,
}

impl CreatureType {
    /// The name as printed on a card.
    #[verifier::opaque]
    pub open spec fn text(self) -> Seq<char> {
        match self {
            CreatureType::Advisor => "Advisor"@,
            CreatureType::Aetherborn => "Aetherborn"@,
            CreatureType::Ally => "Ally"@,
            CreatureType::Angel => "Angel"@,
            CreatureType::Antelope => "Antelope"@,
            CreatureType::Ape => "Ape"@,
            CreatureType::Archer => "Archer"@,
            CreatureType::Archon => "Archon"@,
            CreatureType::Artificer => "Artificer"@,
            CreatureType::Assassin => "Assassin"@,
            CreatureType::AssemblyWorker => "Assembly-Worker"@,
            CreatureType::Atog => "Atog"@,
            CreatureType::Aurochs => "Aurochs"@,
            CreatureType::Avatar => "Avatar"@,
            CreatureType::Azra => "Azra"@,
            CreatureType::Badger => "Badger"@,
            CreatureType::Barbarian => "Barbarian"@,
            CreatureType::Basilisk => "Basilisk"@,
            CreatureType::Bat => "Bat"@,
            CreatureType::Bear => "Bear"@,
            CreatureType::Beast => "Beast"@,
            CreatureType::Beeble => "Beeble"@,
            CreatureType::Berserker => "Berserker"@,
            CreatureType::Bird => "Bird"@,
            CreatureType::Blinkmoth => "Blinkmoth"@,
            CreatureType::Boar => "Boar"@,
            CreatureType::Bringer => "Bringer"@,
            CreatureType::Brushwagg => "Brushwagg"@,
            CreatureType::Camarid => "Camarid"@,
            CreatureType::Camel => "Camel"@,
            CreatureType::Caribou => "Caribou"@,
            CreatureType::Carrier => "Carrier"@,
            CreatureType::Cat => "Cat"@,
            CreatureType::Centaur => "Centaur"@,
            CreatureType::Cephalid => "Cephalid"@,
            CreatureType::Chimera => "Chimera"@,
            CreatureType::Citizen => "Citizen"@,
            CreatureType::Cleric => "Cleric"@,
            CreatureType::Cockatrice => "Cockatrice"@,
            CreatureType::Construct => "Construct"@,
            CreatureType::Coward => "Coward"@,
            CreatureType::Crab => "Crab"@,
            CreatureType::Crocodile => "Crocodile"@,
            CreatureType::Cyclops => "Cyclops"@,
            CreatureType::Dauthi => "Dauthi"@,
            CreatureType::Demon => "Demon"@,
            CreatureType::Deserter => "Deserter"@,
            CreatureType::Devil => "Devil"@,
            CreatureType::Dinosaur => "Dinosaur"@,
            CreatureType::Djinn => "Djinn"@,
            CreatureType::Dragon => "Dragon"@,
            CreatureType::Drake => "Drake"@,
            CreatureType::Dreadnought => "Dreadnought"@,
            CreatureType::Drone => "Drone"@,
            CreatureType::Druid => "Druid"@,
            CreatureType::Dryad => "Dryad"@,
            CreatureType::Dwarf => "Dwarf"@,
            CreatureType::Efreet => "Efreet"@,
            CreatureType::Egg => "Egg"@,
            CreatureType::Elder => "Elder"@,
            CreatureType::Eldrazi => "Eldrazi"@,
            CreatureType::Elemental => "Elemental"@,
            CreatureType::Elephant => "Elephant"@,
            CreatureType::Elf => "Elf"@,
            CreatureType::Elk => "Elk"@,
            CreatureType::Eye => "Eye"@,
            CreatureType::Faerie => "Faerie"@,
            CreatureType::Ferret => "Ferret"@,
            CreatureType::Fish => "Fish"@,
            CreatureType::Flagbearer => "Flagbearer"@,
            CreatureType::Fox => "Fox"@,
            CreatureType::Frog => "Frog"@,
            CreatureType::Fungus => "Fungus"@,
            CreatureType::Gargoyle => "Gargoyle"@,
            CreatureType::Germ => "Germ"@,
            CreatureType::Giant => "Giant"@,
            CreatureType::Gnome => "Gnome"@,
            CreatureType::Goat => "Goat"@,
            CreatureType::Goblin => "Goblin"@,
            CreatureType::God => "God"@,
            CreatureType::Golem => "Golem"@,
            CreatureType::Gorgon => "Gorgon"@,
            CreatureType::Graveborn => "Graveborn"@,
            CreatureType::Gremlin => "Gremlin"@,
            CreatureType::Griffin => "Griffin"@,
            CreatureType::Hag => "Hag"@,
            CreatureType::Harpy => "Harpy"@,
            CreatureType::Hellion => "Hellion"@,
            CreatureType::Hippo => "Hippo"@,
            CreatureType::Hippogriff => "Hippogriff"@,
            CreatureType::Homarid => "Homarid"@,
            CreatureType::Homunculus => "Homunculus"@,
            CreatureType::Horror => "Horror"@,
            CreatureType::Horse => "Horse"@,
            CreatureType::Hound => "Hound"@,
            CreatureType::Human => "Human"@,
            CreatureType::Hydra => "Hydra"@,
            CreatureType::Hyena => "Hyena"@,
            CreatureType::Illusion => "Illusion"@,
            CreatureType::Imp => "Imp"@,
            CreatureType::Incarnation => "Incarnation"@,
            CreatureType::Insect => "Insect"@,
            CreatureType::Jackal => "Jackal"@,
            CreatureType::Jellyfish => "Jellyfish"@,
            CreatureType::Juggernaut => "Juggernaut"@,
            CreatureType::Kavu => "Kavu"@,
            CreatureType::Kirin => "Kirin"@,
            CreatureType::Kithkin => "Kithkin"@,
            CreatureType::Knight => "Knight"@,
            CreatureType::Kobold => "Kobold"@,
            CreatureType::Kor => "Kor"@,
            CreatureType::Kraken => "Kraken"@,
            CreatureType::Lamia => "Lamia"@,
            CreatureType::Lammasu => "Lammasu"@,
            CreatureType::Leech => "Leech"@,
            CreatureType::Leviathan => "Leviathan"@,
            CreatureType::Lhurgoyf => "Lhurgoyf"@,
            CreatureType::Licid => "Licid"@,
            CreatureType::Lizard => "Lizard"@,
            CreatureType::Manticore => "Manticore"@,
            CreatureType::Masticore => "Masticore"@,
            CreatureType::Mercenary => "Mercenary"@,
            CreatureType::Merfolk => "Merfolk"@,
            CreatureType::Metathran => "Metathran"@,
            CreatureType::Minion => "Minion"@,
            CreatureType::Minotaur => "Minotaur"@,
            CreatureType::Mole => "Mole"@,
            CreatureType::Monger => "Monger"@,
            CreatureType::Mongoose => "Mongoose"@,
            CreatureType::Monk => "Monk"@,
            CreatureType::Monkey => "Monkey"@,
            CreatureType::Moonfolk => "Moonfolk"@,
            CreatureType::Mutant => "Mutant"@,
            CreatureType::Myr => "Myr"@,
            CreatureType::Mystic => "Mystic"@,
            CreatureType::Naga => "Naga"@,
            CreatureType::Nautilus => "Nautilus"@,
            CreatureType::Nephilim => "Nephilim"@,
            CreatureType::Nightmare => "Nightmare"@,
            CreatureType::Nightstalker => "Nightstalker"@,
            CreatureType::Ninja => "Ninja"@,
            CreatureType::Noggle => "Noggle"@,
            CreatureType::Nomad => "Nomad"@,
            CreatureType::Nymph => "Nymph"@,
            CreatureType::Octopus => "Octopus"@,
            CreatureType::Ogre => "Ogre"@,
            CreatureType::Ooze => "Ooze"@,
            CreatureType::Orb => "Orb"@,
            CreatureType::Orc => "Orc"@,
            CreatureType::Orgg => "Orgg"@,
            CreatureType::Ouphe => "Ouphe"@,
            CreatureType::Ox => "Ox"@,
            CreatureType::Oyster => "Oyster"@,
            CreatureType::Pangolin => "Pangolin"@,
            CreatureType::Pegasus => "Pegasus"@,
            CreatureType::Pentavite => "Pentavite"@,
            CreatureType::Pest => "Pest"@,
            CreatureType::Phelddagrif => "Phelddagrif"@,
            CreatureType::Phoenix => "Phoenix"@,
            CreatureType::Pilot => "Pilot"@,
            CreatureType::Pincher => "Pincher"@,
            CreatureType::Pirate => "Pirate"@,
            CreatureType::Plant => "Plant"@,
            CreatureType::Praetor => "Praetor"@,
            CreatureType::Prism => "Prism"@,
            CreatureType::Processor => "Processor"@,
            CreatureType::Rabbit => "Rabbit"@,
            CreatureType::Rat => "Rat"@,
            CreatureType::Rebel => "Rebel"@,
            CreatureType::Reflection => "Reflection"@,
            CreatureType::Rhino => "Rhino"@,
            CreatureType::Rigger => "Rigger"@,
            CreatureType::Rogue => "Rogue"@,
            CreatureType::Sable => "Sable"@,
            CreatureType::Salamander => "Salamander"@,
            CreatureType::Samurai => "Samurai"@,
            CreatureType::Sand => "Sand"@,
            CreatureType::Saproling => "Saproling"@,
            CreatureType::Satyr => "Satyr"@,
            CreatureType::Scarecrow => "Scarecrow"@,
            CreatureType::Scion => "Scion"@,
            CreatureType::Scorpion => "Scorpion"@,
            CreatureType::Scout => "Scout"@,
            CreatureType::Serf => "Serf"@,
            CreatureType::Serpent => "Serpent"@,
            CreatureType::Servo => "Servo"@,
            CreatureType::Shade => "Shade"@,
            CreatureType::Shaman => "Shaman"@,
            CreatureType::Shapeshifter => "Shapeshifter"@,
            CreatureType::Sheep => "Sheep"@,
            CreatureType::Siren => "Siren"@,
            CreatureType::Skeleton => "Skeleton"@,
            CreatureType::Slith => "Slith"@,
            CreatureType::Sliver => "Sliver"@,
            CreatureType::Slug => "Slug"@,
            CreatureType::Snake => "Snake"@,
            CreatureType::Soldier => "Soldier"@,
            CreatureType::Soltari => "Soltari"@,
            CreatureType::Spawn => "Spawn"@,
            CreatureType::Specter => "Specter"@,
            CreatureType::Spellshaper => "Spellshaper"@,
            CreatureType::Sphinx => "Sphinx"@,
            CreatureType::Spider => "Spider"@,
            CreatureType::Spike => "Spike"@,
            CreatureType::Spirit => "Spirit"@,
            CreatureType::Splinter => "Splinter"@,
            CreatureType::Sponge => "Sponge"@,
            CreatureType::Squid => "Squid"@,
            CreatureType::Squirrel => "Squirrel"@,
            CreatureType::Starfish => "Starfish"@,
            CreatureType::Surrakar => "Surrakar"@,
            CreatureType::Survivor => "Survivor"@,
            CreatureType::Tetravite => "Tetravite"@,
            CreatureType::Thalakos => "Thalakos"@,
            CreatureType::Thopter => "Thopter"@,
            CreatureType::Thrull => "Thrull"@,
            CreatureType::Treefolk => "Treefolk"@,
            CreatureType::Trilobite => "Trilobite"@,
            CreatureType::Triskelavite => "Triskelavite"@,
            CreatureType::Troll => "Troll"@,
            CreatureType::Turtle => "Turtle"@,
            CreatureType::Unicorn => "Unicorn"@,
            CreatureType::Vampire => "Vampire"@,
            CreatureType::Vedalken => "Vedalken"@,
            CreatureType::Viashino => "Viashino"@,
            CreatureType::Volver => "Volver"@,
            CreatureType::Wall => "Wall"@,
            CreatureType::Warrior => "Warrior"@,
            CreatureType::Weird => "Weird"@,
            CreatureType::Werewolf => "Werewolf"@,
            CreatureType::Whale => "Whale"@,
            CreatureType::Wizard => "Wizard"@,
            CreatureType::Wolf => "Wolf"@,
            CreatureType::Wolverine => "Wolverine"@,
            CreatureType::Wombat => "Wombat"@,
            CreatureType::Worm => "Worm"@,
            CreatureType::Wraith => "Wraith"@,
            CreatureType::Wurm => "Wurm"@,
            CreatureType::Yeti => "Yeti"@,
            CreatureType::Zombie => "Zombie"@,
            CreatureType::Zubera => "Zubera"@,
        }
    }

    /// The first value of the vocabulary whose name is `t`.
    #[verifier::opaque]
    pub open spec fn from_text(t: Seq<char>) -> Option<CreatureType> {
        if t == CreatureType::Advisor.text() {
            Some(CreatureType::Advisor)
        } else if t == CreatureType::Aetherborn.text() {
            Some(CreatureType::Aetherborn)
        } else if t == CreatureType::Ally.text() {
            Some(CreatureType::Ally)
        } else if t == CreatureType::Angel.text() {
            Some(CreatureType::Angel)
        } else if t == CreatureType::Antelope.text() {
            Some(CreatureType::Antelope)
        } else if t == CreatureType::Ape.text() {
            Some(CreatureType::Ape)
        } else if t == CreatureType::Archer.text() {
            Some(CreatureType::Archer)
        } else if t == CreatureType::Archon.text() {
            Some(CreatureType::Archon)
        } else if t == CreatureType::Artificer.text() {
            Some(CreatureType::Artificer)
        } else if t == CreatureType::Assassin.text() {
            Some(CreatureType::Assassin)
        } else if t == CreatureType::AssemblyWorker.text() {
            Some(CreatureType::AssemblyWorker)
        } else if t == CreatureType::Atog.text() {
            Some(CreatureType::Atog)
        } else if t == CreatureType::Aurochs.text() {
            Some(CreatureType::Aurochs)
        } else if t == CreatureType::Avatar.text() {
            Some(CreatureType::Avatar)
        } else if t == CreatureType::Azra.text() {
            Some(CreatureType::Azra)
        } else if t == CreatureType::Badger.text() {
            Some(CreatureType::Badger)
        } else if t == CreatureType::Barbarian.text() {
            Some(CreatureType::Barbarian)
        } else if t == CreatureType::Basilisk.text() {
            Some(CreatureType::Basilisk)
        } else if t == CreatureType::Bat.text() {
            Some(CreatureType::Bat)
        } else if t == CreatureType::Bear.text() {
            Some(CreatureType::Bear)
        } else if t == CreatureType::Beast.text() {
            Some(CreatureType::Beast)
        } else if t == CreatureType::Beeble.text() {
            Some(CreatureType::Beeble)
        } else if t == CreatureType::Berserker.text() {
            Some(CreatureType::Berserker)
        } else if t == CreatureType::Bird.text() {
            Some(CreatureType::Bird)
        } else if t == CreatureType::Blinkmoth.text() {
            Some(CreatureType::Blinkmoth)
        } else if t == CreatureType::Boar.text() {
            Some(CreatureType::Boar)
        } else if t == CreatureType::Bringer.text() {
            Some(CreatureType::Bringer)
        } else if t == CreatureType::Brushwagg.text() {
            Some(CreatureType::Brushwagg)
        } else if t == CreatureType::Camarid.text() {
            Some(CreatureType::Camarid)
        } else if t == CreatureType::Camel.text() {
            Some(CreatureType::Camel)
        } else if t == CreatureType::Caribou.text() {
            Some(CreatureType::Caribou)
        } else if t == CreatureType::Carrier.text() {
            Some(CreatureType::Carrier)
        } else if t == CreatureType::Cat.text() {
            Some(CreatureType::Cat)
        } else if t == CreatureType::Centaur.text() {
            Some(CreatureType::Centaur)
        } else if t == CreatureType::Cephalid.text() {
            Some(CreatureType::Cephalid)
        } else if t == CreatureType::Chimera.text() {
            Some(CreatureType::Chimera)
        } else if t == CreatureType::Citizen.text() {
            Some(CreatureType::Citizen)
        } else if t == CreatureType::Cleric.text() {
            Some(CreatureType::Cleric)
        } else if t == CreatureType::Cockatrice.text() {
            Some(CreatureType::Cockatrice)
        } else if t == CreatureType::Construct.text() {
            Some(CreatureType::Construct)
        } else if t == CreatureType::Coward.text() {
            Some(CreatureType::Coward)
        } else if t == CreatureType::Crab.text() {
            Some(CreatureType::Crab)
        } else if t == CreatureType::Crocodile.text() {
            Some(CreatureType::Crocodile)
        } else if t == CreatureType::Cyclops.text() {
            Some(CreatureType::Cyclops)
        } else if t == CreatureType::Dauthi.text() {
            Some(CreatureType::Dauthi)
        } else if t == CreatureType::Demon.text() {
            Some(CreatureType::Demon)
        } else if t == CreatureType::Deserter.text() {
            Some(CreatureType::Deserter)
        } else if t == CreatureType::Devil.text() {
            Some(CreatureType::Devil)
        } else if t == CreatureType::Dinosaur.text() {
            Some(CreatureType::Dinosaur)
        } else if t == CreatureType::Djinn.text() {
            Some(CreatureType::Djinn)
        } else if t == CreatureType::Dragon.text() {
            Some(CreatureType::Dragon)
        } else if t == CreatureType::Drake.text() {
            Some(CreatureType::Drake)
        } else if t == CreatureType::Dreadnought.text() {
            Some(CreatureType::Dreadnought)
        } else if t == CreatureType::Drone.text() {
            Some(CreatureType::Drone)
        } else if t == CreatureType::Druid.text() {
            Some(CreatureType::Druid)
        } else if t == CreatureType::Dryad.text() {
            Some(CreatureType::Dryad)
        } else if t == CreatureType::Dwarf.text() {
            Some(CreatureType::Dwarf)
        } else if t == CreatureType::Efreet.text() {
            Some(CreatureType::Efreet)
        } else if t == CreatureType::Egg.text() {
            Some(CreatureType::Egg)
        } else if t == CreatureType::Elder.text() {
            Some(CreatureType::Elder)
        } else if t == CreatureType::Eldrazi.text() {
            Some(CreatureType::Eldrazi)
        } else if t == CreatureType::Elemental.text() {
            Some(CreatureType::Elemental)
        } else if t == CreatureType::Elephant.text() {
            Some(CreatureType::Elephant)
        } else if t == CreatureType::Elf.text() {
            Some(CreatureType::Elf)
        } else if t == CreatureType::Elk.text() {
            Some(CreatureType::Elk)
        } else if t == CreatureType::Eye.text() {
            Some(CreatureType::Eye)
        } else if t == CreatureType::Faerie.text() {
            Some(CreatureType::Faerie)
        } else if t == CreatureType::Ferret.text() {
            Some(CreatureType::Ferret)
        } else if t == CreatureType::Fish.text() {
            Some(CreatureType::Fish)
        } else if t == CreatureType::Flagbearer.text() {
            Some(CreatureType::Flagbearer)
        } else if t == CreatureType::Fox.text() {
            Some(CreatureType::Fox)
        } else if t == CreatureType::Frog.text() {
            Some(CreatureType::Frog)
        } else if t == CreatureType::Fungus.text() {
            Some(CreatureType::Fungus)
        } else if t == CreatureType::Gargoyle.text() {
            Some(CreatureType::Gargoyle)
        } else if t == CreatureType::Germ.text() {
            Some(CreatureType::Germ)
        } else if t == CreatureType::Giant.text() {
            Some(CreatureType::Giant)
        } else if t == CreatureType::Gnome.text() {
            Some(CreatureType::Gnome)
        } else if t == CreatureType::Goat.text() {
            Some(CreatureType::Goat)
        } else if t == CreatureType::Goblin.text() {
            Some(CreatureType::Goblin)
        } else if t == CreatureType::God.text() {
            Some(CreatureType::God)
        } else if t == CreatureType::Golem.text() {
            Some(CreatureType::Golem)
        } else if t == CreatureType::Gorgon.text() {
            Some(CreatureType::Gorgon)
        } else if t == CreatureType::Graveborn.text() {
            Some(CreatureType::Graveborn)
        } else if t == CreatureType::Gremlin.text() {
            Some(CreatureType::Gremlin)
        } else if t == CreatureType::Griffin.text() {
            Some(CreatureType::Griffin)
        } else if t == CreatureType::Hag.text() {
            Some(CreatureType::Hag)
        } else if t == CreatureType::Harpy.text() {
            Some(CreatureType::Harpy)
        } else if t == CreatureType::Hellion.text() {
            Some(CreatureType::Hellion)
        } else if t == CreatureType::Hippo.text() {
            Some(CreatureType::Hippo)
        } else if t == CreatureType::Hippogriff.text() {
            Some(CreatureType::Hippogriff)
        } else if t == CreatureType::Homarid.text() {
            Some(CreatureType::Homarid)
        } else if t == CreatureType::Homunculus.text() {
            Some(CreatureType::Homunculus)
        } else if t == CreatureType::Horror.text() {
            Some(CreatureType::Horror)
        } else if t == CreatureType::Horse.text() {
            Some(CreatureType::Horse)
        } else if t == CreatureType::Hound.text() {
            Some(CreatureType::Hound)
        } else if t == CreatureType::Human.text() {
            Some(CreatureType::Human)
        } else if t == CreatureType::Hydra.text() {
            Some(CreatureType::Hydra)
        } else if t == CreatureType::Hyena.text() {
            Some(CreatureType::Hyena)
        } else if t == CreatureType::Illusion.text() {
            Some(CreatureType::Illusion)
        } else if t == CreatureType::Imp.text() {
            Some(CreatureType::Imp)
        } else if t == CreatureType::Incarnation.text() {
            Some(CreatureType::Incarnation)
        } else if t == CreatureType::Insect.text() {
            Some(CreatureType::Insect)
        } else if t == CreatureType::Jackal.text() {
            Some(CreatureType::Jackal)
        } else if t == CreatureType::Jellyfish.text() {
            Some(CreatureType::Jellyfish)
        } else if t == CreatureType::Juggernaut.text() {
            Some(CreatureType::Juggernaut)
        } else if t == CreatureType::Kavu.text() {
            Some(CreatureType::Kavu)
        } else if t == CreatureType::Kirin.text() {
            Some(CreatureType::Kirin)
        } else if t == CreatureType::Kithkin.text() {
            Some(CreatureType::Kithkin)
        } else if t == CreatureType::Knight.text() {
            Some(CreatureType::Knight)
        } else if t == CreatureType::Kobold.text() {
            Some(CreatureType::Kobold)
        } else if t == CreatureType::Kor.text() {
            Some(CreatureType::Kor)
        } else if t == CreatureType::Kraken.text() {
            Some(CreatureType::Kraken)
        } else if t == CreatureType::Lamia.text() {
            Some(CreatureType::Lamia)
        } else if t == CreatureType::Lammasu.text() {
            Some(CreatureType::Lammasu)
        } else if t == CreatureType::Leech.text() {
            Some(CreatureType::Leech)
        } else if t == CreatureType::Leviathan.text() {
            Some(CreatureType::Leviathan)
        } else if t == CreatureType::Lhurgoyf.text() {
            Some(CreatureType::Lhurgoyf)
        } else if t == CreatureType::Licid.text() {
            Some(CreatureType::Licid)
        } else if t == CreatureType::Lizard.text() {
            Some(CreatureType::Lizard)
        } else if t == CreatureType::Manticore.text() {
            Some(CreatureType::Manticore)
        } else if t == CreatureType::Masticore.text() {
            Some(CreatureType::Masticore)
        } else if t == CreatureType::Mercenary.text() {
            Some(CreatureType::Mercenary)
        } else if t == CreatureType::Merfolk.text() {
            Some(CreatureType::Merfolk)
        } else if t == CreatureType::Metathran.text() {
            Some(CreatureType::Metathran)
        } else if t == CreatureType::Minion.text() {
            Some(CreatureType::Minion)
        } else if t == CreatureType::Minotaur.text() {
            Some(CreatureType::Minotaur)
        } else if t == CreatureType::Mole.text() {
            Some(CreatureType::Mole)
        } else if t == CreatureType::Monger.text() {
            Some(CreatureType::Monger)
        } else if t == CreatureType::Mongoose.text() {
            Some(CreatureType::Mongoose)
        } else if t == CreatureType::Monk.text() {
            Some(CreatureType::Monk)
        } else if t == CreatureType::Monkey.text() {
            Some(CreatureType::Monkey)
        } else if t == CreatureType::Moonfolk.text() {
            Some(CreatureType::Moonfolk)
        } else if t == CreatureType::Mutant.text() {
            Some(CreatureType::Mutant)
        } else if t == CreatureType::Myr.text() {
            Some(CreatureType::Myr)
        } else if t == CreatureType::Mystic.text() {
            Some(CreatureType::Mystic)
        } else if t == CreatureType::Naga.text() {
            Some(CreatureType::Naga)
        } else if t == CreatureType::Nautilus.text() {
            Some(CreatureType::Nautilus)
        } else if t == CreatureType::Nephilim.text() {
            Some(CreatureType::Nephilim)
        } else if t == CreatureType::Nightmare.text() {
            Some(CreatureType::Nightmare)
        } else if t == CreatureType::Nightstalker.text() {
            Some(CreatureType::Nightstalker)
        } else if t == CreatureType::Ninja.text() {
            Some(CreatureType::Ninja)
        } else if t == CreatureType::Noggle.text() {
            Some(CreatureType::Noggle)
        } else if t == CreatureType::Nomad.text() {
            Some(CreatureType::Nomad)
        } else if t == CreatureType::Nymph.text() {
            Some(CreatureType::Nymph)
        } else if t == CreatureType::Octopus.text() {
            Some(CreatureType::Octopus)
        } else if t == CreatureType::Ogre.text() {
            Some(CreatureType::Ogre)
        } else if t == CreatureType::Ooze.text() {
            Some(CreatureType::Ooze)
        } else if t == CreatureType::Orb.text() {
            Some(CreatureType::Orb)
        } else if t == CreatureType::Orc.text() {
            Some(CreatureType::Orc)
        } else if t == CreatureType::Orgg.text() {
            Some(CreatureType::Orgg)
        } else if t == CreatureType::Ouphe.text() {
            Some(CreatureType::Ouphe)
        } else if t == CreatureType::Ox.text() {
            Some(CreatureType::Ox)
        } else if t == CreatureType::Oyster.text() {
            Some(CreatureType::Oyster)
        } else if t == CreatureType::Pangolin.text() {
            Some(CreatureType::Pangolin)
        } else if t == CreatureType::Pegasus.text() {
            Some(CreatureType::Pegasus)
        } else if t == CreatureType::Pentavite.text() {
            Some(CreatureType::Pentavite)
        } else if t == CreatureType::Pest.text() {
            Some(CreatureType::Pest)
        } else if t == CreatureType::Phelddagrif.text() {
            Some(CreatureType::Phelddagrif)
        } else if t == CreatureType::Phoenix.text() {
            Some(CreatureType::Phoenix)
        } else if t == CreatureType::Pilot.text() {
            Some(CreatureType::Pilot)
        } else if t == CreatureType::Pincher.text() {
            Some(CreatureType::Pincher)
        } else if t == CreatureType::Pirate.text() {
            Some(CreatureType::Pirate)
        } else if t == CreatureType::Plant.text() {
            Some(CreatureType::Plant)
        } else if t == CreatureType::Praetor.text() {
            Some(CreatureType::Praetor)
        } else if t == CreatureType::Prism.text() {
            Some(CreatureType::Prism)
        } else if t == CreatureType::Processor.text() {
            Some(CreatureType::Processor)
        } else if t == CreatureType::Rabbit.text() {
            Some(CreatureType::Rabbit)
        } else if t == CreatureType::Rat.text() {
            Some(CreatureType::Rat)
        } else if t == CreatureType::Rebel.text() {
            Some(CreatureType::Rebel)
        } else if t == CreatureType::Reflection.text() {
            Some(CreatureType::Reflection)
        } else if t == CreatureType::Rhino.text() {
            Some(CreatureType::Rhino)
        } else if t == CreatureType::Rigger.text() {
            Some(CreatureType::Rigger)
        } else if t == CreatureType::Rogue.text() {
            Some(CreatureType::Rogue)
        } else if t == CreatureType::Sable.text() {
            Some(CreatureType::Sable)
        } else if t == CreatureType::Salamander.text() {
            Some(CreatureType::Salamander)
        } else if t == CreatureType::Samurai.text() {
            Some(CreatureType::Samurai)
        } else if t == CreatureType::Sand.text() {
            Some(CreatureType::Sand)
        } else if t == CreatureType::Saproling.text() {
            Some(CreatureType::Saproling)
        } else if t == CreatureType::Satyr.text() {
            Some(CreatureType::Satyr)
        } else if t == CreatureType::Scarecrow.text() {
            Some(CreatureType::Scarecrow)
        } else if t == CreatureType::Scion.text() {
            Some(CreatureType::Scion)
        } else if t == CreatureType::Scorpion.text() {
            Some(CreatureType::Scorpion)
        } else if t == CreatureType::Scout.text() {
            Some(CreatureType::Scout)
        } else if t == CreatureType::Serf.text() {
            Some(CreatureType::Serf)
        } else if t == CreatureType::Serpent.text() {
            Some(CreatureType::Serpent)
        } else if t == CreatureType::Servo.text() {
            Some(CreatureType::Servo)
        } else if t == CreatureType::Shade.text() {
            Some(CreatureType::Shade)
        } else if t == CreatureType::Shaman.text() {
            Some(CreatureType::Shaman)
        } else if t == CreatureType::Shapeshifter.text() {
            Some(CreatureType::Shapeshifter)
        } else if t == CreatureType::Sheep.text() {
            Some(CreatureType::Sheep)
        } else if t == CreatureType::Siren.text() {
            Some(CreatureType::Siren)
        } else if t == CreatureType::Skeleton.text() {
            Some(CreatureType::Skeleton)
        } else if t == CreatureType::Slith.text() {
            Some(CreatureType::Slith)
        } else if t == CreatureType::Sliver.text() {
            Some(CreatureType::Sliver)
        } else if t == CreatureType::Slug.text() {
            Some(CreatureType::Slug)
        } else if t == CreatureType::Snake.text() {
            Some(CreatureType::Snake)
        } else if t == CreatureType::Soldier.text() {
            Some(CreatureType::Soldier)
        } else if t == CreatureType::Soltari.text() {
            Some(CreatureType::Soltari)
        } else if t == CreatureType::Spawn.text() {
            Some(CreatureType::Spawn)
        } else if t == CreatureType::Specter.text() {
            Some(CreatureType::Specter)
        } else if t == CreatureType::Spellshaper.text() {
            Some(CreatureType::Spellshaper)
        } else if t == CreatureType::Sphinx.text() {
            Some(CreatureType::Sphinx)
        } else if t == CreatureType::Spider.text() {
            Some(CreatureType::Spider)
        } else if t == CreatureType::Spike.text() {
            Some(CreatureType::Spike)
        } else if t == CreatureType::Spirit.text() {
            Some(CreatureType::Spirit)
        } else if t == CreatureType::Splinter.text() {
            Some(CreatureType::Splinter)
        } else if t == CreatureType::Sponge.text() {
            Some(CreatureType::Sponge)
        } else if t == CreatureType::Squid.text() {
            Some(CreatureType::Squid)
        } else if t == CreatureType::Squirrel.text() {
            Some(CreatureType::Squirrel)
        } else if t == CreatureType::Starfish.text() {
            Some(CreatureType::Starfish)
        } else if t == CreatureType::Surrakar.text() {
            Some(CreatureType::Surrakar)
        } else if t == CreatureType::Survivor.text() {
            Some(CreatureType::Survivor)
        } else if t == CreatureType::Tetravite.text() {
            Some(CreatureType::Tetravite)
        } else if t == CreatureType::Thalakos.text() {
            Some(CreatureType::Thalakos)
        } else if t == CreatureType::Thopter.text() {
            Some(CreatureType::Thopter)
        } else if t == CreatureType::Thrull.text() {
            Some(CreatureType::Thrull)
        } else if t == CreatureType::Treefolk.text() {
            Some(CreatureType::Treefolk)
        } else if t == CreatureType::Trilobite.text() {
            Some(CreatureType::Trilobite)
        } else if t == CreatureType::Triskelavite.text() {
            Some(CreatureType::Triskelavite)
        } else if t == CreatureType::Troll.text() {
            Some(CreatureType::Troll)
        } else if t == CreatureType::Turtle.text() {
            Some(CreatureType::Turtle)
        } else if t == CreatureType::Unicorn.text() {
            Some(CreatureType::Unicorn)
        } else if t == CreatureType::Vampire.text() {
            Some(CreatureType::Vampire)
        } else if t == CreatureType::Vedalken.text() {
            Some(CreatureType::Vedalken)
        } else if t == CreatureType::Viashino.text() {
            Some(CreatureType::Viashino)
        } else if t == CreatureType::Volver.text() {
            Some(CreatureType::Volver)
        } else if t == CreatureType::Wall.text() {
            Some(CreatureType::Wall)
        } else if t == CreatureType::Warrior.text() {
            Some(CreatureType::Warrior)
        } else if t == CreatureType::Weird.text() {
            Some(CreatureType::Weird)
        } else if t == CreatureType::Werewolf.text() {
            Some(CreatureType::Werewolf)
        } else if t == CreatureType::Whale.text() {
            Some(CreatureType::Whale)
        } else if t == CreatureType::Wizard.text() {
            Some(CreatureType::Wizard)
        } else if t == CreatureType::Wolf.text() {
            Some(CreatureType::Wolf)
        } else if t == CreatureType::Wolverine.text() {
            Some(CreatureType::Wolverine)
        } else if t == CreatureType::Wombat.text() {
            Some(CreatureType::Wombat)
        } else if t == CreatureType::Worm.text() {
            Some(CreatureType::Worm)
        } else if t == CreatureType::Wraith.text() {
            Some(CreatureType::Wraith)
        } else if t == CreatureType::Wurm.text() {
            Some(CreatureType::Wurm)
        } else if t == CreatureType::Yeti.text() {
            Some(CreatureType::Yeti)
        } else if t == CreatureType::Zombie.text() {
            Some(CreatureType::Zombie)
        } else if t == CreatureType::Zubera.text() {
            Some(CreatureType::Zubera)
        } else {
            None
        }
    }

    pub fn name(self) -> (r: &'static str)
        ensures
            r@ == self.text(),
    {
        proof {
            reveal(CreatureType::text);
        }
        match self {
            CreatureType::Advisor => "Advisor",
            CreatureType::Aetherborn => "Aetherborn",
            CreatureType::Ally => "Ally",
            CreatureType::Angel => "Angel",
            CreatureType::Antelope => "Antelope",
            CreatureType::Ape => "Ape",
            CreatureType::Archer => "Archer",
            CreatureType::Archon => "Archon",
            CreatureType::Artificer => "Artificer",
            CreatureType::Assassin => "Assassin",
            CreatureType::AssemblyWorker => "Assembly-Worker",
            CreatureType::Atog => "Atog",
            CreatureType::Aurochs => "Aurochs",
            CreatureType::Avatar => "Avatar",
            CreatureType::Azra => "Azra",
            CreatureType::Badger => "Badger",
            CreatureType::Barbarian => "Barbarian",
            CreatureType::Basilisk => "Basilisk",
            CreatureType::Bat => "Bat",
            CreatureType::Bear => "Bear",
            CreatureType::Beast => "Beast",
            CreatureType::Beeble => "Beeble",
            CreatureType::Berserker => "Berserker",
            CreatureType::Bird => "Bird",
            CreatureType::Blinkmoth => "Blinkmoth",
            CreatureType::Boar => "Boar",
            CreatureType::Bringer => "Bringer",
            CreatureType::Brushwagg => "Brushwagg",
            CreatureType::Camarid => "Camarid",
            CreatureType::Camel => "Camel",
            CreatureType::Caribou => "Caribou",
            CreatureType::Carrier => "Carrier",
            CreatureType::Cat => "Cat",
            CreatureType::Centaur => "Centaur",
            CreatureType::Cephalid => "Cephalid",
            CreatureType::Chimera => "Chimera",
            CreatureType::Citizen => "Citizen",
            CreatureType::Cleric => "Cleric",
            CreatureType::Cockatrice => "Cockatrice",
            CreatureType::Construct => "Construct",
            CreatureType::Coward => "Coward",
            CreatureType::Crab => "Crab",
            CreatureType::Crocodile => "Crocodile",
            CreatureType::Cyclops => "Cyclops",
            CreatureType::Dauthi => "Dauthi",
            CreatureType::Demon => "Demon",
            CreatureType::Deserter => "Deserter",
            CreatureType::Devil => "Devil",
            CreatureType::Dinosaur => "Dinosaur",
            CreatureType::Djinn => "Djinn",
            CreatureType::Dragon => "Dragon",
            CreatureType::Drake => "Drake",
            CreatureType::Dreadnought => "Dreadnought",
            CreatureType::Drone => "Drone",
            CreatureType::Druid => "Druid",
            CreatureType::Dryad => "Dryad",
            CreatureType::Dwarf => "Dwarf",
            CreatureType::Efreet => "Efreet",
            CreatureType::Egg => "Egg",
            CreatureType::Elder => "Elder",
            CreatureType::Eldrazi => "Eldrazi",
            CreatureType::Elemental => "Elemental",
            CreatureType::Elephant => "Elephant",
            CreatureType::Elf => "Elf",
            CreatureType::Elk => "Elk",
            CreatureType::Eye => "Eye",
            CreatureType::Faerie => "Faerie",
            CreatureType::Ferret => "Ferret",
            CreatureType::Fish => "Fish",
            CreatureType::Flagbearer => "Flagbearer",
            CreatureType::Fox => "Fox",
            CreatureType::Frog => "Frog",
            CreatureType::Fungus => "Fungus",
            CreatureType::Gargoyle => "Gargoyle",
            CreatureType::Germ => "Germ",
            CreatureType::Giant => "Giant",
            CreatureType::Gnome => "Gnome",
            CreatureType::Goat => "Goat",
            CreatureType::Goblin => "Goblin",
            CreatureType::God => "God",
            CreatureType::Golem => "Golem",
            CreatureType::Gorgon => "Gorgon",
            CreatureType::Graveborn => "Graveborn",
            CreatureType::Gremlin => "Gremlin",
            CreatureType::Griffin => "Griffin",
            CreatureType::Hag => "Hag",
            CreatureType::Harpy => "Harpy",
            CreatureType::Hellion => "Hellion",
            CreatureType::Hippo => "Hippo",
            CreatureType::Hippogriff => "Hippogriff",
            CreatureType::Homarid => "Homarid",
            CreatureType::Homunculus => "Homunculus",
            CreatureType::Horror => "Horror",
            CreatureType::Horse => "Horse",
            CreatureType::Hound => "Hound",
            CreatureType::Human => "Human",
            CreatureType::Hydra => "Hydra",
            CreatureType::Hyena => "Hyena",
            CreatureType::Illusion => "Illusion",
            CreatureType::Imp => "Imp",
            CreatureType::Incarnation => "Incarnation",
            CreatureType::Insect => "Insect",
            CreatureType::Jackal => "Jackal",
            CreatureType::Jellyfish => "Jellyfish",
            CreatureType::Juggernaut => "Juggernaut",
            CreatureType::Kavu => "Kavu",
            CreatureType::Kirin => "Kirin",
            CreatureType::Kithkin => "Kithkin",
            CreatureType::Knight => "Knight",
            CreatureType::Kobold => "Kobold",
            CreatureType::Kor => "Kor",
            CreatureType::Kraken => "Kraken",
            CreatureType::Lamia => "Lamia",
            CreatureType::Lammasu => "Lammasu",
            CreatureType::Leech => "Leech",
            CreatureType::Leviathan => "Leviathan",
            CreatureType::Lhurgoyf => "Lhurgoyf",
            CreatureType::Licid => "Licid",
            CreatureType::Lizard => "Lizard",
            CreatureType::Manticore => "Manticore",
            CreatureType::Masticore => "Masticore",
            CreatureType::Mercenary => "Mercenary",
            CreatureType::Merfolk => "Merfolk",
            CreatureType::Metathran => "Metathran",
            CreatureType::Minion => "Minion",
            CreatureType::Minotaur => "Minotaur",
            CreatureType::Mole => "Mole",
            CreatureType::Monger => "Monger",
            CreatureType::Mongoose => "Mongoose",
            CreatureType::Monk => "Monk",
            CreatureType::Monkey => "Monkey",
            CreatureType::Moonfolk => "Moonfolk",
            CreatureType::Mutant => "Mutant",
            CreatureType::Myr => "Myr",
            CreatureType::Mystic => "Mystic",
            CreatureType::Naga => "Naga",
            CreatureType::Nautilus => "Nautilus",
            CreatureType::Nephilim => "Nephilim",
            CreatureType::Nightmare => "Nightmare",
            CreatureType::Nightstalker => "Nightstalker",
            CreatureType::Ninja => "Ninja",
            CreatureType::Noggle => "Noggle",
            CreatureType::Nomad => "Nomad",
            CreatureType::Nymph => "Nymph",
            CreatureType::Octopus => "Octopus",
            CreatureType::Ogre => "Ogre",
            CreatureType::Ooze => "Ooze",
            CreatureType::Orb => "Orb",
            CreatureType::Orc => "Orc",
            CreatureType::Orgg => "Orgg",
            CreatureType::Ouphe => "Ouphe",
            CreatureType::Ox => "Ox",
            CreatureType::Oyster => "Oyster",
            CreatureType::Pangolin => "Pangolin",
            CreatureType::Pegasus => "Pegasus",
            CreatureType::Pentavite => "Pentavite",
            CreatureType::Pest => "Pest",
            CreatureType::Phelddagrif => "Phelddagrif",
            CreatureType::Phoenix => "Phoenix",
            CreatureType::Pilot => "Pilot",
            CreatureType::Pincher => "Pincher",
            CreatureType::Pirate => "Pirate",
            CreatureType::Plant => "Plant",
            CreatureType::Praetor => "Praetor",
            CreatureType::Prism => "Prism",
            CreatureType::Processor => "Processor",
            CreatureType::Rabbit => "Rabbit",
            CreatureType::Rat => "Rat",
            CreatureType::Rebel => "Rebel",
            CreatureType::Reflection => "Reflection",
            CreatureType::Rhino => "Rhino",
            CreatureType::Rigger => "Rigger",
            CreatureType::Rogue => "Rogue",
            CreatureType::Sable => "Sable",
            CreatureType::Salamander => "Salamander",
            CreatureType::Samurai => "Samurai",
            CreatureType::Sand => "Sand",
            CreatureType::Saproling => "Saproling",
            CreatureType::Satyr => "Satyr",
            CreatureType::Scarecrow => "Scarecrow",
            CreatureType::Scion => "Scion",
            CreatureType::Scorpion => "Scorpion",
            CreatureType::Scout => "Scout",
            CreatureType::Serf => "Serf",
            CreatureType::Serpent => "Serpent",
            CreatureType::Servo => "Servo",
            CreatureType::Shade => "Shade",
            CreatureType::Shaman => "Shaman",
            CreatureType::Shapeshifter => "Shapeshifter",
            CreatureType::Sheep => "Sheep",
            CreatureType::Siren => "Siren",
            CreatureType::Skeleton => "Skeleton",
            CreatureType::Slith => "Slith",
            CreatureType::Sliver => "Sliver",
            CreatureType::Slug => "Slug",
            CreatureType::Snake => "Snake",
            CreatureType::Soldier => "Soldier",
            CreatureType::Soltari => "Soltari",
            CreatureType::Spawn => "Spawn",
            CreatureType::Specter => "Specter",
            CreatureType::Spellshaper => "Spellshaper",
            CreatureType::Sphinx => "Sphinx",
            CreatureType::Spider => "Spider",
            CreatureType::Spike => "Spike",
            CreatureType::Spirit => "Spirit",
            CreatureType::Splinter => "Splinter",
            CreatureType::Sponge => "Sponge",
            CreatureType::Squid => "Squid",
            CreatureType::Squirrel => "Squirrel",
            CreatureType::Starfish => "Starfish",
            CreatureType::Surrakar => "Surrakar",
            CreatureType::Survivor => "Survivor",
            CreatureType::Tetravite => "Tetravite",
            CreatureType::Thalakos => "Thalakos",
            CreatureType::Thopter => "Thopter",
            CreatureType::Thrull => "Thrull",
            CreatureType::Treefolk => "Treefolk",
            CreatureType::Trilobite => "Trilobite",
            CreatureType::Triskelavite => "Triskelavite",
            CreatureType::Troll => "Troll",
            CreatureType::Turtle => "Turtle",
            CreatureType::Unicorn => "Unicorn",
            CreatureType::Vampire => "Vampire",
            CreatureType::Vedalken => "Vedalken",
            CreatureType::Viashino => "Viashino",
            CreatureType::Volver => "Volver",
            CreatureType::Wall => "Wall",
            CreatureType::Warrior => "Warrior",
            CreatureType::Weird => "Weird",
            CreatureType::Werewolf => "Werewolf",
            CreatureType::Whale => "Whale",
            CreatureType::Wizard => "Wizard",
            CreatureType::Wolf => "Wolf",
            CreatureType::Wolverine => "Wolverine",
            CreatureType::Wombat => "Wombat",
            CreatureType::Worm => "Worm",
            CreatureType::Wraith => "Wraith",
            CreatureType::Wurm => "Wurm",
            CreatureType::Yeti => "Yeti",
            CreatureType::Zombie => "Zombie",
            CreatureType::Zubera => "Zubera",
        }
    }

    pub fn to_string(self) -> (r: String)
        ensures
            r@ == self.text(),
    {
        String::from_str(self.name())
    }

    /// The value named by `t[lo..hi]`.
    #[verifier::rlimit(100)]
    pub fn parse_range(t: &Vec<char>, lo: usize, hi: usize) -> (r: Option<CreatureType>)
        requires
            lo <= hi <= t@.len(),
        ensures
            r == CreatureType::from_text(t@.subrange(lo as int, hi as int)),
    {
        proof {
            reveal(CreatureType::from_text);
        }
        if matches_text(t, lo, hi, CreatureType::Advisor.name()) {
            return Some(CreatureType::Advisor);
        }
        if matches_text(t, lo, hi, CreatureType::Aetherborn.name()) {
            return Some(CreatureType::Aetherborn);
        }
        if matches_text(t, lo, hi, CreatureType::Ally.name()) {
            return Some(CreatureType::Ally);
        }
        if matches_text(t, lo, hi, CreatureType::Angel.name()) {
            return Some(CreatureType::Angel);
        }
        if matches_text(t, lo, hi, CreatureType::Antelope.name()) {
            return Some(CreatureType::Antelope);
        }
        if matches_text(t, lo, hi, CreatureType::Ape.name()) {
            return Some(CreatureType::Ape);
        }
        if matches_text(t, lo, hi, CreatureType::Archer.name()) {
            return Some(CreatureType::Archer);
        }
        if matches_text(t, lo, hi, CreatureType::Archon.name()) {
            return Some(CreatureType::Archon);
        }
        if matches_text(t, lo, hi, CreatureType::Artificer.name()) {
            return Some(CreatureType::Artificer);
        }
        if matches_text(t, lo, hi, CreatureType::Assassin.name()) {
            return Some(CreatureType::Assassin);
        }
        if matches_text(t, lo, hi, CreatureType::AssemblyWorker.name()) {
            return Some(CreatureType::AssemblyWorker);
        }
        if matches_text(t, lo, hi, CreatureType::Atog.name()) {
            return Some(CreatureType::Atog);
        }
        if matches_text(t, lo, hi, CreatureType::Aurochs.name()) {
            return Some(CreatureType::Aurochs);
        }
        if matches_text(t, lo, hi, CreatureType::Avatar.name()) {
            return Some(CreatureType::Avatar);
        }
        if matches_text(t, lo, hi, CreatureType::Azra.name()) {
            return Some(CreatureType::Azra);
        }
        if matches_text(t, lo, hi, CreatureType::Badger.name()) {
            return Some(CreatureType::Badger);
        }
        if matches_text(t, lo, hi, CreatureType::Barbarian.name()) {
            return Some(CreatureType::Barbarian);
        }
        if matches_text(t, lo, hi, CreatureType::Basilisk.name()) {
            return Some(CreatureType::Basilisk);
        }
        if matches_text(t, lo, hi, CreatureType::Bat.name()) {
            return Some(CreatureType::Bat);
        }
        if matches_text(t, lo, hi, CreatureType::Bear.name()) {
            return Some(CreatureType::Bear);
        }
        if matches_text(t, lo, hi, CreatureType::Beast.name()) {
            return Some(CreatureType::Beast);
        }
        if matches_text(t, lo, hi, CreatureType::Beeble.name()) {
            return Some(CreatureType::Beeble);
        }
        if matches_text(t, lo, hi, CreatureType::Berserker.name()) {
            return Some(CreatureType::Berserker);
        }
        if matches_text(t, lo, hi, CreatureType::Bird.name()) {
            return Some(CreatureType::Bird);
        }
        if matches_text(t, lo, hi, CreatureType::Blinkmoth.name()) {
            return Some(CreatureType::Blinkmoth);
        }
        if matches_text(t, lo, hi, CreatureType::Boar.name()) {
            return Some(CreatureType::Boar);
        }
        if matches_text(t, lo, hi, CreatureType::Bringer.name()) {
            return Some(CreatureType::Bringer);
        }
        if matches_text(t, lo, hi, CreatureType::Brushwagg.name()) {
            return Some(CreatureType::Brushwagg);
        }
        if matches_text(t, lo, hi, CreatureType::Camarid.name()) {
            return Some(CreatureType::Camarid);
        }
        if matches_text(t, lo, hi, CreatureType::Camel.name()) {
            return Some(CreatureType::Camel);
        }
        if matches_text(t, lo, hi, CreatureType::Caribou.name()) {
            return Some(CreatureType::Caribou);
        }
        if matches_text(t, lo, hi, CreatureType::Carrier.name()) {
            return Some(CreatureType::Carrier);
        }
        if matches_text(t, lo, hi, CreatureType::Cat.name()) {
            return Some(CreatureType::Cat);
        }
        if matches_text(t, lo, hi, CreatureType::Centaur.name()) {
            return Some(CreatureType::Centaur);
        }
        if matches_text(t, lo, hi, CreatureType::Cephalid.name()) {
            return Some(CreatureType::Cephalid);
        }
        if matches_text(t, lo, hi, CreatureType::Chimera.name()) {
            return Some(CreatureType::Chimera);
        }
        if matches_text(t, lo, hi, CreatureType::Citizen.name()) {
            return Some(CreatureType::Citizen);
        }
        if matches_text(t, lo, hi, CreatureType::Cleric.name()) {
            return Some(CreatureType::Cleric);
        }
        if matches_text(t, lo, hi, CreatureType::Cockatrice.name()) {
            return Some(CreatureType::Cockatrice);
        }
        if matches_text(t, lo, hi, CreatureType::Construct.name()) {
            return Some(CreatureType::Construct);
        }
        if matches_text(t, lo, hi, CreatureType::Coward.name()) {
            return Some(CreatureType::Coward);
        }
        if matches_text(t, lo, hi, CreatureType::Crab.name()) {
            return Some(CreatureType::Crab);
        }
        if matches_text(t, lo, hi, CreatureType::Crocodile.name()) {
            return Some(CreatureType::Crocodile);
        }
        if matches_text(t, lo, hi, CreatureType::Cyclops.name()) {
            return Some(CreatureType::Cyclops);
        }
        if matches_text(t, lo, hi, CreatureType::Dauthi.name()) {
            return Some(CreatureType::Dauthi);
        }
        if matches_text(t, lo, hi, CreatureType::Demon.name()) {
            return Some(CreatureType::Demon);
        }
        if matches_text(t, lo, hi, CreatureType::Deserter.name()) {
            return Some(CreatureType::Deserter);
        }
        if matches_text(t, lo, hi, CreatureType::Devil.name()) {
            return Some(CreatureType::Devil);
        }
        if matches_text(t, lo, hi, CreatureType::Dinosaur.name()) {
            return Some(CreatureType::Dinosaur);
        }
        if matches_text(t, lo, hi, CreatureType::Djinn.name()) {
            return Some(CreatureType::Djinn);
        }
        if matches_text(t, lo, hi, CreatureType::Dragon.name()) {
            return Some(CreatureType::Dragon);
        }
        if matches_text(t, lo, hi, CreatureType::Drake.name()) {
            return Some(CreatureType::Drake);
        }
        if matches_text(t, lo, hi, CreatureType::Dreadnought.name()) {
            return Some(CreatureType::Dreadnought);
        }
        if matches_text(t, lo, hi, CreatureType::Drone.name()) {
            return Some(CreatureType::Drone);
        }
        if matches_text(t, lo, hi, CreatureType::Druid.name()) {
            return Some(CreatureType::Druid);
        }
        if matches_text(t, lo, hi, CreatureType::Dryad.name()) {
            return Some(CreatureType::Dryad);
        }
        if matches_text(t, lo, hi, CreatureType::Dwarf.name()) {
            return Some(CreatureType::Dwarf);
        }
        if matches_text(t, lo, hi, CreatureType::Efreet.name()) {
            return Some(CreatureType::Efreet);
        }
        if matches_text(t, lo, hi, CreatureType::Egg.name()) {
            return Some(CreatureType::Egg);
        }
        if matches_text(t, lo, hi, CreatureType::Elder.name()) {
            return Some(CreatureType::Elder);
        }
        if matches_text(t, lo, hi, CreatureType::Eldrazi.name()) {
            return Some(CreatureType::Eldrazi);
        }
        if matches_text(t, lo, hi, CreatureType::Elemental.name()) {
            return Some(CreatureType::Elemental);
        }
        if matches_text(t, lo, hi, CreatureType::Elephant.name()) {
            return Some(CreatureType::Elephant);
        }
        if matches_text(t, lo, hi, CreatureType::Elf.name()) {
            return Some(CreatureType::Elf);
        }
        if matches_text(t, lo, hi, CreatureType::Elk.name()) {
            return Some(CreatureType::Elk);
        }
        if matches_text(t, lo, hi, CreatureType::Eye.name()) {
            return Some(CreatureType::Eye);
        }
        if matches_text(t, lo, hi, CreatureType::Faerie.name()) {
            return Some(CreatureType::Faerie);
        }
        if matches_text(t, lo, hi, CreatureType::Ferret.name()) {
            return Some(CreatureType::Ferret);
        }
        if matches_text(t, lo, hi, CreatureType::Fish.name()) {
            return Some(CreatureType::Fish);
        }
        if matches_text(t, lo, hi, CreatureType::Flagbearer.name()) {
            return Some(CreatureType::Flagbearer);
        }
        if matches_text(t, lo, hi, CreatureType::Fox.name()) {
            return Some(CreatureType::Fox);
        }
        if matches_text(t, lo, hi, CreatureType::Frog.name()) {
            return Some(CreatureType::Frog);
        }
        if matches_text(t, lo, hi, CreatureType::Fungus.name()) {
            return Some(CreatureType::Fungus);
        }
        if matches_text(t, lo, hi, CreatureType::Gargoyle.name()) {
            return Some(CreatureType::Gargoyle);
        }
        if matches_text(t, lo, hi, CreatureType::Germ.name()) {
            return Some(CreatureType::Germ);
        }
        if matches_text(t, lo, hi, CreatureType::Giant.name()) {
            return Some(CreatureType::Giant);
        }
        if matches_text(t, lo, hi, CreatureType::Gnome.name()) {
            return Some(CreatureType::Gnome);
        }
        if matches_text(t, lo, hi, CreatureType::Goat.name()) {
            return Some(CreatureType::Goat);
        }
        if matches_text(t, lo, hi, CreatureType::Goblin.name()) {
            return Some(CreatureType::Goblin);
        }
        if matches_text(t, lo, hi, CreatureType::God.name()) {
            return Some(CreatureType::God);
        }
        if matches_text(t, lo, hi, CreatureType::Golem.name()) {
            return Some(CreatureType::Golem);
        }
        if matches_text(t, lo, hi, CreatureType::Gorgon.name()) {
            return Some(CreatureType::Gorgon);
        }
        if matches_text(t, lo, hi, CreatureType::Graveborn.name()) {
            return Some(CreatureType::Graveborn);
        }
        if matches_text(t, lo, hi, CreatureType::Gremlin.name()) {
            return Some(CreatureType::Gremlin);
        }
        if matches_text(t, lo, hi, CreatureType::Griffin.name()) {
            return Some(CreatureType::Griffin);
        }
        if matches_text(t, lo, hi, CreatureType::Hag.name()) {
            return Some(CreatureType::Hag);
        }
        if matches_text(t, lo, hi, CreatureType::Harpy.name()) {
            return Some(CreatureType::Harpy);
        }
        if matches_text(t, lo, hi, CreatureType::Hellion.name()) {
            return Some(CreatureType::Hellion);
        }
        if matches_text(t, lo, hi, CreatureType::Hippo.name()) {
            return Some(CreatureType::Hippo);
        }
        if matches_text(t, lo, hi, CreatureType::Hippogriff.name()) {
            return Some(CreatureType::Hippogriff);
        }
        if matches_text(t, lo, hi, CreatureType::Homarid.name()) {
            return Some(CreatureType::Homarid);
        }
        if matches_text(t, lo, hi, CreatureType::Homunculus.name()) {
            return Some(CreatureType::Homunculus);
        }
        if matches_text(t, lo, hi, CreatureType::Horror.name()) {
            return Some(CreatureType::Horror);
        }
        if matches_text(t, lo, hi, CreatureType::Horse.name()) {
            return Some(CreatureType::Horse);
        }
        if matches_text(t, lo, hi, CreatureType::Hound.name()) {
            return Some(CreatureType::Hound);
        }
        if matches_text(t, lo, hi, CreatureType::Human.name()) {
            return Some(CreatureType::Human);
        }
        if matches_text(t, lo, hi, CreatureType::Hydra.name()) {
            return Some(CreatureType::Hydra);
        }
        if matches_text(t, lo, hi, CreatureType::Hyena.name()) {
            return Some(CreatureType::Hyena);
        }
        if matches_text(t, lo, hi, CreatureType::Illusion.name()) {
            return Some(CreatureType::Illusion);
        }
        if matches_text(t, lo, hi, CreatureType::Imp.name()) {
            return Some(CreatureType::Imp);
        }
        if matches_text(t, lo, hi, CreatureType::Incarnation.name()) {
            return Some(CreatureType::Incarnation);
        }
        if matches_text(t, lo, hi, CreatureType::Insect.name()) {
            return Some(CreatureType::Insect);
        }
        if matches_text(t, lo, hi, CreatureType::Jackal.name()) {
            return Some(CreatureType::Jackal);
        }
        if matches_text(t, lo, hi, CreatureType::Jellyfish.name()) {
            return Some(CreatureType::Jellyfish);
        }
        if matches_text(t, lo, hi, CreatureType::Juggernaut.name()) {
            return Some(CreatureType::Juggernaut);
        }
        if matches_text(t, lo, hi, CreatureType::Kavu.name()) {
            return Some(CreatureType::Kavu);
        }
        if matches_text(t, lo, hi, CreatureType::Kirin.name()) {
            return Some(CreatureType::Kirin);
        }
        if matches_text(t, lo, hi, CreatureType::Kithkin.name()) {
            return Some(CreatureType::Kithkin);
        }
        if matches_text(t, lo, hi, CreatureType::Knight.name()) {
            return Some(CreatureType::Knight);
        }
        if matches_text(t, lo, hi, CreatureType::Kobold.name()) {
            return Some(CreatureType::Kobold);
        }
        if matches_text(t, lo, hi, CreatureType::Kor.name()) {
            return Some(CreatureType::Kor);
        }
        if matches_text(t, lo, hi, CreatureType::Kraken.name()) {
            return Some(CreatureType::Kraken);
        }
        if matches_text(t, lo, hi, CreatureType::Lamia.name()) {
            return Some(CreatureType::Lamia);
        }
        if matches_text(t, lo, hi, CreatureType::Lammasu.name()) {
            return Some(CreatureType::Lammasu);
        }
        if matches_text(t, lo, hi, CreatureType::Leech.name()) {
            return Some(CreatureType::Leech);
        }
        if matches_text(t, lo, hi, CreatureType::Leviathan.name()) {
            return Some(CreatureType::Leviathan);
        }
        if matches_text(t, lo, hi, CreatureType::Lhurgoyf.name()) {
            return Some(CreatureType::Lhurgoyf);
        }
        if matches_text(t, lo, hi, CreatureType::Licid.name()) {
            return Some(CreatureType::Licid);
        }
        if matches_text(t, lo, hi, CreatureType::Lizard.name()) {
            return Some(CreatureType::Lizard);
        }
        if matches_text(t, lo, hi, CreatureType::Manticore.name()) {
            return Some(CreatureType::Manticore);
        }
        if matches_text(t, lo, hi, CreatureType::Masticore.name()) {
            return Some(CreatureType::Masticore);
        }
        if matches_text(t, lo, hi, CreatureType::Mercenary.name()) {
            return Some(CreatureType::Mercenary);
        }
        if matches_text(t, lo, hi, CreatureType::Merfolk.name()) {
            return Some(CreatureType::Merfolk);
        }
        if matches_text(t, lo, hi, CreatureType::Metathran.name()) {
            return Some(CreatureType::Metathran);
        }
        if matches_text(t, lo, hi, CreatureType::Minion.name()) {
            return Some(CreatureType::Minion);
        }
        if matches_text(t, lo, hi, CreatureType::Minotaur.name()) {
            return Some(CreatureType::Minotaur);
        }
        if matches_text(t, lo, hi, CreatureType::Mole.name()) {
            return Some(CreatureType::Mole);
        }
        if matches_text(t, lo, hi, CreatureType::Monger.name()) {
            return Some(CreatureType::Monger);
        }
        if matches_text(t, lo, hi, CreatureType::Mongoose.name()) {
            return Some(CreatureType::Mongoose);
        }
        if matches_text(t, lo, hi, CreatureType::Monk.name()) {
            return Some(CreatureType::Monk);
        }
        if matches_text(t, lo, hi, CreatureType::Monkey.name()) {
            return Some(CreatureType::Monkey);
        }
        if matches_text(t, lo, hi, CreatureType::Moonfolk.name()) {
            return Some(CreatureType::Moonfolk);
        }
        if matches_text(t, lo, hi, CreatureType::Mutant.name()) {
            return Some(CreatureType::Mutant);
        }
        if matches_text(t, lo, hi, CreatureType::Myr.name()) {
            return Some(CreatureType::Myr);
        }
        if matches_text(t, lo, hi, CreatureType::Mystic.name()) {
            return Some(CreatureType::Mystic);
        }
        if matches_text(t, lo, hi, CreatureType::Naga.name()) {
            return Some(CreatureType::Naga);
        }
        if matches_text(t, lo, hi, CreatureType::Nautilus.name()) {
            return Some(CreatureType::Nautilus);
        }
        if matches_text(t, lo, hi, CreatureType::Nephilim.name()) {
            return Some(CreatureType::Nephilim);
        }
        if matches_text(t, lo, hi, CreatureType::Nightmare.name()) {
            return Some(CreatureType::Nightmare);
        }
        if matches_text(t, lo, hi, CreatureType::Nightstalker.name()) {
            return Some(CreatureType::Nightstalker);
        }
        if matches_text(t, lo, hi, CreatureType::Ninja.name()) {
            return Some(CreatureType::Ninja);
        }
        if matches_text(t, lo, hi, CreatureType::Noggle.name()) {
            return Some(CreatureType::Noggle);
        }
        if matches_text(t, lo, hi, CreatureType::Nomad.name()) {
            return Some(CreatureType::Nomad);
        }
        if matches_text(t, lo, hi, CreatureType::Nymph.name()) {
            return Some(CreatureType::Nymph);
        }
        if matches_text(t, lo, hi, CreatureType::Octopus.name()) {
            return Some(CreatureType::Octopus);
        }
        if matches_text(t, lo, hi, CreatureType::Ogre.name()) {
            return Some(CreatureType::Ogre);
        }
        if matches_text(t, lo, hi, CreatureType::Ooze.name()) {
            return Some(CreatureType::Ooze);
        }
        if matches_text(t, lo, hi, CreatureType::Orb.name()) {
            return Some(CreatureType::Orb);
        }
        if matches_text(t, lo, hi, CreatureType::Orc.name()) {
            return Some(CreatureType::Orc);
        }
        if matches_text(t, lo, hi, CreatureType::Orgg.name()) {
            return Some(CreatureType::Orgg);
        }
        if matches_text(t, lo, hi, CreatureType::Ouphe.name()) {
            return Some(CreatureType::Ouphe);
        }
        if matches_text(t, lo, hi, CreatureType::Ox.name()) {
            return Some(CreatureType::Ox);
        }
        if matches_text(t, lo, hi, CreatureType::Oyster.name()) {
            return Some(CreatureType::Oyster);
        }
        if matches_text(t, lo, hi, CreatureType::Pangolin.name()) {
            return Some(CreatureType::Pangolin);
        }
        if matches_text(t, lo, hi, CreatureType::Pegasus.name()) {
            return Some(CreatureType::Pegasus);
        }
        if matches_text(t, lo, hi, CreatureType::Pentavite.name()) {
            return Some(CreatureType::Pentavite);
        }
        if matches_text(t, lo, hi, CreatureType::Pest.name()) {
            return Some(CreatureType::Pest);
        }
        if matches_text(t, lo, hi, CreatureType::Phelddagrif.name()) {
            return Some(CreatureType::Phelddagrif);
        }
        if matches_text(t, lo, hi, CreatureType::Phoenix.name()) {
            return Some(CreatureType::Phoenix);
        }
        if matches_text(t, lo, hi, CreatureType::Pilot.name()) {
            return Some(CreatureType::Pilot);
        }
        if matches_text(t, lo, hi, CreatureType::Pincher.name()) {
            return Some(CreatureType::Pincher);
        }
        if matches_text(t, lo, hi, CreatureType::Pirate.name()) {
            return Some(CreatureType::Pirate);
        }
        if matches_text(t, lo, hi, CreatureType::Plant.name()) {
            return Some(CreatureType::Plant);
        }
        if matches_text(t, lo, hi, CreatureType::Praetor.name()) {
            return Some(CreatureType::Praetor);
        }
        if matches_text(t, lo, hi, CreatureType::Prism.name()) {
            return Some(CreatureType::Prism);
        }
        if matches_text(t, lo, hi, CreatureType::Processor.name()) {
            return Some(CreatureType::Processor);
        }
        if matches_text(t, lo, hi, CreatureType::Rabbit.name()) {
            return Some(CreatureType::Rabbit);
        }
        if matches_text(t, lo, hi, CreatureType::Rat.name()) {
            return Some(CreatureType::Rat);
        }
        if matches_text(t, lo, hi, CreatureType::Rebel.name()) {
            return Some(CreatureType::Rebel);
        }
        if matches_text(t, lo, hi, CreatureType::Reflection.name()) {
            return Some(CreatureType::Reflection);
        }
        if matches_text(t, lo, hi, CreatureType::Rhino.name()) {
            return Some(CreatureType::Rhino);
        }
        if matches_text(t, lo, hi, CreatureType::Rigger.name()) {
            return Some(CreatureType::Rigger);
        }
        if matches_text(t, lo, hi, CreatureType::Rogue.name()) {
            return Some(CreatureType::Rogue);
        }
        if matches_text(t, lo, hi, CreatureType::Sable.name()) {
            return Some(CreatureType::Sable);
        }
        if matches_text(t, lo, hi, CreatureType::Salamander.name()) {
            return Some(CreatureType::Salamander);
        }
        if matches_text(t, lo, hi, CreatureType::Samurai.name()) {
            return Some(CreatureType::Samurai);
        }
        if matches_text(t, lo, hi, CreatureType::Sand.name()) {
            return Some(CreatureType::Sand);
        }
        if matches_text(t, lo, hi, CreatureType::Saproling.name()) {
            return Some(CreatureType::Saproling);
        }
        if matches_text(t, lo, hi, CreatureType::Satyr.name()) {
            return Some(CreatureType::Satyr);
        }
        if matches_text(t, lo, hi, CreatureType::Scarecrow.name()) {
            return Some(CreatureType::Scarecrow);
        }
        if matches_text(t, lo, hi, CreatureType::Scion.name()) {
            return Some(CreatureType::Scion);
        }
        if matches_text(t, lo, hi, CreatureType::Scorpion.name()) {
            return Some(CreatureType::Scorpion);
        }
        if matches_text(t, lo, hi, CreatureType::Scout.name()) {
            return Some(CreatureType::Scout);
        }
        if matches_text(t, lo, hi, CreatureType::Serf.name()) {
            return Some(CreatureType::Serf);
        }
        if matches_text(t, lo, hi, CreatureType::Serpent.name()) {
            return Some(CreatureType::Serpent);
        }
        if matches_text(t, lo, hi, CreatureType::Servo.name()) {
            return Some(CreatureType::Servo);
        }
        if matches_text(t, lo, hi, CreatureType::Shade.name()) {
            return Some(CreatureType::Shade);
        }
        if matches_text(t, lo, hi, CreatureType::Shaman.name()) {
            return Some(CreatureType::Shaman);
        }
        if matches_text(t, lo, hi, CreatureType::Shapeshifter.name()) {
            return Some(CreatureType::Shapeshifter);
        }
        if matches_text(t, lo, hi, CreatureType::Sheep.name()) {
            return Some(CreatureType::Sheep);
        }
        if matches_text(t, lo, hi, CreatureType::Siren.name()) {
            return Some(CreatureType::Siren);
        }
        if matches_text(t, lo, hi, CreatureType::Skeleton.name()) {
            return Some(CreatureType::Skeleton);
        }
        if matches_text(t, lo, hi, CreatureType::Slith.name()) {
            return Some(CreatureType::Slith);
        }
        if matches_text(t, lo, hi, CreatureType::Sliver.name()) {
            return Some(CreatureType::Sliver);
        }
        if matches_text(t, lo, hi, CreatureType::Slug.name()) {
            return Some(CreatureType::Slug);
        }
        if matches_text(t, lo, hi, CreatureType::Snake.name()) {
            return Some(CreatureType::Snake);
        }
        if matches_text(t, lo, hi, CreatureType::Soldier.name()) {
            return Some(CreatureType::Soldier);
        }
        if matches_text(t, lo, hi, CreatureType::Soltari.name()) {
            return Some(CreatureType::Soltari);
        }
        if matches_text(t, lo, hi, CreatureType::Spawn.name()) {
            return Some(CreatureType::Spawn);
        }
        if matches_text(t, lo, hi, CreatureType::Specter.name()) {
            return Some(CreatureType::Specter);
        }
        if matches_text(t, lo, hi, CreatureType::Spellshaper.name()) {
            return Some(CreatureType::Spellshaper);
        }
        if matches_text(t, lo, hi, CreatureType::Sphinx.name()) {
            return Some(CreatureType::Sphinx);
        }
        if matches_text(t, lo, hi, CreatureType::Spider.name()) {
            return Some(CreatureType::Spider);
        }
        if matches_text(t, lo, hi, CreatureType::Spike.name()) {
            return Some(CreatureType::Spike);
        }
        if matches_text(t, lo, hi, CreatureType::Spirit.name()) {
            return Some(CreatureType::Spirit);
        }
        if matches_text(t, lo, hi, CreatureType::Splinter.name()) {
            return Some(CreatureType::Splinter);
        }
        if matches_text(t, lo, hi, CreatureType::Sponge.name()) {
            return Some(CreatureType::Sponge);
        }
        if matches_text(t, lo, hi, CreatureType::Squid.name()) {
            return Some(CreatureType::Squid);
        }
        if matches_text(t, lo, hi, CreatureType::Squirrel.name()) {
            return Some(CreatureType::Squirrel);
        }
        if matches_text(t, lo, hi, CreatureType::Starfish.name()) {
            return Some(CreatureType::Starfish);
        }
        if matches_text(t, lo, hi, CreatureType::Surrakar.name()) {
            return Some(CreatureType::Surrakar);
        }
        if matches_text(t, lo, hi, CreatureType::Survivor.name()) {
            return Some(CreatureType::Survivor);
        }
        if matches_text(t, lo, hi, CreatureType::Tetravite.name()) {
            return Some(CreatureType::Tetravite);
        }
        if matches_text(t, lo, hi, CreatureType::Thalakos.name()) {
            return Some(CreatureType::Thalakos);
        }
        if matches_text(t, lo, hi, CreatureType::Thopter.name()) {
            return Some(CreatureType::Thopter);
        }
        if matches_text(t, lo, hi, CreatureType::Thrull.name()) {
            return Some(CreatureType::Thrull);
        }
        if matches_text(t, lo, hi, CreatureType::Treefolk.name()) {
            return Some(CreatureType::Treefolk);
        }
        if matches_text(t, lo, hi, CreatureType::Trilobite.name()) {
            return Some(CreatureType::Trilobite);
        }
        if matches_text(t, lo, hi, CreatureType::Triskelavite.name()) {
            return Some(CreatureType::Triskelavite);
        }
        if matches_text(t, lo, hi, CreatureType::Troll.name()) {
            return Some(CreatureType::Troll);
        }
        if matches_text(t, lo, hi, CreatureType::Turtle.name()) {
            return Some(CreatureType::Turtle);
        }
        if matches_text(t, lo, hi, CreatureType::Unicorn.name()) {
            return Some(CreatureType::Unicorn);
        }
        if matches_text(t, lo, hi, CreatureType::Vampire.name()) {
            return Some(CreatureType::Vampire);
        }
        if matches_text(t, lo, hi, CreatureType::Vedalken.name()) {
            return Some(CreatureType::Vedalken);
        }
        if matches_text(t, lo, hi, CreatureType::Viashino.name()) {
            return Some(CreatureType::Viashino);
        }
        if matches_text(t, lo, hi, CreatureType::Volver.name()) {
            return Some(CreatureType::Volver);
        }
        if matches_text(t, lo, hi, CreatureType::Wall.name()) {
            return Some(CreatureType::Wall);
        }
        if matches_text(t, lo, hi, CreatureType::Warrior.name()) {
            return Some(CreatureType::Warrior);
        }
        if matches_text(t, lo, hi, CreatureType::Weird.name()) {
            return Some(CreatureType::Weird);
        }
        if matches_text(t, lo, hi, CreatureType::Werewolf.name()) {
            return Some(CreatureType::Werewolf);
        }
        if matches_text(t, lo, hi, CreatureType::Whale.name()) {
            return Some(CreatureType::Whale);
        }
        if matches_text(t, lo, hi, CreatureType::Wizard.name()) {
            return Some(CreatureType::Wizard);
        }
        if matches_text(t, lo, hi, CreatureType::Wolf.name()) {
            return Some(CreatureType::Wolf);
        }
        if matches_text(t, lo, hi, CreatureType::Wolverine.name()) {
            return Some(CreatureType::Wolverine);
        }
        if matches_text(t, lo, hi, CreatureType::Wombat.name()) {
            return Some(CreatureType::Wombat);
        }
        if matches_text(t, lo, hi, CreatureType::Worm.name()) {
            return Some(CreatureType::Worm);
        }
        if matches_text(t, lo, hi, CreatureType::Wraith.name()) {
            return Some(CreatureType::Wraith);
        }
        if matches_text(t, lo, hi, CreatureType::Wurm.name()) {
            return Some(CreatureType::Wurm);
        }
        if matches_text(t, lo, hi, CreatureType::Yeti.name()) {
            return Some(CreatureType::Yeti);
        }
        if matches_text(t, lo, hi, CreatureType::Zombie.name()) {
            return Some(CreatureType::Zombie);
        }
        if matches_text(t, lo, hi, CreatureType::Zubera.name()) {
            return Some(CreatureType::Zubera);
        }
        None
    }

    pub fn from_name(s: &str) -> (r: Option<CreatureType>)
        ensures
            r == CreatureType::from_text(s@),
    {
        let t = chars_of(s);
        assert(t@.subrange(0, t@.len() as int) =~= t@);
        CreatureType::parse_range(&t, 0, t.len())
    }
}

impl core::str::FromStr for CreatureType {
    type Err = UnknownName;

    fn from_str(s: &str) -> Result<CreatureType, UnknownName> {
        match CreatureType::from_name(s) {
            Some(v) => Ok(v),
            None => Err(UnknownName),
        }
    }
}

/// Plane subtypes.
#[derive(Debug, Clone, Copy, PartialEq, Eq, Hash, Structural)]
pub enum PlanarType {
    Alara,
    Arkhos,
    Azgol,
    Belenon,
    BolassMeditationRealm,
    Dominaria,
    Equilor,
    Ergamon,
    Fabacin,
    Innistrad,
    Iquatana,
    Ir,
    Kaldheim,
    Kamigawa,
    Karsus,
    Kephalai,
    Kinshala,
    Kolbahan,
    Kyneth,
    Lorwyn,
    Luvion,
    Mercadia,
    Mirrodin,
    Moag,
    Mongseng,
    Muraganda,
    NewPhyrexia,
    Phyrexia,
    Pyrulea,
    Rabiah,
    Rath,
    Ravnica,
    Regatha,
    Segovia,
    SerrasRealm,
    Shadowmoor,
    Shandalar,
    Ulgrotha,
    Valla,
    Vryn,
    Wildfire,
    Xerex,
    Zendikar,
}

impl PlanarType {
    /// The name as printed on a card.
    #[verifier::opaque]
    pub open spec fn text(self) -> Seq<char> {
        match self {
            PlanarType::Alara => "Alara"@,
            PlanarType::Arkhos => "Arkhos"@,
            PlanarType::Azgol => "Azgol"@,
            PlanarType::Belenon => "Belenon"@,
            PlanarType::BolassMeditationRealm => "Bolas's Meditation Realm"@,
            PlanarType::Dominaria => "Dominaria"@,
            PlanarType::Equilor => "Equilor"@,
            PlanarType::Ergamon => "Ergamon"@,
            PlanarType::Fabacin => "Fabacin"@,
            PlanarType::Innistrad => "Innistrad"@,
            PlanarType::Iquatana => "Iquatana"@,
            PlanarType::Ir => "Ir"@,
            PlanarType::Kaldheim => "Kaldheim"@,
            PlanarType::Kamigawa => "Kamigawa"@,
            PlanarType::Karsus => "Karsus"@,
            PlanarType::Kephalai => "Kephalai"@,
            PlanarType::Kinshala => "Kinshala"@,
            PlanarType::Kolbahan => "Kolbahan"@,
            PlanarType::Kyneth => "Kyneth"@,
            PlanarType::Lorwyn => "Lorwyn"@,
            PlanarType::Luvion => "Luvion"@,
            PlanarType::Mercadia => "Mercadia"@,
            PlanarType::Mirrodin => "Mirrodin"@,
            PlanarType::Moag => "Moag"@,
            PlanarType::Mongseng => "Mongseng"@,
            PlanarType::Muraganda => "Muraganda"@,
            PlanarType::NewPhyrexia => "New Phyrexia"@,
            PlanarType::Phyrexia => "Phyrexia"@,
            PlanarType::Pyrulea => "Pyrulea"@,
            PlanarType::Rabiah => "Rabiah"@,
            PlanarType::Rath => "Rath"@,
            PlanarType::Ravnica => "Ravnica"@,
            PlanarType::Regatha => "Regatha"@,
            PlanarType::Segovia => "Segovia"@,
            PlanarType::SerrasRealm => "Serra's Realm"@,
            PlanarType::Shadowmoor => "Shadowmoor"@,
            PlanarType::Shandalar => "Shandalar"@,
            PlanarType::Ulgrotha => "Ulgrotha"@,
            PlanarType::Valla => "Valla"@,
            PlanarType::Vryn => "Vryn"@,
            PlanarType::Wildfire => "Wildfire"@,
            PlanarType::Xerex => "Xerex"@,
            PlanarType::Zendikar => "Zendikar"@,
        }
    }

    /// The first value of the vocabulary whose name is `t`.
    #[verifier::opaque]
    pub open spec fn from_text(t: Seq<char>) -> Option<PlanarType> {
        if t == PlanarType::Alara.text() {
            Some(PlanarType::Alara)
        } else if t == PlanarType::Arkhos.text() {
            Some(PlanarType::Arkhos)
        } else if t == PlanarType::Azgol.text() {
            Some(PlanarType::Azgol)
        } else if t == PlanarType::Belenon.text() {
            Some(PlanarType::Belenon)
        } else if t == PlanarType::BolassMeditationRealm.text() {
            Some(PlanarType::BolassMeditationRealm)
        } else if t == PlanarType::Dominaria.text() {
            Some(PlanarType::Dominaria)
        } else if t == PlanarType::Equilor.text() {
            Some(PlanarType::Equilor)
        } else if t == PlanarType::Ergamon.text() {
            Some(PlanarType::Ergamon)
        } else if t == PlanarType::Fabacin.text() {
            Some(PlanarType::Fabacin)
        } else if t == PlanarType::Innistrad.text() {
            Some(PlanarType::Innistrad)
        } else if t == PlanarType::Iquatana.text() {
            Some(PlanarType::Iquatana)
        } else if t == PlanarType::Ir.text() {
            Some(PlanarType::Ir)
        } else if t == PlanarType::Kaldheim.text() {
            Some(PlanarType::Kaldheim)
        } else if t == PlanarType::Kamigawa.text() {
            Some(PlanarType::Kamigawa)
        } else if t == PlanarType::Karsus.text() {
            Some(PlanarType::Karsus)
        } else if t == PlanarType::Kephalai.text() {
            Some(PlanarType::Kephalai)
        } else if t == PlanarType::Kinshala.text() {
            Some(PlanarType::Kinshala)
        } else if t == PlanarType::Kolbahan.text() {
            Some(PlanarType::Kolbahan)
        } else if t == PlanarType::Kyneth.text() {
            Some(PlanarType::Kyneth)
        } else if t == PlanarType::Lorwyn.text() {
            Some(PlanarType::Lorwyn)
        } else if t == PlanarType::Luvion.text() {
            Some(PlanarType::Luvion)
        } else if t == PlanarType::Mercadia.text() {
            Some(PlanarType::Mercadia)
        } else if t == PlanarType::Mirrodin.text() {
            Some(PlanarType::Mirrodin)
        } else if t == PlanarType::Moag.text() {
            Some(PlanarType::Moag)
        } else if t == PlanarType::Mongseng.text() {
            Some(PlanarType::Mongseng)
        } else if t == PlanarType::Muraganda.text() {
            Some(PlanarType::Muraganda)
        } else if t == PlanarType::NewPhyrexia.text() {
            Some(PlanarType::NewPhyrexia)
        } else if t == PlanarType::Phyrexia.text() {
            Some(PlanarType::Phyrexia)
        } else if t == PlanarType::Pyrulea.text() {
            Some(PlanarType::Pyrulea)
        } else if t == PlanarType::Rabiah.text() {
            Some(PlanarType::Rabiah)
        } else if t == PlanarType::Rath.text() {
            Some(PlanarType::Rath)
        } else if t == PlanarType::Ravnica.text() {
            Some(PlanarType::Ravnica)
        } else if t == PlanarType::Regatha.text() {
            Some(PlanarType::Regatha)
        } else if t == PlanarType::Segovia.text() {
            Some(PlanarType::Segovia)
        } else if t == PlanarType::SerrasRealm.text() {
            Some(PlanarType::SerrasRealm)
        } else if t == PlanarType::Shadowmoor.text() {
            Some(PlanarType::Shadowmoor)
        } else if t == PlanarType::Shandalar.text() {
            Some(PlanarType::Shandalar)
        } else if t == PlanarType::Ulgrotha.text() {
            Some(PlanarType::Ulgrotha)
        } else if t == PlanarType::Valla.text() {
            Some(PlanarType::Valla)
        } else if t == PlanarType::Vryn.text() {
            Some(PlanarType::Vryn)
        } else if t == PlanarType::Wildfire.text() {
            Some(PlanarType::Wildfire)
        } else if t == PlanarType::Xerex.text() {
            Some(PlanarType::Xerex)
        } else if t == PlanarType::Zendikar.text() {
            Some(PlanarType::Zendikar)
        } else {
            None
        }
    }

    pub fn name(self) -> (r: &'static str)
        ensures
            r@ == self.text(),
    {
        proof {
            reveal(PlanarType::text);
        }
        match self {
            PlanarType::Alara => "Alara",
            PlanarType::Arkhos => "Arkhos",
            PlanarType::Azgol => "Azgol",
            PlanarType::Belenon => "Belenon",
            PlanarType::BolassMeditationRealm => "Bolas's Meditation Realm",
            PlanarType::Dominaria => "Dominaria",
            PlanarType::Equilor => "Equilor",
            PlanarType::Ergamon => "Ergamon",
            PlanarType::Fabacin => "Fabacin",
            PlanarType::Innistrad => "Innistrad",
            PlanarType::Iquatana => "Iquatana",
            PlanarType::Ir => "Ir",
            PlanarType::Kaldheim => "Kaldheim",
            PlanarType::Kamigawa => "Kamigawa",
            PlanarType::Karsus => "Karsus",
            PlanarType::Kephalai => "Kephalai",
            PlanarType::Kinshala => "Kinshala",
            PlanarType::Kolbahan => "Kolbahan",
            PlanarType::Kyneth => "Kyneth",
            PlanarType::Lorwyn => "Lorwyn",
            PlanarType::Luvion => "Luvion",
            PlanarType::Mercadia => "Mercadia",
            PlanarType::Mirrodin => "Mirrodin",
            PlanarType::Moag => "Moag",
            PlanarType::Mongseng => "Mongseng",
            PlanarType::Muraganda => "Muraganda",
            PlanarType::NewPhyrexia => "New Phyrexia",
            PlanarType::Phyrexia => "Phyrexia",
            PlanarType::Pyrulea => "Pyrulea",
            PlanarType::Rabiah => "Rabiah",
            PlanarType::Rath => "Rath",
            PlanarType::Ravnica => "Ravnica",
            PlanarType::Regatha => "Regatha",
            PlanarType::Segovia => "Segovia",
            PlanarType::SerrasRealm => "Serra's Realm",
            PlanarType::Shadowmoor => "Shadowmoor",
            PlanarType::Shandalar => "Shandalar",
            PlanarType::Ulgrotha => "Ulgrotha",
            PlanarType::Valla => "Valla",
            PlanarType::Vryn => "Vryn",
            PlanarType::Wildfire => "Wildfire",
            PlanarType::Xerex => "Xerex",
            PlanarType::Zendikar => "Zendikar",
        }
    }

    pub fn to_string(self) -> (r: String)
        ensures
            r@ == self.text(),
    {
        String::from_str(self.name())
    }

    /// The value named by `t[lo..hi]`.
    pub fn parse_range(t: &Vec<char>, lo: usize, hi: usize) -> (r: Option<PlanarType>)
        requires
            lo <= hi <= t@.len(),
        ensures
            r == PlanarType::from_text(t@.subrange(lo as int, hi as int)),
    {
        proof {
            reveal(PlanarType::from_text);
        }
        if matches_text(t, lo, hi, PlanarType::Alara.name()) {
            return Some(PlanarType::Alara);
        }
        if matches_text(t, lo, hi, PlanarType::Arkhos.name()) {
            return Some(PlanarType::Arkhos);
        }
        if matches_text(t, lo, hi, PlanarType::Azgol.name()) {
            return Some(PlanarType::Azgol);
        }
        if matches_text(t, lo, hi, PlanarType::Belenon.name()) {
            return Some(PlanarType::Belenon);
        }
        if matches_text(t, lo, hi, PlanarType::BolassMeditationRealm.name()) {
            return Some(PlanarType::BolassMeditationRealm);
        }
        if matches_text(t, lo, hi, PlanarType::Dominaria.name()) {
            return Some(PlanarType::Dominaria);
        }
        if matches_text(t, lo, hi, PlanarType::Equilor.name()) {
            return Some(PlanarType::Equilor);
        }
        if matches_text(t, lo, hi, PlanarType::Ergamon.name()) {
            return Some(PlanarType::Ergamon);
        }
        if matches_text(t, lo, hi, PlanarType::Fabacin.name()) {
            return Some(PlanarType::Fabacin);
        }
        if matches_text(t, lo, hi, PlanarType::Innistrad.name()) {
            return Some(PlanarType::Innistrad);
        }
        if matches_text(t, lo, hi, PlanarType::Iquatana.name()) {
            return Some(PlanarType::Iquatana);
        }
        if matches_text(t, lo, hi, PlanarType::Ir.name()) {
            return Some(PlanarType::Ir);
        }
        if matches_text(t, lo, hi, PlanarType::Kaldheim.name()) {
            return Some(PlanarType::Kaldheim);
        }
        if matches_text(t, lo, hi, PlanarType::Kamigawa.name()) {
            return Some(PlanarType::Kamigawa);
        }
        if matches_text(t, lo, hi, PlanarType::Karsus.name()) {
            return Some(PlanarType::Karsus);
        }
        if matches_text(t, lo, hi, PlanarType::Kephalai.name()) {
            return Some(PlanarType::Kephalai);
        }
        if matches_text(t, lo, hi, PlanarType::Kinshala.name()) {
            return Some(PlanarType::Kinshala);
        }
        if matches_text(t, lo, hi, PlanarType::Kolbahan.name()) {
            return Some(PlanarType::Kolbahan);
        }
        if matches_text(t, lo, hi, PlanarType::Kyneth.name()) {
            return Some(PlanarType::Kyneth);
        }
        if matches_text(t, lo, hi, PlanarType::Lorwyn.name()) {
            return Some(PlanarType::Lorwyn);
        }
        if matches_text(t, lo, hi, PlanarType::Luvion.name()) {
            return Some(PlanarType::Luvion);
        }
        if matches_text(t, lo, hi, PlanarType::Mercadia.name()) {
            return Some(PlanarType::Mercadia);
        }
        if matches_text(t, lo, hi, PlanarType::Mirrodin.name()) {
            return Some(PlanarType::Mirrodin);
        }
        if matches_text(t, lo, hi, PlanarType::Moag.name()) {
            return Some(PlanarType::Moag);
        }
        if matches_text(t, lo, hi, PlanarType::Mongseng.name()) {
            return Some(PlanarType::Mongseng);
        }
        if matches_text(t, lo, hi, PlanarType::Muraganda.name()) {
            return Some(PlanarType::Muraganda);
        }
        if matches_text(t, lo, hi, PlanarType::NewPhyrexia.name()) {
            return Some(PlanarType::NewPhyrexia);
        }
        if matches_text(t, lo, hi, PlanarType::Phyrexia.name()) {
            return Some(PlanarType::Phyrexia);
        }
        if matches_text(t, lo, hi, PlanarType::Pyrulea.name()) {
            return Some(PlanarType::Pyrulea);
        }
        if matches_text(t, lo, hi, PlanarType::Rabiah.name()) {
            return Some(PlanarType::Rabiah);
        }
        if matches_text(t, lo, hi, PlanarType::Rath.name()) {
            return Some(PlanarType::Rath);
        }
        if matches_text(t, lo, hi, PlanarType::Ravnica.name()) {
            return Some(PlanarType::Ravnica);
        }
        if matches_text(t, lo, hi, PlanarType::Regatha.name()) {
            return Some(PlanarType::Regatha);
        }
        if matches_text(t, lo, hi, PlanarType::Segovia.name()) {
            return Some(PlanarType::Segovia);
        }
        if matches_text(t, lo, hi, PlanarType::SerrasRealm.name()) {
            return Some(PlanarType::SerrasRealm);
        }
        if matches_text(t, lo, hi, PlanarType::Shadowmoor.name()) {
            return Some(PlanarType::Shadowmoor);
        }
        if matches_text(t, lo, hi, PlanarType::Shandalar.name()) {
            return Some(PlanarType::Shandalar);
        }
        if matches_text(t, lo, hi, PlanarType::Ulgrotha.name()) {
            return Some(PlanarType::Ulgrotha);
        }
        if matches_text(t, lo, hi, PlanarType::Valla.name()) {
            return Some(PlanarType::Valla);
        }
        if matches_text(t, lo, hi, PlanarType::Vryn.name()) {
            return Some(PlanarType::Vryn);
        }
        if matches_text(t, lo, hi, PlanarType::Wildfire.name()) {
            return Some(PlanarType::Wildfire);
        }
        if matches_text(t, lo, hi, PlanarType::Xerex.name()) {
            return Some(PlanarType::Xerex);
        }
        if matches_text(t, lo, hi, PlanarType::Zendikar.name()) {
            return Some(PlanarType::Zendikar);
        }
        None
    }

    pub fn from_name(s: &str) -> (r: Option<PlanarType>)
        ensures
            r == PlanarType::from_text(s@),
    {
        let t = chars_of(s);
        assert(t@.subrange(0, t@.len() as int) =~= t@);
        PlanarType::parse_range(&t, 0, t.len())
    }
}

impl core::str::FromStr for PlanarType {
    type Err = UnknownName;

    fn from_str(s: &str) -> Result<PlanarType, UnknownName> {
        match PlanarType::from_name(s) {
            Some(v) => Ok(v),
            None => Err(UnknownName),
        }
    }
}

} // verus!
