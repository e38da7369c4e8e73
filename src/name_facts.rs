use vstd::prelude::*;

use crate::text::is_space;
use crate::type_line::EM_DASH;
use crate::type_::{
    ArtifactType, CreatureType, EnchantmentType, LandType, PlanarType, PlaneswalkerType,
    SpellType, Subtype, Supertype, Type,
};

verus! {

broadcast use vstd::string::group_string_axioms;

/// Lexicographic order on character codes, comparing from position `i` on.
pub open spec fn lex_lt_from(a: Seq<char>, b: Seq<char>, i: nat) -> bool
    decreases a.len() - i,
{
    if i >= b.len() {
        false
    } else if i >= a.len() {
        true
    } else if a[i as int] != b[i as int] {
        (a[i as int] as u32) < (b[i as int] as u32)
    } else {
        lex_lt_from(a, b, i + 1)
    }
}

/// `a` comes strictly before `b` in lexicographic order.
pub open spec fn lex_lt(a: Seq<char>, b: Seq<char>) -> bool {
    lex_lt_from(a, b, 0)
}

proof fn lemma_lex_trans_from(a: Seq<char>, b: Seq<char>, c: Seq<char>, i: nat)
    requires
        lex_lt_from(a, b, i),
        lex_lt_from(b, c, i),
    ensures
        lex_lt_from(a, c, i),
    decreases c.len() - i,
{
    if i < a.len() && a[i as int] == b[i as int] && b[i as int] == c[i as int] {
        lemma_lex_trans_from(a, b, c, i + 1);
    }
}

proof fn lemma_lex_trans(a: Seq<char>, b: Seq<char>, c: Seq<char>)
    requires
        lex_lt(a, b),
        lex_lt(b, c),
    ensures
        lex_lt(a, c),
{
    lemma_lex_trans_from(a, b, c, 0);
}

proof fn lemma_lex_irreflexive_from(a: Seq<char>, i: nat)
    ensures
        !lex_lt_from(a, a, i),
    decreases a.len() - i,
{
    if i < a.len() {
        lemma_lex_irreflexive_from(a, i + 1);
    }
}

proof fn lemma_lex_distinct(a: Seq<char>, b: Seq<char>)
    requires
        lex_lt(a, b),
    ensures
        a != b,
{
    lemma_lex_irreflexive_from(a, 0);
}

/// From position `i` on, no character is white space or an em dash.
pub open spec fn plain_from(s: Seq<char>, i: nat) -> bool
    decreases s.len() - i,
{
    i >= s.len() || (!is_space(s[i as int]) && s[i as int] != EM_DASH && plain_from(s, i + 1))
}

/// From position `i` on, no character is an em dash.
pub open spec fn dashless_from(s: Seq<char>, i: nat) -> bool
    decreases s.len() - i,
{
    i >= s.len() || (s[i as int] != EM_DASH && dashless_from(s, i + 1))
}

/// A name made of one word: not empty, without white space or em dash.
pub open spec fn is_plain_word(s: Seq<char>) -> bool {
    &&& s.len() > 0
    &&& forall|i: int| 0 <= i < s.len() ==> !is_space(#[trigger] s[i]) && s[i] != EM_DASH
}

proof fn lemma_plain_from(s: Seq<char>, i: nat)
    requires
        plain_from(s, i),
    ensures
        forall|j: int| i <= j < s.len() ==> !is_space(#[trigger] s[j]) && s[j] != EM_DASH,
    decreases s.len() - i,
{
    if i < s.len() {
        lemma_plain_from(s, i + 1);
    }
}

proof fn lemma_dashless_from(s: Seq<char>, i: nat)
    requires
        dashless_from(s, i),
    ensures
        forall|j: int| i <= j < s.len() ==> #[trigger] s[j] != EM_DASH,
    decreases s.len() - i,
{
    if i < s.len() {
        lemma_dashless_from(s, i + 1);
    }
}

/// Each name's rank, that it comes before the name of the next rank, and
/// that it is a single word.
proof fn lemma_supertype_rank(x: Supertype)
    ensures
        0 <= supertype_rank(x) < 5,
        supertype_of_rank(supertype_rank(x)) == x,
        supertype_rank(x) + 1 < 5 ==> supertype_rank(supertype_of_rank(supertype_rank(x) + 1)) == supertype_rank(x) + 1 && lex_lt(
            x.text(),
            supertype_of_rank(supertype_rank(x) + 1).text(),
        ),
        plain_from(x.text(), 0),
        x.text().len() > 0,
{
    reveal(Supertype::text);
    reveal_with_fuel(lex_lt_from, 2);
    reveal_with_fuel(plain_from, 10);
    match x {
        Supertype::Basic => {
            reveal_strlit("Basic");
            reveal_strlit("Legendary");
        },
        Supertype::Legendary => {
            reveal_strlit("Legendary");
            reveal_strlit("Ongoing");
        },
        Supertype::Ongoing => {
            reveal_strlit("Ongoing");
            reveal_strlit("Snow");
        },
        Supertype::Snow => {
            reveal_strlit("Snow");
            reveal_strlit("World");
        },
        Supertype::World => {
            reveal_strlit("World");
        },
    }
}

/// Position of the name in the alphabetical order of the names.
pub open spec fn supertype_rank(x: Supertype) -> int {
    match x {
        Supertype::Basic => 0,
        Supertype::Legendary => 1,
        Supertype::Ongoing => 2,
        Supertype::Snow => 3,
        Supertype::World => 4,
    }
}

/// The value whose name has the given position in alphabetical order.
pub open spec fn supertype_of_rank(k: int) -> Supertype {
    if k == 0 {
        Supertype::Basic
    } else if k == 1 {
        Supertype::Legendary
    } else if k == 2 {
        Supertype::Ongoing
    } else if k == 3 {
        Supertype::Snow
    } else {
        Supertype::World
    }
}

/// Names increase with rank.
proof fn lemma_supertype_lt(x: Supertype, y: Supertype)
    requires
        supertype_rank(x) < supertype_rank(y),
    ensures
        lex_lt(x.text(), y.text()),
    decreases supertype_rank(y) - supertype_rank(x),
{
    lemma_supertype_rank(x);
    lemma_supertype_rank(y);
    let z = supertype_of_rank(supertype_rank(x) + 1);
    lemma_supertype_rank(z);
    if supertype_rank(z) < supertype_rank(y) {
        lemma_supertype_lt(z, y);
        lemma_lex_trans(x.text(), z.text(), y.text());
    }
}

/// Distinct values have distinct names.
pub proof fn lemma_supertype_names_distinct(x: Supertype, y: Supertype)
    requires
        x != y,
    ensures
        x.text() != y.text(),
{
    lemma_supertype_rank(x);
    lemma_supertype_rank(y);
    if supertype_rank(x) < supertype_rank(y) {
        lemma_supertype_lt(x, y);
        lemma_lex_distinct(x.text(), y.text());
    } else if supertype_rank(y) < supertype_rank(x) {
        lemma_supertype_lt(y, x);
        lemma_lex_distinct(y.text(), x.text());
    }
}

/// A value found by name has that name, and a name of a value is found.
proof fn lemma_supertype_lookup(t: Seq<char>)
    ensures
        Supertype::from_text(t) is Some ==> (Supertype::from_text(t)->0).text() == t,
        forall|x: Supertype| #[trigger] x.text() == t ==> Supertype::from_text(t) is Some,
{
    reveal(Supertype::from_text);
}

/// Looking up the name of a value gives the value, and the name is one word.
pub proof fn lemma_supertype_own_name(x: Supertype)
    ensures
        Supertype::from_text(x.text()) == Some(x),
        is_plain_word(x.text()),
{
    lemma_supertype_rank(x);
    lemma_plain_from(x.text(), 0);
    lemma_supertype_lookup(x.text());
    let y = Supertype::from_text(x.text())->0;
    if y != x {
        lemma_supertype_names_distinct(x, y);
    }
}

/// Each name's rank, that it comes before the name of the next rank, and
/// that it is a single word.
proof fn lemma_type_rank(x: Type)
    ensures
        0 <= type_rank(x) < 13,
        type_of_rank(type_rank(x)) == x,
        type_rank(x) + 1 < 13 ==> type_rank(type_of_rank(type_rank(x) + 1)) == type_rank(x) + 1 && lex_lt(
            x.text(),
            type_of_rank(type_rank(x) + 1).text(),
        ),
        plain_from(x.text(), 0),
        x.text().len() > 0,
{
    reveal(Type::text);
    reveal_with_fuel(lex_lt_from, 7);
    reveal_with_fuel(plain_from, 13);
    match x {
        Type::Artifact => {
            reveal_strlit("Artifact");
            reveal_strlit("Conspiracy");
        },
        Type::Conspiracy => {
            reveal_strlit("Conspiracy");
            reveal_strlit("Creature");
        },
        Type::Creature => {
            reveal_strlit("Creature");
            reveal_strlit("Enchantment");
        },
        Type::Enchantment => {
            reveal_strlit("Enchantment");
            reveal_strlit("Instant");
        },
        Type::Instant => {
            reveal_strlit("Instant");
            reveal_strlit("Land");
        },
        Type::Land => {
            reveal_strlit("Land");
            reveal_strlit("Phenomenon");
        },
        Type::Phenomenon => {
            reveal_strlit("Phenomenon");
            reveal_strlit("Plane");
        },
        Type::Plane => {
            reveal_strlit("Plane");
            reveal_strlit("Planeswalker");
        },
        Type::Planeswalker => {
            reveal_strlit("Planeswalker");
            reveal_strlit("Scheme");
        },
        Type::Scheme => {
            reveal_strlit("Scheme");
            reveal_strlit("Sorcery");
        },
        Type::Sorcery => {
            reveal_strlit("Sorcery");
            reveal_strlit("Tribal");
        },
        Type::Tribal => {
            reveal_strlit("Tribal");
            reveal_strlit("Vanguard");
        },
        Type::Vanguard => {
            reveal_strlit("Vanguard");
        },
    }
}

/// Position of the name in the alphabetical order of the names.
pub open spec fn type_rank(x: Type) -> int {
    match x {
        Type::Artifact => 0,
        Type::Conspiracy => 1,
        Type::Creature => 2,
        Type::Enchantment => 3,
        Type::Instant => 4,
        Type::Land => 5,
        Type::Phenomenon => 6,
        Type::Plane => 7,
        Type::Planeswalker => 8,
        Type::Scheme => 9,
        Type::Sorcery => 10,
        Type::Tribal => 11,
        Type::Vanguard => 12,
    }
}

/// The value whose name has the given position in alphabetical order.
pub open spec fn type_of_rank(k: int) -> Type {
    if k == 0 {
        Type::Artifact
    } else if k == 1 {
        Type::Conspiracy
    } else if k == 2 {
        Type::Creature
    } else if k == 3 {
        Type::Enchantment
    } else if k == 4 {
        Type::Instant
    } else if k == 5 {
        Type::Land
    } else if k == 6 {
        Type::Phenomenon
    } else if k == 7 {
        Type::Plane
    } else if k == 8 {
        Type::Planeswalker
    } else if k == 9 {
        Type::Scheme
    } else if k == 10 {
        Type::Sorcery
    } else if k == 11 {
        Type::Tribal
    } else {
        Type::Vanguard
    }
}

/// Names increase with rank.
proof fn lemma_type_lt(x: Type, y: Type)
    requires
        type_rank(x) < type_rank(y),
    ensures
        lex_lt(x.text(), y.text()),
    decreases type_rank(y) - type_rank(x),
{
    lemma_type_rank(x);
    lemma_type_rank(y);
    let z = type_of_rank(type_rank(x) + 1);
    lemma_type_rank(z);
    if type_rank(z) < type_rank(y) {
        lemma_type_lt(z, y);
        lemma_lex_trans(x.text(), z.text(), y.text());
    }
}

/// Distinct values have distinct names.
pub proof fn lemma_type_names_distinct(x: Type, y: Type)
    requires
        x != y,
    ensures
        x.text() != y.text(),
{
    lemma_type_rank(x);
    lemma_type_rank(y);
    if type_rank(x) < type_rank(y) {
        lemma_type_lt(x, y);
        lemma_lex_distinct(x.text(), y.text());
    } else if type_rank(y) < type_rank(x) {
        lemma_type_lt(y, x);
        lemma_lex_distinct(y.text(), x.text());
    }
}

/// A value found by name has that name, and a name of a value is found.
proof fn lemma_type_lookup(t: Seq<char>)
    ensures
        Type::from_text(t) is Some ==> (Type::from_text(t)->0).text() == t,
        forall|x: Type| #[trigger] x.text() == t ==> Type::from_text(t) is Some,
{
    reveal(Type::from_text);
}

/// Looking up the name of a value gives the value, and the name is one word.
pub proof fn lemma_type_own_name(x: Type)
    ensures
        Type::from_text(x.text()) == Some(x),
        is_plain_word(x.text()),
{
    lemma_type_rank(x);
    lemma_plain_from(x.text(), 0);
    lemma_type_lookup(x.text());
    let y = Type::from_text(x.text())->0;
    if y != x {
        lemma_type_names_distinct(x, y);
    }
}

/// The rank facts for each ArtifactType name, and that it is a single word unless
/// it is one of the names of several words.
proof fn lemma_artifact_type_rank(x: ArtifactType)
    ensures
        0 <= subtype_rank(Subtype::Artifact(x)) < 357,
        subtype_of_rank(subtype_rank(Subtype::Artifact(x))) == Subtype::Artifact(x),
        subtype_rank(Subtype::Artifact(x)) + 1 < 357 ==> subtype_rank(
            subtype_of_rank(subtype_rank(Subtype::Artifact(x)) + 1),
        ) == subtype_rank(Subtype::Artifact(x)) + 1 && lex_lt(
            x.text(),
            subtype_of_rank(subtype_rank(Subtype::Artifact(x)) + 1).text(),
        ),
        is_multi_word(Subtype::Artifact(x)) || plain_from(x.text(), 0),
        x.text().len() > 0,
{
    reveal(ArtifactType::text);
    reveal(EnchantmentType::text);
    reveal(LandType::text);
    reveal(PlaneswalkerType::text);
    reveal(SpellType::text);
    reveal(CreatureType::text);
    reveal(PlanarType::text);
    reveal_with_fuel(lex_lt_from, 8);
    reveal_with_fuel(plain_from, 25);
    match x {
        ArtifactType::Clue => {
            reveal_strlit("Clue");
            reveal_strlit("Cockatrice");
        },
        ArtifactType::Contraption => {
            reveal_strlit("Contraption");
            reveal_strlit("Coward");
        },
        ArtifactType::Equipment => {
            reveal_strlit("Equipment");
            reveal_strlit("Ergamon");
        },
        ArtifactType::Fortification => {
            reveal_strlit("Fortification");
            reveal_strlit("Fox");
        },
        ArtifactType::Treasure => {
            reveal_strlit("Treasure");
            reveal_strlit("Treefolk");
        },
        ArtifactType::Vehicle => {
            reveal_strlit("Vehicle");
            reveal_strlit("Venser");
        },
    }
}

/// The rank facts for each EnchantmentType name, and that it is a single word unless
/// it is one of the names of several words.
proof fn lemma_enchantment_type_rank(x: EnchantmentType)
    ensures
        0 <= subtype_rank(Subtype::Enchantment(x)) < 357,
        subtype_of_rank(subtype_rank(Subtype::Enchantment(x))) == Subtype::Enchantment(x),
        subtype_rank(Subtype::Enchantment(x)) + 1 < 357 ==> subtype_rank(
            subtype_of_rank(subtype_rank(Subtype::Enchantment(x)) + 1),
        ) == subtype_rank(Subtype::Enchantment(x)) + 1 && lex_lt(
            x.text(),
            subtype_of_rank(subtype_rank(Subtype::Enchantment(x)) + 1).text(),
        ),
        is_multi_word(Subtype::Enchantment(x)) || plain_from(x.text(), 0),
        x.text().len() > 0,
{
    reveal(ArtifactType::text);
    reveal(EnchantmentType::text);
    reveal(LandType::text);
    reveal(PlaneswalkerType::text);
    reveal(SpellType::text);
    reveal(CreatureType::text);
    reveal(PlanarType::text);
    reveal_with_fuel(lex_lt_from, 8);
    reveal_with_fuel(plain_from, 25);
    match x {
        EnchantmentType::Aura => {
            reveal_strlit("Aura");
            reveal_strlit("Aurochs");
        },
        EnchantmentType::Cartouche => {
            reveal_strlit("Cartouche");
            reveal_strlit("Cat");
        },
        EnchantmentType::Curse => {
            reveal_strlit("Curse");
            reveal_strlit("Cyclops");
        },
        EnchantmentType::Saga => {
            reveal_strlit("Saga");
            reveal_strlit("Saheeli");
        },
        EnchantmentType::Shrine => {
            reveal_strlit("Shrine");
            reveal_strlit("Siren");
        },
    }
}

/// The rank facts for each LandType name, and that it is a single word unless
/// it is one of the names of several words.
proof fn lemma_land_type_rank(x: LandType)
    ensures
        0 <= subtype_rank(Subtype::Land(x)) < 357,
        subtype_of_rank(subtype_rank(Subtype::Land(x))) == Subtype::Land(x),
        subtype_rank(Subtype::Land(x)) + 1 < 357 ==> subtype_rank(
            subtype_of_rank(subtype_rank(Subtype::Land(x)) + 1),
        ) == subtype_rank(Subtype::Land(x)) + 1 && lex_lt(
            x.text(),
            subtype_of_rank(subtype_rank(Subtype::Land(x)) + 1).text(),
        ),
        is_multi_word(Subtype::Land(x)) || plain_from(x.text(), 0),
        x.text().len() > 0,
{
    reveal(ArtifactType::text);
    reveal(EnchantmentType::text);
    reveal(LandType::text);
    reveal(PlaneswalkerType::text);
    reveal(SpellType::text);
    reveal(CreatureType::text);
    reveal(PlanarType::text);
    reveal_with_fuel(lex_lt_from, 8);
    reveal_with_fuel(plain_from, 25);
    match x {
        LandType::Desert => {
            reveal_strlit("Desert");
            reveal_strlit("Deserter");
        },
        LandType::Forest => {
            reveal_strlit("Forest");
            reveal_strlit("Fortification");
        },
        LandType::Gate => {
            reveal_strlit("Gate");
            reveal_strlit("Germ");
        },
        LandType::Island => {
            reveal_strlit("Island");
            reveal_strlit("Jace");
        },
        LandType::Lair => {
            reveal_strlit("Lair");
            reveal_strlit("Lamia");
        },
        LandType::Locus => {
            reveal_strlit("Locus");
            reveal_strlit("Lorwyn");
        },
        LandType::Mine => {
            reveal_strlit("Mine");
            reveal_strlit("Minion");
        },
        LandType::Mountain => {
            reveal_strlit("Mountain");
            reveal_strlit("Muraganda");
        },
        LandType::Plains => {
            reveal_strlit("Plains");
            reveal_strlit("Plant");
        },
        LandType::PowerPlant => {
            reveal_strlit("Power-Plant");
            reveal_strlit("Praetor");
        },
        LandType::Swamp => {
            reveal_strlit("Swamp");
            reveal_strlit("Tamiyo");
        },
        LandType::Tower => {
            reveal_strlit("Tower");
            reveal_strlit("Trap");
        },
        LandType::Urzas => {
            reveal_strlit("Urza's");
            reveal_strlit("Valla");
        },
    }
}

/// The rank facts for each PlaneswalkerType name, and that it is a single word unless
/// it is one of the names of several words.
proof fn lemma_planeswalker_type_rank(x: PlaneswalkerType)
    ensures
        0 <= subtype_rank(Subtype::Planeswalker(x)) < 357,
        subtype_of_rank(subtype_rank(Subtype::Planeswalker(x))) == Subtype::Planeswalker(x),
        subtype_rank(Subtype::Planeswalker(x)) + 1 < 357 ==> subtype_rank(
            subtype_of_rank(subtype_rank(Subtype::Planeswalker(x)) + 1),
        ) == subtype_rank(Subtype::Planeswalker(x)) + 1 && lex_lt(
            x.text(),
            subtype_of_rank(subtype_rank(Subtype::Planeswalker(x)) + 1).text(),
        ),
        is_multi_word(Subtype::Planeswalker(x)) || plain_from(x.text(), 0),
        x.text().len() > 0,
{
    reveal(ArtifactType::text);
    reveal(EnchantmentType::text);
    reveal(LandType::text);
    reveal(PlaneswalkerType::text);
    reveal(SpellType::text);
    reveal(CreatureType::text);
    reveal(PlanarType::text);
    reveal_with_fuel(lex_lt_from, 8);
    reveal_with_fuel(plain_from, 25);
    match x {
        PlaneswalkerType::Ajani => {
            reveal_strlit("Ajani");
            reveal_strlit("Alara");
        },
        PlaneswalkerType::Aminatou => {
            reveal_strlit("Aminatou");
            reveal_strlit("Angel");
        },
        PlaneswalkerType::Angrath => {
            reveal_strlit("Angrath");
            reveal_strlit("Antelope");
        },
        PlaneswalkerType::Arlinn => {
            reveal_strlit("Arlinn");
            reveal_strlit("Artificer");
        },
        PlaneswalkerType::Ashiok => {
            reveal_strlit("Ashiok");
            reveal_strlit("Assassin");
        },
        PlaneswalkerType::Bolas => {
            reveal_strlit("Bolas");
            reveal_strlit("Bolas's Meditation Realm");
        },
        PlaneswalkerType::Chandra => {
            reveal_strlit("Chandra");
            reveal_strlit("Chimera");
        },
        PlaneswalkerType::Dack => {
            reveal_strlit("Dack");
            reveal_strlit("Daretti");
        },
        PlaneswalkerType::Daretti => {
            reveal_strlit("Daretti");
            reveal_strlit("Dauthi");
        },
        PlaneswalkerType::Domri => {
            reveal_strlit("Domri");
            reveal_strlit("Dovin");
        },
        PlaneswalkerType::Dovin => {
            reveal_strlit("Dovin");
            reveal_strlit("Dragon");
        },
        PlaneswalkerType::Elspeth => {
            reveal_strlit("Elspeth");
            reveal_strlit("Equilor");
        },
        PlaneswalkerType::Estrid => {
            reveal_strlit("Estrid");
            reveal_strlit("Eye");
        },
        PlaneswalkerType::Freyalise => {
            reveal_strlit("Freyalise");
            reveal_strlit("Frog");
        },
        PlaneswalkerType::Garruk => {
            reveal_strlit("Garruk");
            reveal_strlit("Gate");
        },
        PlaneswalkerType::Gideon => {
            reveal_strlit("Gideon");
            reveal_strlit("Gnome");
        },
        PlaneswalkerType::Huatli => {
            reveal_strlit("Huatli");
            reveal_strlit("Human");
        },
        PlaneswalkerType::Jace => {
            reveal_strlit("Jace");
            reveal_strlit("Jackal");
        },
        PlaneswalkerType::Jaya => {
            reveal_strlit("Jaya");
            reveal_strlit("Jellyfish");
        },
        PlaneswalkerType::Karn => {
            reveal_strlit("Karn");
            reveal_strlit("Karsus");
        },
        PlaneswalkerType::Kaya => {
            reveal_strlit("Kaya");
            reveal_strlit("Kephalai");
        },
        PlaneswalkerType::Kiora => {
            reveal_strlit("Kiora");
            reveal_strlit("Kirin");
        },
        PlaneswalkerType::Koth => {
            reveal_strlit("Koth");
            reveal_strlit("Kraken");
        },
        PlaneswalkerType::Liliana => {
            reveal_strlit("Liliana");
            reveal_strlit("Lizard");
        },
        PlaneswalkerType::Nahiri => {
            reveal_strlit("Nahiri");
            reveal_strlit("Narset");
        },
        PlaneswalkerType::Narset => {
            reveal_strlit("Narset");
            reveal_strlit("Nautilus");
        },
        PlaneswalkerType::Nissa => {
            reveal_strlit("Nissa");
            reveal_strlit("Nixilis");
        },
        PlaneswalkerType::Nixilis => {
            reveal_strlit("Nixilis");
            reveal_strlit("Noggle");
        },
        PlaneswalkerType::Ral => {
            reveal_strlit("Ral");
            reveal_strlit("Rat");
        },
        PlaneswalkerType::Rowan => {
            reveal_strlit("Rowan");
            reveal_strlit("Sable");
        },
        PlaneswalkerType::Saheeli => {
            reveal_strlit("Saheeli");
            reveal_strlit("Salamander");
        },
        PlaneswalkerType::Samut => {
            reveal_strlit("Samut");
            reveal_strlit("Sand");
        },
        PlaneswalkerType::Sarkhan => {
            reveal_strlit("Sarkhan");
            reveal_strlit("Satyr");
        },
        PlaneswalkerType::Sorin => {
            reveal_strlit("Sorin");
            reveal_strlit("Spawn");
        },
        PlaneswalkerType::Tamiyo => {
            reveal_strlit("Tamiyo");
            reveal_strlit("Teferi");
        },
        PlaneswalkerType::Teferi => {
            reveal_strlit("Teferi");
            reveal_strlit("Tetravite");
        },
        PlaneswalkerType::Tezzeret => {
            reveal_strlit("Tezzeret");
            reveal_strlit("Thalakos");
        },
        PlaneswalkerType::Tibalt => {
            reveal_strlit("Tibalt");
            reveal_strlit("Tower");
        },
        PlaneswalkerType::Ugin => {
            reveal_strlit("Ugin");
            reveal_strlit("Ulgrotha");
        },
        PlaneswalkerType::Venser => {
            reveal_strlit("Venser");
            reveal_strlit("Viashino");
        },
        PlaneswalkerType::Vivien => {
            reveal_strlit("Vivien");
            reveal_strlit("Volver");
        },
        PlaneswalkerType::Vraska => {
            reveal_strlit("Vraska");
            reveal_strlit("Vryn");
        },
        PlaneswalkerType::Will => {
            reveal_strlit("Will");
            reveal_strlit("Windgrace");
        },
        PlaneswalkerType::Windgrace => {
            reveal_strlit("Windgrace");
            reveal_strlit("Wizard");
        },
        PlaneswalkerType::Xenagos => {
            reveal_strlit("Xenagos");
            reveal_strlit("Xerex");
        },
        PlaneswalkerType::Yanggu => {
            reveal_strlit("Yanggu");
            reveal_strlit("Yanling");
        },
        PlaneswalkerType::Yanling => {
            reveal_strlit("Yanling");
            reveal_strlit("Yeti");
        },
    }
}

/// The rank facts for each SpellType name, and that it is a single word unless
/// it is one of the names of several words.
proof fn lemma_spell_type_rank(x: SpellType)
    ensures
        0 <= subtype_rank(Subtype::Spell(x)) < 357,
        subtype_of_rank(subtype_rank(Subtype::Spell(x))) == Subtype::Spell(x),
        subtype_rank(Subtype::Spell(x)) + 1 < 357 ==> subtype_rank(
            subtype_of_rank(subtype_rank(Subtype::Spell(x)) + 1),
        ) == subtype_rank(Subtype::Spell(x)) + 1 && lex_lt(
            x.text(),
            subtype_of_rank(subtype_rank(Subtype::Spell(x)) + 1).text(),
        ),
        is_multi_word(Subtype::Spell(x)) || plain_from(x.text(), 0),
        x.text().len() > 0,
{
    reveal(ArtifactType::text);
    reveal(EnchantmentType::text);
    reveal(LandType::text);
    reveal(PlaneswalkerType::text);
    reveal(SpellType::text);
    reveal(CreatureType::text);
    reveal(PlanarType::text);
    reveal_with_fuel(lex_lt_from, 8);
    reveal_with_fuel(plain_from, 25);
    match x {
        SpellType::Arcane => {
            reveal_strlit("Arcane");
            reveal_strlit("Archer");
        },
        SpellType::Trap => {
            reveal_strlit("Trap");
            reveal_strlit("Treasure");
        },
    }
}

/// The rank facts for each CreatureType name, and that it is a single word unless
/// it is one of the names of several words.
#[verifier::rlimit(100)]
proof fn lemma_creature_type_rank(x: CreatureType)
    ensures
        0 <= subtype_rank(Subtype::Creature(x)) < 357,
        subtype_of_rank(subtype_rank(Subtype::Creature(x))) == Subtype::Creature(x),
        subtype_rank(Subtype::Creature(x)) + 1 < 357 ==> subtype_rank(
            subtype_of_rank(subtype_rank(Subtype::Creature(x)) + 1),
        ) == subtype_rank(Subtype::Creature(x)) + 1 && lex_lt(
            x.text(),
            subtype_of_rank(subtype_rank(Subtype::Creature(x)) + 1).text(),
        ),
        is_multi_word(Subtype::Creature(x)) || plain_from(x.text(), 0),
        x.text().len() > 0,
{
    reveal(ArtifactType::text);
    reveal(EnchantmentType::text);
    reveal(LandType::text);
    reveal(PlaneswalkerType::text);
    reveal(SpellType::text);
    reveal(CreatureType::text);
    reveal(PlanarType::text);
    reveal_with_fuel(lex_lt_from, 8);
    reveal_with_fuel(plain_from, 25);
    match x {
        CreatureType::Advisor => {
            reveal_strlit("Advisor");
            reveal_strlit("Aetherborn");
        },
        CreatureType::Aetherborn => {
            reveal_strlit("Aetherborn");
            reveal_strlit("Ajani");
        },
        CreatureType::Ally => {
            reveal_strlit("Ally");
            reveal_strlit("Aminatou");
        },
        CreatureType::Angel => {
            reveal_strlit("Angel");
            reveal_strlit("Angrath");
        },
        CreatureType::Antelope => {
            reveal_strlit("Antelope");
            reveal_strlit("Ape");
        },
        CreatureType::Ape => {
            reveal_strlit("Ape");
            reveal_strlit("Arcane");
        },
        CreatureType::Archer => {
            reveal_strlit("Archer");
            reveal_strlit("Archon");
        },
        CreatureType::Archon => {
            reveal_strlit("Archon");
            reveal_strlit("Arkhos");
        },
        CreatureType::Artificer => {
            reveal_strlit("Artificer");
            reveal_strlit("Ashiok");
        },
        CreatureType::Assassin => {
            reveal_strlit("Assassin");
            reveal_strlit("Assembly-Worker");
        },
        CreatureType::AssemblyWorker => {
            reveal_strlit("Assembly-Worker");
            reveal_strlit("Atog");
        },
        CreatureType::Atog => {
            reveal_strlit("Atog");
            reveal_strlit("Aura");
        },
        CreatureType::Aurochs => {
            reveal_strlit("Aurochs");
            reveal_strlit("Avatar");
        },
        CreatureType::Avatar => {
            reveal_strlit("Avatar");
            reveal_strlit("Azgol");
        },
        CreatureType::Azra => {
            reveal_strlit("Azra");
            reveal_strlit("Badger");
        },
        CreatureType::Badger => {
            reveal_strlit("Badger");
            reveal_strlit("Barbarian");
        },
        CreatureType::Barbarian => {
            reveal_strlit("Barbarian");
            reveal_strlit("Basilisk");
        },
        CreatureType::Basilisk => {
            reveal_strlit("Basilisk");
            reveal_strlit("Bat");
        },
        CreatureType::Bat => {
            reveal_strlit("Bat");
            reveal_strlit("Bear");
        },
        CreatureType::Bear => {
            reveal_strlit("Bear");
            reveal_strlit("Beast");
        },
        CreatureType::Beast => {
            reveal_strlit("Beast");
            reveal_strlit("Beeble");
        },
        CreatureType::Beeble => {
            reveal_strlit("Beeble");
            reveal_strlit("Belenon");
        },
        CreatureType::Berserker => {
            reveal_strlit("Berserker");
            reveal_strlit("Bird");
        },
        CreatureType::Bird => {
            reveal_strlit("Bird");
            reveal_strlit("Blinkmoth");
        },
        CreatureType::Blinkmoth => {
            reveal_strlit("Blinkmoth");
            reveal_strlit("Boar");
        },
        CreatureType::Boar => {
            reveal_strlit("Boar");
            reveal_strlit("Bolas");
        },
        CreatureType::Bringer => {
            reveal_strlit("Bringer");
            reveal_strlit("Brushwagg");
        },
        CreatureType::Brushwagg => {
            reveal_strlit("Brushwagg");
            reveal_strlit("Camarid");
        },
        CreatureType::Camarid => {
            reveal_strlit("Camarid");
            reveal_strlit("Camel");
        },
        CreatureType::Camel => {
            reveal_strlit("Camel");
            reveal_strlit("Caribou");
        },
        CreatureType::Caribou => {
            reveal_strlit("Caribou");
            reveal_strlit("Carrier");
        },
        CreatureType::Carrier => {
            reveal_strlit("Carrier");
            reveal_strlit("Cartouche");
        },
        CreatureType::Cat => {
            reveal_strlit("Cat");
            reveal_strlit("Centaur");
        },
        CreatureType::Centaur => {
            reveal_strlit("Centaur");
            reveal_strlit("Cephalid");
        },
        CreatureType::Cephalid => {
            reveal_strlit("Cephalid");
            reveal_strlit("Chandra");
        },
        CreatureType::Chimera => {
            reveal_strlit("Chimera");
            reveal_strlit("Citizen");
        },
        CreatureType::Citizen => {
            reveal_strlit("Citizen");
            reveal_strlit("Cleric");
        },
        CreatureType::Cleric => {
            reveal_strlit("Cleric");
            reveal_strlit("Clue");
        },
        CreatureType::Cockatrice => {
            reveal_strlit("Cockatrice");
            reveal_strlit("Construct");
        },
        CreatureType::Construct => {
            reveal_strlit("Construct");
            reveal_strlit("Contraption");
        },
        CreatureType::Coward => {
            reveal_strlit("Coward");
            reveal_strlit("Crab");
        },
        CreatureType::Crab => {
            reveal_strlit("Crab");
            reveal_strlit("Crocodile");
        },
        CreatureType::Crocodile => {
            reveal_strlit("Crocodile");
            reveal_strlit("Curse");
        },
        CreatureType::Cyclops => {
            reveal_strlit("Cyclops");
            reveal_strlit("Dack");
        },
        CreatureType::Dauthi => {
            reveal_strlit("Dauthi");
            reveal_strlit("Demon");
        },
        CreatureType::Demon => {
            reveal_strlit("Demon");
            reveal_strlit("Desert");
        },
        CreatureType::Deserter => {
            reveal_strlit("Deserter");
            reveal_strlit("Devil");
        },
        CreatureType::Devil => {
            reveal_strlit("Devil");
            reveal_strlit("Dinosaur");
        },
        CreatureType::Dinosaur => {
            reveal_strlit("Dinosaur");
            reveal_strlit("Djinn");
        },
        CreatureType::Djinn => {
            reveal_strlit("Djinn");
            reveal_strlit("Dominaria");
        },
        CreatureType::Dragon => {
            reveal_strlit("Dragon");
            reveal_strlit("Drake");
        },
        CreatureType::Drake => {
            reveal_strlit("Drake");
            reveal_strlit("Dreadnought");
        },
        CreatureType::Dreadnought => {
            reveal_strlit("Dreadnought");
            reveal_strlit("Drone");
        },
        CreatureType::Drone => {
            reveal_strlit("Drone");
            reveal_strlit("Druid");
        },
        CreatureType::Druid => {
            reveal_strlit("Druid");
            reveal_strlit("Dryad");
        },
        CreatureType::Dryad => {
            reveal_strlit("Dryad");
            reveal_strlit("Dwarf");
        },
        CreatureType::Dwarf => {
            reveal_strlit("Dwarf");
            reveal_strlit("Efreet");
        },
        CreatureType::Efreet => {
            reveal_strlit("Efreet");
            reveal_strlit("Egg");
        },
        CreatureType::Egg => {
            reveal_strlit("Egg");
            reveal_strlit("Elder");
        },
        CreatureType::Elder => {
            reveal_strlit("Elder");
            reveal_strlit("Eldrazi");
        },
        CreatureType::Eldrazi => {
            reveal_strlit("Eldrazi");
            reveal_strlit("Elemental");
        },
        CreatureType::Elemental => {
            reveal_strlit("Elemental");
            reveal_strlit("Elephant");
        },
        CreatureType::Elephant => {
            reveal_strlit("Elephant");
            reveal_strlit("Elf");
        },
        CreatureType::Elf => {
            reveal_strlit("Elf");
            reveal_strlit("Elk");
        },
        CreatureType::Elk => {
            reveal_strlit("Elk");
            reveal_strlit("Elspeth");
        },
        CreatureType::Eye => {
            reveal_strlit("Eye");
            reveal_strlit("Fabacin");
        },
        CreatureType::Faerie => {
            reveal_strlit("Faerie");
            reveal_strlit("Ferret");
        },
        CreatureType::Ferret => {
            reveal_strlit("Ferret");
            reveal_strlit("Fish");
        },
        CreatureType::Fish => {
            reveal_strlit("Fish");
            reveal_strlit("Flagbearer");
        },
        CreatureType::Flagbearer => {
            reveal_strlit("Flagbearer");
            reveal_strlit("Forest");
        },
        CreatureType::Fox => {
            reveal_strlit("Fox");
            reveal_strlit("Freyalise");
        },
        CreatureType::Frog => {
            reveal_strlit("Frog");
            reveal_strlit("Fungus");
        },
        CreatureType::Fungus => {
            reveal_strlit("Fungus");
            reveal_strlit("Gargoyle");
        },
        CreatureType::Gargoyle => {
            reveal_strlit("Gargoyle");
            reveal_strlit("Garruk");
        },
        CreatureType::Germ => {
            reveal_strlit("Germ");
            reveal_strlit("Giant");
        },
        CreatureType::Giant => {
            reveal_strlit("Giant");
            reveal_strlit("Gideon");
        },
        CreatureType::Gnome => {
            reveal_strlit("Gnome");
            reveal_strlit("Goat");
        },
        CreatureType::Goat => {
            reveal_strlit("Goat");
            reveal_strlit("Goblin");
        },
        CreatureType::Goblin => {
            reveal_strlit("Goblin");
            reveal_strlit("God");
        },
        CreatureType::God => {
            reveal_strlit("God");
            reveal_strlit("Golem");
        },
        CreatureType::Golem => {
            reveal_strlit("Golem");
            reveal_strlit("Gorgon");
        },
        CreatureType::Gorgon => {
            reveal_strlit("Gorgon");
            reveal_strlit("Graveborn");
        },
        CreatureType::Graveborn => {
            reveal_strlit("Graveborn");
            reveal_strlit("Gremlin");
        },
        CreatureType::Gremlin => {
            reveal_strlit("Gremlin");
            reveal_strlit("Griffin");
        },
        CreatureType::Griffin => {
            reveal_strlit("Griffin");
            reveal_strlit("Hag");
        },
        CreatureType::Hag => {
            reveal_strlit("Hag");
            reveal_strlit("Harpy");
        },
        CreatureType::Harpy => {
            reveal_strlit("Harpy");
            reveal_strlit("Hellion");
        },
        CreatureType::Hellion => {
            reveal_strlit("Hellion");
            reveal_strlit("Hippo");
        },
        CreatureType::Hippo => {
            reveal_strlit("Hippo");
            reveal_strlit("Hippogriff");
        },
        CreatureType::Hippogriff => {
            reveal_strlit("Hippogriff");
            reveal_strlit("Homarid");
        },
        CreatureType::Homarid => {
            reveal_strlit("Homarid");
            reveal_strlit("Homunculus");
        },
        CreatureType::Homunculus => {
            reveal_strlit("Homunculus");
            reveal_strlit("Horror");
        },
        CreatureType::Horror => {
            reveal_strlit("Horror");
            reveal_strlit("Horse");
        },
        CreatureType::Horse => {
            reveal_strlit("Horse");
            reveal_strlit("Hound");
        },
        CreatureType::Hound => {
            reveal_strlit("Hound");
            reveal_strlit("Huatli");
        },
        CreatureType::Human => {
            reveal_strlit("Human");
            reveal_strlit("Hydra");
        },
        CreatureType::Hydra => {
            reveal_strlit("Hydra");
            reveal_strlit("Hyena");
        },
        CreatureType::Hyena => {
            reveal_strlit("Hyena");
            reveal_strlit("Illusion");
        },
        CreatureType::Illusion => {
            reveal_strlit("Illusion");
            reveal_strlit("Imp");
        },
        CreatureType::Imp => {
            reveal_strlit("Imp");
            reveal_strlit("Incarnation");
        },
        CreatureType::Incarnation => {
            reveal_strlit("Incarnation");
            reveal_strlit("Innistrad");
        },
        CreatureType::Insect => {
            reveal_strlit("Insect");
            reveal_strlit("Iquatana");
        },
        CreatureType::Jackal => {
            reveal_strlit("Jackal");
            reveal_strlit("Jaya");
        },
        CreatureType::Jellyfish => {
            reveal_strlit("Jellyfish");
            reveal_strlit("Juggernaut");
        },
        CreatureType::Juggernaut => {
            reveal_strlit("Juggernaut");
            reveal_strlit("Kaldheim");
        },
        CreatureType::Kavu => {
            reveal_strlit("Kavu");
            reveal_strlit("Kaya");
        },
        CreatureType::Kirin => {
            reveal_strlit("Kirin");
            reveal_strlit("Kithkin");
        },
        CreatureType::Kithkin => {
            reveal_strlit("Kithkin");
            reveal_strlit("Knight");
        },
        CreatureType::Knight => {
            reveal_strlit("Knight");
            reveal_strlit("Kobold");
        },
        CreatureType::Kobold => {
            reveal_strlit("Kobold");
            reveal_strlit("Kolbahan");
        },
        CreatureType::Kor => {
            reveal_strlit("Kor");
            reveal_strlit("Koth");
        },
        CreatureType::Kraken => {
            reveal_strlit("Kraken");
            reveal_strlit("Kyneth");
        },
        CreatureType::Lamia => {
            reveal_strlit("Lamia");
            reveal_strlit("Lammasu");
        },
        CreatureType::Lammasu => {
            reveal_strlit("Lammasu");
            reveal_strlit("Leech");
        },
        CreatureType::Leech => {
            reveal_strlit("Leech");
            reveal_strlit("Leviathan");
        },
        CreatureType::Leviathan => {
            reveal_strlit("Leviathan");
            reveal_strlit("Lhurgoyf");
        },
        CreatureType::Lhurgoyf => {
            reveal_strlit("Lhurgoyf");
            reveal_strlit("Licid");
        },
        CreatureType::Licid => {
            reveal_strlit("Licid");
            reveal_strlit("Liliana");
        },
        CreatureType::Lizard => {
            reveal_strlit("Lizard");
            reveal_strlit("Locus");
        },
        CreatureType::Manticore => {
            reveal_strlit("Manticore");
            reveal_strlit("Masticore");
        },
        CreatureType::Masticore => {
            reveal_strlit("Masticore");
            reveal_strlit("Mercadia");
        },
        CreatureType::Mercenary => {
            reveal_strlit("Mercenary");
            reveal_strlit("Merfolk");
        },
        CreatureType::Merfolk => {
            reveal_strlit("Merfolk");
            reveal_strlit("Metathran");
        },
        CreatureType::Metathran => {
            reveal_strlit("Metathran");
            reveal_strlit("Mine");
        },
        CreatureType::Minion => {
            reveal_strlit("Minion");
            reveal_strlit("Minotaur");
        },
        CreatureType::Minotaur => {
            reveal_strlit("Minotaur");
            reveal_strlit("Mirrodin");
        },
        CreatureType::Mole => {
            reveal_strlit("Mole");
            reveal_strlit("Monger");
        },
        CreatureType::Monger => {
            reveal_strlit("Monger");
            reveal_strlit("Mongoose");
        },
        CreatureType::Mongoose => {
            reveal_strlit("Mongoose");
            reveal_strlit("Mongseng");
        },
        CreatureType::Monk => {
            reveal_strlit("Monk");
            reveal_strlit("Monkey");
        },
        CreatureType::Monkey => {
            reveal_strlit("Monkey");
            reveal_strlit("Moonfolk");
        },
        CreatureType::Moonfolk => {
            reveal_strlit("Moonfolk");
            reveal_strlit("Mountain");
        },
        CreatureType::Mutant => {
            reveal_strlit("Mutant");
            reveal_strlit("Myr");
        },
        CreatureType::Myr => {
            reveal_strlit("Myr");
            reveal_strlit("Mystic");
        },
        CreatureType::Mystic => {
            reveal_strlit("Mystic");
            reveal_strlit("Naga");
        },
        CreatureType::Naga => {
            reveal_strlit("Naga");
            reveal_strlit("Nahiri");
        },
        CreatureType::Nautilus => {
            reveal_strlit("Nautilus");
            reveal_strlit("Nephilim");
        },
        CreatureType::Nephilim => {
            reveal_strlit("Nephilim");
            reveal_strlit("New Phyrexia");
        },
        CreatureType::Nightmare => {
            reveal_strlit("Nightmare");
            reveal_strlit("Nightstalker");
        },
        CreatureType::Nightstalker => {
            reveal_strlit("Nightstalker");
            reveal_strlit("Ninja");
        },
        CreatureType::Ninja => {
            reveal_strlit("Ninja");
            reveal_strlit("Nissa");
        },
        CreatureType::Noggle => {
            reveal_strlit("Noggle");
            reveal_strlit("Nomad");
        },
        CreatureType::Nomad => {
            reveal_strlit("Nomad");
            reveal_strlit("Nymph");
        },
        CreatureType::Nymph => {
            reveal_strlit("Nymph");
            reveal_strlit("Octopus");
        },
        CreatureType::Octopus => {
            reveal_strlit("Octopus");
            reveal_strlit("Ogre");
        },
        CreatureType::Ogre => {
            reveal_strlit("Ogre");
            reveal_strlit("Ooze");
        },
        CreatureType::Ooze => {
            reveal_strlit("Ooze");
            reveal_strlit("Orb");
        },
        CreatureType::Orb => {
            reveal_strlit("Orb");
            reveal_strlit("Orc");
        },
        CreatureType::Orc => {
            reveal_strlit("Orc");
            reveal_strlit("Orgg");
        },
        CreatureType::Orgg => {
            reveal_strlit("Orgg");
            reveal_strlit("Ouphe");
        },
        CreatureType::Ouphe => {
            reveal_strlit("Ouphe");
            reveal_strlit("Ox");
        },
        CreatureType::Ox => {
            reveal_strlit("Ox");
            reveal_strlit("Oyster");
        },
        CreatureType::Oyster => {
            reveal_strlit("Oyster");
            reveal_strlit("Pangolin");
        },
        CreatureType::Pangolin => {
            reveal_strlit("Pangolin");
            reveal_strlit("Pegasus");
        },
        CreatureType::Pegasus => {
            reveal_strlit("Pegasus");
            reveal_strlit("Pentavite");
        },
        CreatureType::Pentavite => {
            reveal_strlit("Pentavite");
            reveal_strlit("Pest");
        },
        CreatureType::Pest => {
            reveal_strlit("Pest");
            reveal_strlit("Phelddagrif");
        },
        CreatureType::Phelddagrif => {
            reveal_strlit("Phelddagrif");
            reveal_strlit("Phoenix");
        },
        CreatureType::Phoenix => {
            reveal_strlit("Phoenix");
            reveal_strlit("Phyrexia");
        },
        CreatureType::Pilot => {
            reveal_strlit("Pilot");
            reveal_strlit("Pincher");
        },
        CreatureType::Pincher => {
            reveal_strlit("Pincher");
            reveal_strlit("Pirate");
        },
        CreatureType::Pirate => {
            reveal_strlit("Pirate");
            reveal_strlit("Plains");
        },
        CreatureType::Plant => {
            reveal_strlit("Plant");
            reveal_strlit("Power-Plant");
        },
        CreatureType::Praetor => {
            reveal_strlit("Praetor");
            reveal_strlit("Prism");
        },
        CreatureType::Prism => {
            reveal_strlit("Prism");
            reveal_strlit("Processor");
        },
        CreatureType::Processor => {
            reveal_strlit("Processor");
            reveal_strlit("Pyrulea");
        },
        CreatureType::Rabbit => {
            reveal_strlit("Rabbit");
            reveal_strlit("Rabiah");
        },
        CreatureType::Rat => {
            reveal_strlit("Rat");
            reveal_strlit("Rath");
        },
        CreatureType::Rebel => {
            reveal_strlit("Rebel");
            reveal_strlit("Reflection");
        },
        CreatureType::Reflection => {
            reveal_strlit("Reflection");
            reveal_strlit("Regatha");
        },
        CreatureType::Rhino => {
            reveal_strlit("Rhino");
            reveal_strlit("Rigger");
        },
        CreatureType::Rigger => {
            reveal_strlit("Rigger");
            reveal_strlit("Rogue");
        },
        CreatureType::Rogue => {
            reveal_strlit("Rogue");
            reveal_strlit("Rowan");
        },
        CreatureType::Sable => {
            reveal_strlit("Sable");
            reveal_strlit("Saga");
        },
        CreatureType::Salamander => {
            reveal_strlit("Salamander");
            reveal_strlit("Samurai");
        },
        CreatureType::Samurai => {
            reveal_strlit("Samurai");
            reveal_strlit("Samut");
        },
        CreatureType::Sand => {
            reveal_strlit("Sand");
            reveal_strlit("Saproling");
        },
        CreatureType::Saproling => {
            reveal_strlit("Saproling");
            reveal_strlit("Sarkhan");
        },
        CreatureType::Satyr => {
            reveal_strlit("Satyr");
            reveal_strlit("Scarecrow");
        },
        CreatureType::Scarecrow => {
            reveal_strlit("Scarecrow");
            reveal_strlit("Scion");
        },
        CreatureType::Scion => {
            reveal_strlit("Scion");
            reveal_strlit("Scorpion");
        },
        CreatureType::Scorpion => {
            reveal_strlit("Scorpion");
            reveal_strlit("Scout");
        },
        CreatureType::Scout => {
            reveal_strlit("Scout");
            reveal_strlit("Segovia");
        },
        CreatureType::Serf => {
            reveal_strlit("Serf");
            reveal_strlit("Serpent");
        },
        CreatureType::Serpent => {
            reveal_strlit("Serpent");
            reveal_strlit("Serra's Realm");
        },
        CreatureType::Servo => {
            reveal_strlit("Servo");
            reveal_strlit("Shade");
        },
        CreatureType::Shade => {
            reveal_strlit("Shade");
            reveal_strlit("Shadowmoor");
        },
        CreatureType::Shaman => {
            reveal_strlit("Shaman");
            reveal_strlit("Shandalar");
        },
        CreatureType::Shapeshifter => {
            reveal_strlit("Shapeshifter");
            reveal_strlit("Sheep");
        },
        CreatureType::Sheep => {
            reveal_strlit("Sheep");
            reveal_strlit("Shrine");
        },
        CreatureType::Siren => {
            reveal_strlit("Siren");
            reveal_strlit("Skeleton");
        },
        CreatureType::Skeleton => {
            reveal_strlit("Skeleton");
            reveal_strlit("Slith");
        },
        CreatureType::Slith => {
            reveal_strlit("Slith");
            reveal_strlit("Sliver");
        },
        CreatureType::Sliver => {
            reveal_strlit("Sliver");
            reveal_strlit("Slug");
        },
        CreatureType::Slug => {
            reveal_strlit("Slug");
            reveal_strlit("Snake");
        },
        CreatureType::Snake => {
            reveal_strlit("Snake");
            reveal_strlit("Soldier");
        },
        CreatureType::Soldier => {
            reveal_strlit("Soldier");
            reveal_strlit("Soltari");
        },
        CreatureType::Soltari => {
            reveal_strlit("Soltari");
            reveal_strlit("Sorin");
        },
        CreatureType::Spawn => {
            reveal_strlit("Spawn");
            reveal_strlit("Specter");
        },
        CreatureType::Specter => {
            reveal_strlit("Specter");
            reveal_strlit("Spellshaper");
        },
        CreatureType::Spellshaper => {
            reveal_strlit("Spellshaper");
            reveal_strlit("Sphinx");
        },
        CreatureType::Sphinx => {
            reveal_strlit("Sphinx");
            reveal_strlit("Spider");
        },
        CreatureType::Spider => {
            reveal_strlit("Spider");
            reveal_strlit("Spike");
        },
        CreatureType::Spike => {
            reveal_strlit("Spike");
            reveal_strlit("Spirit");
        },
        CreatureType::Spirit => {
            reveal_strlit("Spirit");
            reveal_strlit("Splinter");
        },
        CreatureType::Splinter => {
            reveal_strlit("Splinter");
            reveal_strlit("Sponge");
        },
        CreatureType::Sponge => {
            reveal_strlit("Sponge");
            reveal_strlit("Squid");
        },
        CreatureType::Squid => {
            reveal_strlit("Squid");
            reveal_strlit("Squirrel");
        },
        CreatureType::Squirrel => {
            reveal_strlit("Squirrel");
            reveal_strlit("Starfish");
        },
        CreatureType::Starfish => {
            reveal_strlit("Starfish");
            reveal_strlit("Surrakar");
        },
        CreatureType::Surrakar => {
            reveal_strlit("Surrakar");
            reveal_strlit("Survivor");
        },
        CreatureType::Survivor => {
            reveal_strlit("Survivor");
            reveal_strlit("Swamp");
        },
        CreatureType::Tetravite => {
            reveal_strlit("Tetravite");
            reveal_strlit("Tezzeret");
        },
        CreatureType::Thalakos => {
            reveal_strlit("Thalakos");
            reveal_strlit("Thopter");
        },
        CreatureType::Thopter => {
            reveal_strlit("Thopter");
            reveal_strlit("Thrull");
        },
        CreatureType::Thrull => {
            reveal_strlit("Thrull");
            reveal_strlit("Tibalt");
        },
        CreatureType::Treefolk => {
            reveal_strlit("Treefolk");
            reveal_strlit("Trilobite");
        },
        CreatureType::Trilobite => {
            reveal_strlit("Trilobite");
            reveal_strlit("Triskelavite");
        },
        CreatureType::Triskelavite => {
            reveal_strlit("Triskelavite");
            reveal_strlit("Troll");
        },
        CreatureType::Troll => {
            reveal_strlit("Troll");
            reveal_strlit("Turtle");
        },
        CreatureType::Turtle => {
            reveal_strlit("Turtle");
            reveal_strlit("Ugin");
        },
        CreatureType::Unicorn => {
            reveal_strlit("Unicorn");
            reveal_strlit("Urza's");
        },
        CreatureType::Vampire => {
            reveal_strlit("Vampire");
            reveal_strlit("Vedalken");
        },
        CreatureType::Vedalken => {
            reveal_strlit("Vedalken");
            reveal_strlit("Vehicle");
        },
        CreatureType::Viashino => {
            reveal_strlit("Viashino");
            reveal_strlit("Vivien");
        },
        CreatureType::Volver => {
            reveal_strlit("Volver");
            reveal_strlit("Vraska");
        },
        CreatureType::Wall => {
            reveal_strlit("Wall");
            reveal_strlit("Warrior");
        },
        CreatureType::Warrior => {
            reveal_strlit("Warrior");
            reveal_strlit("Weird");
        },
        CreatureType::Weird => {
            reveal_strlit("Weird");
            reveal_strlit("Werewolf");
        },
        CreatureType::Werewolf => {
            reveal_strlit("Werewolf");
            reveal_strlit("Whale");
        },
        CreatureType::Whale => {
            reveal_strlit("Whale");
            reveal_strlit("Wildfire");
        },
        CreatureType::Wizard => {
            reveal_strlit("Wizard");
            reveal_strlit("Wolf");
        },
        CreatureType::Wolf => {
            reveal_strlit("Wolf");
            reveal_strlit("Wolverine");
        },
        CreatureType::Wolverine => {
            reveal_strlit("Wolverine");
            reveal_strlit("Wombat");
        },
        CreatureType::Wombat => {
            reveal_strlit("Wombat");
            reveal_strlit("Worm");
        },
        CreatureType::Worm => {
            reveal_strlit("Worm");
            reveal_strlit("Wraith");
        },
        CreatureType::Wraith => {
            reveal_strlit("Wraith");
            reveal_strlit("Wurm");
        },
        CreatureType::Wurm => {
            reveal_strlit("Wurm");
            reveal_strlit("Xenagos");
        },
        CreatureType::Yeti => {
            reveal_strlit("Yeti");
            reveal_strlit("Zendikar");
        },
        CreatureType::Zombie => {
            reveal_strlit("Zombie");
            reveal_strlit("Zubera");
        },
        CreatureType::Zubera => {
            reveal_strlit("Zubera");
        },
    }
}

/// The rank facts for each PlanarType name, and that it is a single word unless
/// it is one of the names of several words.
proof fn lemma_planar_type_rank(x: PlanarType)
    ensures
        0 <= subtype_rank(Subtype::Plane(x)) < 357,
        subtype_of_rank(subtype_rank(Subtype::Plane(x))) == Subtype::Plane(x),
        subtype_rank(Subtype::Plane(x)) + 1 < 357 ==> subtype_rank(
            subtype_of_rank(subtype_rank(Subtype::Plane(x)) + 1),
        ) == subtype_rank(Subtype::Plane(x)) + 1 && lex_lt(
            x.text(),
            subtype_of_rank(subtype_rank(Subtype::Plane(x)) + 1).text(),
        ),
        is_multi_word(Subtype::Plane(x)) || plain_from(x.text(), 0),
        x.text().len() > 0,
{
    reveal(ArtifactType::text);
    reveal(EnchantmentType::text);
    reveal(LandType::text);
    reveal(PlaneswalkerType::text);
    reveal(SpellType::text);
    reveal(CreatureType::text);
    reveal(PlanarType::text);
    reveal_with_fuel(lex_lt_from, 8);
    reveal_with_fuel(plain_from, 25);
    match x {
        PlanarType::Alara => {
            reveal_strlit("Alara");
            reveal_strlit("Ally");
        },
        PlanarType::Arkhos => {
            reveal_strlit("Arkhos");
            reveal_strlit("Arlinn");
        },
        PlanarType::Azgol => {
            reveal_strlit("Azgol");
            reveal_strlit("Azra");
        },
        PlanarType::Belenon => {
            reveal_strlit("Belenon");
            reveal_strlit("Berserker");
        },
        PlanarType::BolassMeditationRealm => {
            reveal_strlit("Bolas's Meditation Realm");
            reveal_strlit("Bringer");
        },
        PlanarType::Dominaria => {
            reveal_strlit("Dominaria");
            reveal_strlit("Domri");
        },
        PlanarType::Equilor => {
            reveal_strlit("Equilor");
            reveal_strlit("Equipment");
        },
        PlanarType::Ergamon => {
            reveal_strlit("Ergamon");
            reveal_strlit("Estrid");
        },
        PlanarType::Fabacin => {
            reveal_strlit("Fabacin");
            reveal_strlit("Faerie");
        },
        PlanarType::Innistrad => {
            reveal_strlit("Innistrad");
            reveal_strlit("Insect");
        },
        PlanarType::Iquatana => {
            reveal_strlit("Iquatana");
            reveal_strlit("Ir");
        },
        PlanarType::Ir => {
            reveal_strlit("Ir");
            reveal_strlit("Island");
        },
        PlanarType::Kaldheim => {
            reveal_strlit("Kaldheim");
            reveal_strlit("Kamigawa");
        },
        PlanarType::Kamigawa => {
            reveal_strlit("Kamigawa");
            reveal_strlit("Karn");
        },
        PlanarType::Karsus => {
            reveal_strlit("Karsus");
            reveal_strlit("Kavu");
        },
        PlanarType::Kephalai => {
            reveal_strlit("Kephalai");
            reveal_strlit("Kinshala");
        },
        PlanarType::Kinshala => {
            reveal_strlit("Kinshala");
            reveal_strlit("Kiora");
        },
        PlanarType::Kolbahan => {
            reveal_strlit("Kolbahan");
            reveal_strlit("Kor");
        },
        PlanarType::Kyneth => {
            reveal_strlit("Kyneth");
            reveal_strlit("Lair");
        },
        PlanarType::Lorwyn => {
            reveal_strlit("Lorwyn");
            reveal_strlit("Luvion");
        },
        PlanarType::Luvion => {
            reveal_strlit("Luvion");
            reveal_strlit("Manticore");
        },
        PlanarType::Mercadia => {
            reveal_strlit("Mercadia");
            reveal_strlit("Mercenary");
        },
        PlanarType::Mirrodin => {
            reveal_strlit("Mirrodin");
            reveal_strlit("Moag");
        },
        PlanarType::Moag => {
            reveal_strlit("Moag");
            reveal_strlit("Mole");
        },
        PlanarType::Mongseng => {
            reveal_strlit("Mongseng");
            reveal_strlit("Monk");
        },
        PlanarType::Muraganda => {
            reveal_strlit("Muraganda");
            reveal_strlit("Mutant");
        },
        PlanarType::NewPhyrexia => {
            reveal_strlit("New Phyrexia");
            reveal_strlit("Nightmare");
        },
        PlanarType::Phyrexia => {
            reveal_strlit("Phyrexia");
            reveal_strlit("Pilot");
        },
        PlanarType::Pyrulea => {
            reveal_strlit("Pyrulea");
            reveal_strlit("Rabbit");
        },
        PlanarType::Rabiah => {
            reveal_strlit("Rabiah");
            reveal_strlit("Ral");
        },
        PlanarType::Rath => {
            reveal_strlit("Rath");
            reveal_strlit("Ravnica");
        },
        PlanarType::Ravnica => {
            reveal_strlit("Ravnica");
            reveal_strlit("Rebel");
        },
        PlanarType::Regatha => {
            reveal_strlit("Regatha");
            reveal_strlit("Rhino");
        },
        PlanarType::Segovia => {
            reveal_strlit("Segovia");
            reveal_strlit("Serf");
        },
        PlanarType::SerrasRealm => {
            reveal_strlit("Serra's Realm");
            reveal_strlit("Servo");
        },
        PlanarType::Shadowmoor => {
            reveal_strlit("Shadowmoor");
            reveal_strlit("Shaman");
        },
        PlanarType::Shandalar => {
            reveal_strlit("Shandalar");
            reveal_strlit("Shapeshifter");
        },
        PlanarType::Ulgrotha => {
            reveal_strlit("Ulgrotha");
            reveal_strlit("Unicorn");
        },
        PlanarType::Valla => {
            reveal_strlit("Valla");
            reveal_strlit("Vampire");
        },
        PlanarType::Vryn => {
            reveal_strlit("Vryn");
            reveal_strlit("Wall");
        },
        PlanarType::Wildfire => {
            reveal_strlit("Wildfire");
            reveal_strlit("Will");
        },
        PlanarType::Xerex => {
            reveal_strlit("Xerex");
            reveal_strlit("Yanggu");
        },
        PlanarType::Zendikar => {
            reveal_strlit("Zendikar");
            reveal_strlit("Zombie");
        },
    }
}

proof fn lemma_subtype_rank(x: Subtype)
    ensures
        0 <= subtype_rank(x) < 357,
        subtype_of_rank(subtype_rank(x)) == x,
        subtype_rank(x) + 1 < 357 ==> subtype_rank(subtype_of_rank(subtype_rank(x) + 1))
            == subtype_rank(x) + 1 && lex_lt(x.text(), subtype_of_rank(subtype_rank(x) + 1).text()),
        is_multi_word(x) || plain_from(x.text(), 0),
        x.text().len() > 0,
{
    match x {
        Subtype::Artifact(y) => lemma_artifact_type_rank(y),
        Subtype::Enchantment(y) => lemma_enchantment_type_rank(y),
        Subtype::Land(y) => lemma_land_type_rank(y),
        Subtype::Planeswalker(y) => lemma_planeswalker_type_rank(y),
        Subtype::Spell(y) => lemma_spell_type_rank(y),
        Subtype::Creature(y) => lemma_creature_type_rank(y),
        Subtype::Plane(y) => lemma_planar_type_rank(y),
    }
}

/// The subtypes whose names have more than one word.
pub open spec fn is_multi_word(x: Subtype) -> bool {
    ||| x == Subtype::Plane(PlanarType::BolassMeditationRealm)
    ||| x == Subtype::Plane(PlanarType::NewPhyrexia)
    ||| x == Subtype::Plane(PlanarType::SerrasRealm)
}

/// Position of the name in the alphabetical order of the names.
pub open spec fn subtype_rank(x: Subtype) -> int {
    match x {
        Subtype::Artifact(ArtifactType::Clue) => 53,
        Subtype::Artifact(ArtifactType::Contraption) => 56,
        Subtype::Artifact(ArtifactType::Equipment) => 91,
        Subtype::Artifact(ArtifactType::Fortification) => 101,
        Subtype::Artifact(ArtifactType::Treasure) => 314,
        Subtype::Artifact(ArtifactType::Vehicle) => 327,
        Subtype::Enchantment(EnchantmentType::Aura) => 20,
        Subtype::Enchantment(EnchantmentType::Cartouche) => 45,
        Subtype::Enchantment(EnchantmentType::Curse) => 60,
        Subtype::Enchantment(EnchantmentType::Saga) => 255,
        Subtype::Enchantment(EnchantmentType::Shrine) => 279,
        Subtype::Land(LandType::Desert) => 66,
        Subtype::Land(LandType::Forest) => 100,
        Subtype::Land(LandType::Gate) => 108,
        Subtype::Land(LandType::Island) => 142,
        Subtype::Land(LandType::Lair) => 166,
        Subtype::Land(LandType::Locus) => 175,
        Subtype::Land(LandType::Mine) => 184,
        Subtype::Land(LandType::Mountain) => 196,
        Subtype::Land(LandType::Plains) => 234,
        Subtype::Land(LandType::PowerPlant) => 236,
        Subtype::Land(LandType::Swamp) => 303,
        Subtype::Land(LandType::Tower) => 312,
        Subtype::Land(LandType::Urzas) => 323,
        Subtype::Planeswalker(PlaneswalkerType::Ajani) => 2,
        Subtype::Planeswalker(PlaneswalkerType::Aminatou) => 5,
        Subtype::Planeswalker(PlaneswalkerType::Angrath) => 7,
        Subtype::Planeswalker(PlaneswalkerType::Arlinn) => 14,
        Subtype::Planeswalker(PlaneswalkerType::Ashiok) => 16,
        Subtype::Planeswalker(PlaneswalkerType::Bolas) => 37,
        Subtype::Planeswalker(PlaneswalkerType::Chandra) => 49,
        Subtype::Planeswalker(PlaneswalkerType::Dack) => 62,
        Subtype::Planeswalker(PlaneswalkerType::Daretti) => 63,
        Subtype::Planeswalker(PlaneswalkerType::Domri) => 72,
        Subtype::Planeswalker(PlaneswalkerType::Dovin) => 73,
        Subtype::Planeswalker(PlaneswalkerType::Elspeth) => 89,
        Subtype::Planeswalker(PlaneswalkerType::Estrid) => 93,
        Subtype::Planeswalker(PlaneswalkerType::Freyalise) => 103,
        Subtype::Planeswalker(PlaneswalkerType::Garruk) => 107,
        Subtype::Planeswalker(PlaneswalkerType::Gideon) => 111,
        Subtype::Planeswalker(PlaneswalkerType::Huatli) => 131,
        Subtype::Planeswalker(PlaneswalkerType::Jace) => 143,
        Subtype::Planeswalker(PlaneswalkerType::Jaya) => 145,
        Subtype::Planeswalker(PlaneswalkerType::Karn) => 150,
        Subtype::Planeswalker(PlaneswalkerType::Kaya) => 153,
        Subtype::Planeswalker(PlaneswalkerType::Kiora) => 156,
        Subtype::Planeswalker(PlaneswalkerType::Koth) => 163,
        Subtype::Planeswalker(PlaneswalkerType::Liliana) => 173,
        Subtype::Planeswalker(PlaneswalkerType::Nahiri) => 202,
        Subtype::Planeswalker(PlaneswalkerType::Narset) => 203,
        Subtype::Planeswalker(PlaneswalkerType::Nissa) => 210,
        Subtype::Planeswalker(PlaneswalkerType::Nixilis) => 211,
        Subtype::Planeswalker(PlaneswalkerType::Ral) => 243,
        Subtype::Planeswalker(PlaneswalkerType::Rowan) => 253,
        Subtype::Planeswalker(PlaneswalkerType::Saheeli) => 256,
        Subtype::Planeswalker(PlaneswalkerType::Samut) => 259,
        Subtype::Planeswalker(PlaneswalkerType::Sarkhan) => 262,
        Subtype::Planeswalker(PlaneswalkerType::Sorin) => 288,
        Subtype::Planeswalker(PlaneswalkerType::Tamiyo) => 304,
        Subtype::Planeswalker(PlaneswalkerType::Teferi) => 305,
        Subtype::Planeswalker(PlaneswalkerType::Tezzeret) => 307,
        Subtype::Planeswalker(PlaneswalkerType::Tibalt) => 311,
        Subtype::Planeswalker(PlaneswalkerType::Ugin) => 320,
        Subtype::Planeswalker(PlaneswalkerType::Venser) => 328,
        Subtype::Planeswalker(PlaneswalkerType::Vivien) => 330,
        Subtype::Planeswalker(PlaneswalkerType::Vraska) => 332,
        Subtype::Planeswalker(PlaneswalkerType::Will) => 340,
        Subtype::Planeswalker(PlaneswalkerType::Windgrace) => 341,
        Subtype::Planeswalker(PlaneswalkerType::Xenagos) => 349,
        Subtype::Planeswalker(PlaneswalkerType::Yanggu) => 351,
        Subtype::Planeswalker(PlaneswalkerType::Yanling) => 352,
        Subtype::Spell(SpellType::Arcane) => 10,
        Subtype::Spell(SpellType::Trap) => 313,
        Subtype::Creature(CreatureType::Advisor) => 0,
        Subtype::Creature(CreatureType::Aetherborn) => 1,
        Subtype::Creature(CreatureType::Ally) => 4,
        Subtype::Creature(CreatureType::Angel) => 6,
        Subtype::Creature(CreatureType::Antelope) => 8,
        Subtype::Creature(CreatureType::Ape) => 9,
        Subtype::Creature(CreatureType::Archer) => 11,
        Subtype::Creature(CreatureType::Archon) => 12,
        Subtype::Creature(CreatureType::Artificer) => 15,
        Subtype::Creature(CreatureType::Assassin) => 17,
        Subtype::Creature(CreatureType::AssemblyWorker) => 18,
        Subtype::Creature(CreatureType::Atog) => 19,
        Subtype::Creature(CreatureType::Aurochs) => 21,
        Subtype::Creature(CreatureType::Avatar) => 22,
        Subtype::Creature(CreatureType::Azra) => 24,
        Subtype::Creature(CreatureType::Badger) => 25,
        Subtype::Creature(CreatureType::Barbarian) => 26,
        Subtype::Creature(CreatureType::Basilisk) => 27,
        Subtype::Creature(CreatureType::Bat) => 28,
        Subtype::Creature(CreatureType::Bear) => 29,
        Subtype::Creature(CreatureType::Beast) => 30,
        Subtype::Creature(CreatureType::Beeble) => 31,
        Subtype::Creature(CreatureType::Berserker) => 33,
        Subtype::Creature(CreatureType::Bird) => 34,
        Subtype::Creature(CreatureType::Blinkmoth) => 35,
        Subtype::Creature(CreatureType::Boar) => 36,
        Subtype::Creature(CreatureType::Bringer) => 39,
        Subtype::Creature(CreatureType::Brushwagg) => 40,
        Subtype::Creature(CreatureType::Camarid) => 41,
        Subtype::Creature(CreatureType::Camel) => 42,
        Subtype::Creature(CreatureType::Caribou) => 43,
        Subtype::Creature(CreatureType::Carrier) => 44,
        Subtype::Creature(CreatureType::Cat) => 46,
        Subtype::Creature(CreatureType::Centaur) => 47,
        Subtype::Creature(CreatureType::Cephalid) => 48,
        Subtype::Creature(CreatureType::Chimera) => 50,
        Subtype::Creature(CreatureType::Citizen) => 51,
        Subtype::Creature(CreatureType::Cleric) => 52,
        Subtype::Creature(CreatureType::Cockatrice) => 54,
        Subtype::Creature(CreatureType::Construct) => 55,
        Subtype::Creature(CreatureType::Coward) => 57,
        Subtype::Creature(CreatureType::Crab) => 58,
        Subtype::Creature(CreatureType::Crocodile) => 59,
        Subtype::Creature(CreatureType::Cyclops) => 61,
        Subtype::Creature(CreatureType::Dauthi) => 64,
        Subtype::Creature(CreatureType::Demon) => 65,
        Subtype::Creature(CreatureType::Deserter) => 67,
        Subtype::Creature(CreatureType::Devil) => 68,
        Subtype::Creature(CreatureType::Dinosaur) => 69,
        Subtype::Creature(CreatureType::Djinn) => 70,
        Subtype::Creature(CreatureType::Dragon) => 74,
        Subtype::Creature(CreatureType::Drake) => 75,
        Subtype::Creature(CreatureType::Dreadnought) => 76,
        Subtype::Creature(CreatureType::Drone) => 77,
        Subtype::Creature(CreatureType::Druid) => 78,
        Subtype::Creature(CreatureType::Dryad) => 79,
        Subtype::Creature(CreatureType::Dwarf) => 80,
        Subtype::Creature(CreatureType::Efreet) => 81,
        Subtype::Creature(CreatureType::Egg) => 82,
        Subtype::Creature(CreatureType::Elder) => 83,
        Subtype::Creature(CreatureType::Eldrazi) => 84,
        Subtype::Creature(CreatureType::Elemental) => 85,
        Subtype::Creature(CreatureType::Elephant) => 86,
        Subtype::Creature(CreatureType::Elf) => 87,
        Subtype::Creature(CreatureType::Elk) => 88,
        Subtype::Creature(CreatureType::Eye) => 94,
        Subtype::Creature(CreatureType::Faerie) => 96,
        Subtype::Creature(CreatureType::Ferret) => 97,
        Subtype::Creature(CreatureType::Fish) => 98,
        Subtype::Creature(CreatureType::Flagbearer) => 99,
        Subtype::Creature(CreatureType::Fox) => 102,
        Subtype::Creature(CreatureType::Frog) => 104,
        Subtype::Creature(CreatureType::Fungus) => 105,
        Subtype::Creature(CreatureType::Gargoyle) => 106,
        Subtype::Creature(CreatureType::Germ) => 109,
        Subtype::Creature(CreatureType::Giant) => 110,
        Subtype::Creature(CreatureType::Gnome) => 112,
        Subtype::Creature(CreatureType::Goat) => 113,
        Subtype::Creature(CreatureType::Goblin) => 114,
        Subtype::Creature(CreatureType::God) => 115,
        Subtype::Creature(CreatureType::Golem) => 116,
        Subtype::Creature(CreatureType::Gorgon) => 117,
        Subtype::Creature(CreatureType::Graveborn) => 118,
        Subtype::Creature(CreatureType::Gremlin) => 119,
        Subtype::Creature(CreatureType::Griffin) => 120,
        Subtype::Creature(CreatureType::Hag) => 121,
        Subtype::Creature(CreatureType::Harpy) => 122,
        Subtype::Creature(CreatureType::Hellion) => 123,
        Subtype::Creature(CreatureType::Hippo) => 124,
        Subtype::Creature(CreatureType::Hippogriff) => 125,
        Subtype::Creature(CreatureType::Homarid) => 126,
        Subtype::Creature(CreatureType::Homunculus) => 127,
        Subtype::Creature(CreatureType::Horror) => 128,
        Subtype::Creature(CreatureType::Horse) => 129,
        Subtype::Creature(CreatureType::Hound) => 130,
        Subtype::Creature(CreatureType::Human) => 132,
        Subtype::Creature(CreatureType::Hydra) => 133,
        Subtype::Creature(CreatureType::Hyena) => 134,
        Subtype::Creature(CreatureType::Illusion) => 135,
        Subtype::Creature(CreatureType::Imp) => 136,
        Subtype::Creature(CreatureType::Incarnation) => 137,
        Subtype::Creature(CreatureType::Insect) => 139,
        Subtype::Creature(CreatureType::Jackal) => 144,
        Subtype::Creature(CreatureType::Jellyfish) => 146,
        Subtype::Creature(CreatureType::Juggernaut) => 147,
        Subtype::Creature(CreatureType::Kavu) => 152,
        Subtype::Creature(CreatureType::Kirin) => 157,
        Subtype::Creature(CreatureType::Kithkin) => 158,
        Subtype::Creature(CreatureType::Knight) => 159,
        Subtype::Creature(CreatureType::Kobold) => 160,
        Subtype::Creature(CreatureType::Kor) => 162,
        Subtype::Creature(CreatureType::Kraken) => 164,
        Subtype::Creature(CreatureType::Lamia) => 167,
        Subtype::Creature(CreatureType::Lammasu) => 168,
        Subtype::Creature(CreatureType::Leech) => 169,
        Subtype::Creature(CreatureType::Leviathan) => 170,
        Subtype::Creature(CreatureType::Lhurgoyf) => 171,
        Subtype::Creature(CreatureType::Licid) => 172,
        Subtype::Creature(CreatureType::Lizard) => 174,
        Subtype::Creature(CreatureType::Manticore) => 178,
        Subtype::Creature(CreatureType::Masticore) => 179,
        Subtype::Creature(CreatureType::Mercenary) => 181,
        Subtype::Creature(CreatureType::Merfolk) => 182,
        Subtype::Creature(CreatureType::Metathran) => 183,
        Subtype::Creature(CreatureType::Minion) => 185,
        Subtype::Creature(CreatureType::Minotaur) => 186,
        Subtype::Creature(CreatureType::Mole) => 189,
        Subtype::Creature(CreatureType::Monger) => 190,
        Subtype::Creature(CreatureType::Mongoose) => 191,
        Subtype::Creature(CreatureType::Monk) => 193,
        Subtype::Creature(CreatureType::Monkey) => 194,
        Subtype::Creature(CreatureType::Moonfolk) => 195,
        Subtype::Creature(CreatureType::Mutant) => 198,
        Subtype::Creature(CreatureType::Myr) => 199,
        Subtype::Creature(CreatureType::Mystic) => 200,
        Subtype::Creature(CreatureType::Naga) => 201,
        Subtype::Creature(CreatureType::Nautilus) => 204,
        Subtype::Creature(CreatureType::Nephilim) => 205,
        Subtype::Creature(CreatureType::Nightmare) => 207,
        Subtype::Creature(CreatureType::Nightstalker) => 208,
        Subtype::Creature(CreatureType::Ninja) => 209,
        Subtype::Creature(CreatureType::Noggle) => 212,
        Subtype::Creature(CreatureType::Nomad) => 213,
        Subtype::Creature(CreatureType::Nymph) => 214,
        Subtype::Creature(CreatureType::Octopus) => 215,
        Subtype::Creature(CreatureType::Ogre) => 216,
        Subtype::Creature(CreatureType::Ooze) => 217,
        Subtype::Creature(CreatureType::Orb) => 218,
        Subtype::Creature(CreatureType::Orc) => 219,
        Subtype::Creature(CreatureType::Orgg) => 220,
        Subtype::Creature(CreatureType::Ouphe) => 221,
        Subtype::Creature(CreatureType::Ox) => 222,
        Subtype::Creature(CreatureType::Oyster) => 223,
        Subtype::Creature(CreatureType::Pangolin) => 224,
        Subtype::Creature(CreatureType::Pegasus) => 225,
        Subtype::Creature(CreatureType::Pentavite) => 226,
        Subtype::Creature(CreatureType::Pest) => 227,
        Subtype::Creature(CreatureType::Phelddagrif) => 228,
        Subtype::Creature(CreatureType::Phoenix) => 229,
        Subtype::Creature(CreatureType::Pilot) => 231,
        Subtype::Creature(CreatureType::Pincher) => 232,
        Subtype::Creature(CreatureType::Pirate) => 233,
        Subtype::Creature(CreatureType::Plant) => 235,
        Subtype::Creature(CreatureType::Praetor) => 237,
        Subtype::Creature(CreatureType::Prism) => 238,
        Subtype::Creature(CreatureType::Processor) => 239,
        Subtype::Creature(CreatureType::Rabbit) => 241,
        Subtype::Creature(CreatureType::Rat) => 244,
        Subtype::Creature(CreatureType::Rebel) => 247,
        Subtype::Creature(CreatureType::Reflection) => 248,
        Subtype::Creature(CreatureType::Rhino) => 250,
        Subtype::Creature(CreatureType::Rigger) => 251,
        Subtype::Creature(CreatureType::Rogue) => 252,
        Subtype::Creature(CreatureType::Sable) => 254,
        Subtype::Creature(CreatureType::Salamander) => 257,
        Subtype::Creature(CreatureType::Samurai) => 258,
        Subtype::Creature(CreatureType::Sand) => 260,
        Subtype::Creature(CreatureType::Saproling) => 261,
        Subtype::Creature(CreatureType::Satyr) => 263,
        Subtype::Creature(CreatureType::Scarecrow) => 264,
        Subtype::Creature(CreatureType::Scion) => 265,
        Subtype::Creature(CreatureType::Scorpion) => 266,
        Subtype::Creature(CreatureType::Scout) => 267,
        Subtype::Creature(CreatureType::Serf) => 269,
        Subtype::Creature(CreatureType::Serpent) => 270,
        Subtype::Creature(CreatureType::Servo) => 272,
        Subtype::Creature(CreatureType::Shade) => 273,
        Subtype::Creature(CreatureType::Shaman) => 275,
        Subtype::Creature(CreatureType::Shapeshifter) => 277,
        Subtype::Creature(CreatureType::Sheep) => 278,
        Subtype::Creature(CreatureType::Siren) => 280,
        Subtype::Creature(CreatureType::Skeleton) => 281,
        Subtype::Creature(CreatureType::Slith) => 282,
        Subtype::Creature(CreatureType::Sliver) => 283,
        Subtype::Creature(CreatureType::Slug) => 284,
        Subtype::Creature(CreatureType::Snake) => 285,
        Subtype::Creature(CreatureType::Soldier) => 286,
        Subtype::Creature(CreatureType::Soltari) => 287,
        Subtype::Creature(CreatureType::Spawn) => 289,
        Subtype::Creature(CreatureType::Specter) => 290,
        Subtype::Creature(CreatureType::Spellshaper) => 291,
        Subtype::Creature(CreatureType::Sphinx) => 292,
        Subtype::Creature(CreatureType::Spider) => 293,
        Subtype::Creature(CreatureType::Spike) => 294,
        Subtype::Creature(CreatureType::Spirit) => 295,
        Subtype::Creature(CreatureType::Splinter) => 296,
        Subtype::Creature(CreatureType::Sponge) => 297,
        Subtype::Creature(CreatureType::Squid) => 298,
        Subtype::Creature(CreatureType::Squirrel) => 299,
        Subtype::Creature(CreatureType::Starfish) => 300,
        Subtype::Creature(CreatureType::Surrakar) => 301,
        Subtype::Creature(CreatureType::Survivor) => 302,
        Subtype::Creature(CreatureType::Tetravite) => 306,
        Subtype::Creature(CreatureType::Thalakos) => 308,
        Subtype::Creature(CreatureType::Thopter) => 309,
        Subtype::Creature(CreatureType::Thrull) => 310,
        Subtype::Creature(CreatureType::Treefolk) => 315,
        Subtype::Creature(CreatureType::Trilobite) => 316,
        Subtype::Creature(CreatureType::Triskelavite) => 317,
        Subtype::Creature(CreatureType::Troll) => 318,
        Subtype::Creature(CreatureType::Turtle) => 319,
        Subtype::Creature(CreatureType::Unicorn) => 322,
        Subtype::Creature(CreatureType::Vampire) => 325,
        Subtype::Creature(CreatureType::Vedalken) => 326,
        Subtype::Creature(CreatureType::Viashino) => 329,
        Subtype::Creature(CreatureType::Volver) => 331,
        Subtype::Creature(CreatureType::Wall) => 334,
        Subtype::Creature(CreatureType::Warrior) => 335,
        Subtype::Creature(CreatureType::Weird) => 336,
        Subtype::Creature(CreatureType::Werewolf) => 337,
        Subtype::Creature(CreatureType::Whale) => 338,
        Subtype::Creature(CreatureType::Wizard) => 342,
        Subtype::Creature(CreatureType::Wolf) => 343,
        Subtype::Creature(CreatureType::Wolverine) => 344,
        Subtype::Creature(CreatureType::Wombat) => 345,
        Subtype::Creature(CreatureType::Worm) => 346,
        Subtype::Creature(CreatureType::Wraith) => 347,
        Subtype::Creature(CreatureType::Wurm) => 348,
        Subtype::Creature(CreatureType::Yeti) => 353,
        Subtype::Creature(CreatureType::Zombie) => 355,
        Subtype::Creature(CreatureType::Zubera) => 356,
        Subtype::Plane(PlanarType::Alara) => 3,
        Subtype::Plane(PlanarType::Arkhos) => 13,
        Subtype::Plane(PlanarType::Azgol) => 23,
        Subtype::Plane(PlanarType::Belenon) => 32,
        Subtype::Plane(PlanarType::BolassMeditationRealm) => 38,
        Subtype::Plane(PlanarType::Dominaria) => 71,
        Subtype::Plane(PlanarType::Equilor) => 90,
        Subtype::Plane(PlanarType::Ergamon) => 92,
        Subtype::Plane(PlanarType::Fabacin) => 95,
        Subtype::Plane(PlanarType::Innistrad) => 138,
        Subtype::Plane(PlanarType::Iquatana) => 140,
        Subtype::Plane(PlanarType::Ir) => 141,
        Subtype::Plane(PlanarType::Kaldheim) => 148,
        Subtype::Plane(PlanarType::Kamigawa) => 149,
        Subtype::Plane(PlanarType::Karsus) => 151,
        Subtype::Plane(PlanarType::Kephalai) => 154,
        Subtype::Plane(PlanarType::Kinshala) => 155,
        Subtype::Plane(PlanarType::Kolbahan) => 161,
        Subtype::Plane(PlanarType::Kyneth) => 165,
        Subtype::Plane(PlanarType::Lorwyn) => 176,
        Subtype::Plane(PlanarType::Luvion) => 177,
        Subtype::Plane(PlanarType::Mercadia) => 180,
        Subtype::Plane(PlanarType::Mirrodin) => 187,
        Subtype::Plane(PlanarType::Moag) => 188,
        Subtype::Plane(PlanarType::Mongseng) => 192,
        Subtype::Plane(PlanarType::Muraganda) => 197,
        Subtype::Plane(PlanarType::NewPhyrexia) => 206,
        Subtype::Plane(PlanarType::Phyrexia) => 230,
        Subtype::Plane(PlanarType::Pyrulea) => 240,
        Subtype::Plane(PlanarType::Rabiah) => 242,
        Subtype::Plane(PlanarType::Rath) => 245,
        Subtype::Plane(PlanarType::Ravnica) => 246,
        Subtype::Plane(PlanarType::Regatha) => 249,
        Subtype::Plane(PlanarType::Segovia) => 268,
        Subtype::Plane(PlanarType::SerrasRealm) => 271,
        Subtype::Plane(PlanarType::Shadowmoor) => 274,
        Subtype::Plane(PlanarType::Shandalar) => 276,
        Subtype::Plane(PlanarType::Ulgrotha) => 321,
        Subtype::Plane(PlanarType::Valla) => 324,
        Subtype::Plane(PlanarType::Vryn) => 333,
        Subtype::Plane(PlanarType::Wildfire) => 339,
        Subtype::Plane(PlanarType::Xerex) => 350,
        Subtype::Plane(PlanarType::Zendikar) => 354,
    }
}

/// The value whose name has the given position in alphabetical order.
pub open spec fn subtype_of_rank(k: int) -> Subtype {
    if k == 0 {
        Subtype::Creature(CreatureType::Advisor)
    } else if k == 1 {
        Subtype::Creature(CreatureType::Aetherborn)
    } else if k == 2 {
        Subtype::Planeswalker(PlaneswalkerType::Ajani)
    } else if k == 3 {
        Subtype::Plane(PlanarType::Alara)
    } else if k == 4 {
        Subtype::Creature(CreatureType::Ally)
    } else if k == 5 {
        Subtype::Planeswalker(PlaneswalkerType::Aminatou)
    } else if k == 6 {
        Subtype::Creature(CreatureType::Angel)
    } else if k == 7 {
        Subtype::Planeswalker(PlaneswalkerType::Angrath)
    } else if k == 8 {
        Subtype::Creature(CreatureType::Antelope)
    } else if k == 9 {
        Subtype::Creature(CreatureType::Ape)
    } else if k == 10 {
        Subtype::Spell(SpellType::Arcane)
    } else if k == 11 {
        Subtype::Creature(CreatureType::Archer)
    } else if k == 12 {
        Subtype::Creature(CreatureType::Archon)
    } else if k == 13 {
        Subtype::Plane(PlanarType::Arkhos)
    } else if k == 14 {
        Subtype::Planeswalker(PlaneswalkerType::Arlinn)
    } else if k == 15 {
        Subtype::Creature(CreatureType::Artificer)
    } else if k == 16 {
        Subtype::Planeswalker(PlaneswalkerType::Ashiok)
    } else if k == 17 {
        Subtype::Creature(CreatureType::Assassin)
    } else if k == 18 {
        Subtype::Creature(CreatureType::AssemblyWorker)
    } else if k == 19 {
        Subtype::Creature(CreatureType::Atog)
    } else if k == 20 {
        Subtype::Enchantment(EnchantmentType::Aura)
    } else if k == 21 {
        Subtype::Creature(CreatureType::Aurochs)
    } else if k == 22 {
        Subtype::Creature(CreatureType::Avatar)
    } else if k == 23 {
        Subtype::Plane(PlanarType::Azgol)
    } else if k == 24 {
        Subtype::Creature(CreatureType::Azra)
    } else if k == 25 {
        Subtype::Creature(CreatureType::Badger)
    } else if k == 26 {
        Subtype::Creature(CreatureType::Barbarian)
    } else if k == 27 {
        Subtype::Creature(CreatureType::Basilisk)
    } else if k == 28 {
        Subtype::Creature(CreatureType::Bat)
    } else if k == 29 {
        Subtype::Creature(CreatureType::Bear)
    } else if k == 30 {
        Subtype::Creature(CreatureType::Beast)
    } else if k == 31 {
        Subtype::Creature(CreatureType::Beeble)
    } else if k == 32 {
        Subtype::Plane(PlanarType::Belenon)
    } else if k == 33 {
        Subtype::Creature(CreatureType::Berserker)
    } else if k == 34 {
        Subtype::Creature(CreatureType::Bird)
    } else if k == 35 {
        Subtype::Creature(CreatureType::Blinkmoth)
    } else if k == 36 {
        Subtype::Creature(CreatureType::Boar)
    } else if k == 37 {
        Subtype::Planeswalker(PlaneswalkerType::Bolas)
    } else if k == 38 {
        Subtype::Plane(PlanarType::BolassMeditationRealm)
    } else if k == 39 {
        Subtype::Creature(CreatureType::Bringer)
    } else if k == 40 {
        Subtype::Creature(CreatureType::Brushwagg)
    } else if k == 41 {
        Subtype::Creature(CreatureType::Camarid)
    } else if k == 42 {
        Subtype::Creature(CreatureType::Camel)
    } else if k == 43 {
        Subtype::Creature(CreatureType::Caribou)
    } else if k == 44 {
        Subtype::Creature(CreatureType::Carrier)
    } else if k == 45 {
        Subtype::Enchantment(EnchantmentType::Cartouche)
    } else if k == 46 {
        Subtype::Creature(CreatureType::Cat)
    } else if k == 47 {
        Subtype::Creature(CreatureType::Centaur)
    } else if k == 48 {
        Subtype::Creature(CreatureType::Cephalid)
    } else if k == 49 {
        Subtype::Planeswalker(PlaneswalkerType::Chandra)
    } else if k == 50 {
        Subtype::Creature(CreatureType::Chimera)
    } else if k == 51 {
        Subtype::Creature(CreatureType::Citizen)
    } else if k == 52 {
        Subtype::Creature(CreatureType::Cleric)
    } else if k == 53 {
        Subtype::Artifact(ArtifactType::Clue)
    } else if k == 54 {
        Subtype::Creature(CreatureType::Cockatrice)
    } else if k == 55 {
        Subtype::Creature(CreatureType::Construct)
    } else if k == 56 {
        Subtype::Artifact(ArtifactType::Contraption)
    } else if k == 57 {
        Subtype::Creature(CreatureType::Coward)
    } else if k == 58 {
        Subtype::Creature(CreatureType::Crab)
    } else if k == 59 {
        Subtype::Creature(CreatureType::Crocodile)
    } else if k == 60 {
        Subtype::Enchantment(EnchantmentType::Curse)
    } else if k == 61 {
        Subtype::Creature(CreatureType::Cyclops)
    } else if k == 62 {
        Subtype::Planeswalker(PlaneswalkerType::Dack)
    } else if k == 63 {
        Subtype::Planeswalker(PlaneswalkerType::Daretti)
    } else if k == 64 {
        Subtype::Creature(CreatureType::Dauthi)
    } else if k == 65 {
        Subtype::Creature(CreatureType::Demon)
    } else if k == 66 {
        Subtype::Land(LandType::Desert)
    } else if k == 67 {
        Subtype::Creature(CreatureType::Deserter)
    } else if k == 68 {
        Subtype::Creature(CreatureType::Devil)
    } else if k == 69 {
        Subtype::Creature(CreatureType::Dinosaur)
    } else if k == 70 {
        Subtype::Creature(CreatureType::Djinn)
    } else if k == 71 {
        Subtype::Plane(PlanarType::Dominaria)
    } else if k == 72 {
        Subtype::Planeswalker(PlaneswalkerType::Domri)
    } else if k == 73 {
        Subtype::Planeswalker(PlaneswalkerType::Dovin)
    } else if k == 74 {
        Subtype::Creature(CreatureType::Dragon)
    } else if k == 75 {
        Subtype::Creature(CreatureType::Drake)
    } else if k == 76 {
        Subtype::Creature(CreatureType::Dreadnought)
    } else if k == 77 {
        Subtype::Creature(CreatureType::Drone)
    } else if k == 78 {
        Subtype::Creature(CreatureType::Druid)
    } else if k == 79 {
        Subtype::Creature(CreatureType::Dryad)
    } else if k == 80 {
        Subtype::Creature(CreatureType::Dwarf)
    } else if k == 81 {
        Subtype::Creature(CreatureType::Efreet)
    } else if k == 82 {
        Subtype::Creature(CreatureType::Egg)
    } else if k == 83 {
        Subtype::Creature(CreatureType::Elder)
    } else if k == 84 {
        Subtype::Creature(CreatureType::Eldrazi)
    } else if k == 85 {
        Subtype::Creature(CreatureType::Elemental)
    } else if k == 86 {
        Subtype::Creature(CreatureType::Elephant)
    } else if k == 87 {
        Subtype::Creature(CreatureType::Elf)
    } else if k == 88 {
        Subtype::Creature(CreatureType::Elk)
    } else if k == 89 {
        Subtype::Planeswalker(PlaneswalkerType::Elspeth)
    } else if k == 90 {
        Subtype::Plane(PlanarType::Equilor)
    } else if k == 91 {
        Subtype::Artifact(ArtifactType::Equipment)
    } else if k == 92 {
        Subtype::Plane(PlanarType::Ergamon)
    } else if k == 93 {
        Subtype::Planeswalker(PlaneswalkerType::Estrid)
    } else if k == 94 {
        Subtype::Creature(CreatureType::Eye)
    } else if k == 95 {
        Subtype::Plane(PlanarType::Fabacin)
    } else if k == 96 {
        Subtype::Creature(CreatureType::Faerie)
    } else if k == 97 {
        Subtype::Creature(CreatureType::Ferret)
    } else if k == 98 {
        Subtype::Creature(CreatureType::Fish)
    } else if k == 99 {
        Subtype::Creature(CreatureType::Flagbearer)
    } else if k == 100 {
        Subtype::Land(LandType::Forest)
    } else if k == 101 {
        Subtype::Artifact(ArtifactType::Fortification)
    } else if k == 102 {
        Subtype::Creature(CreatureType::Fox)
    } else if k == 103 {
        Subtype::Planeswalker(PlaneswalkerType::Freyalise)
    } else if k == 104 {
        Subtype::Creature(CreatureType::Frog)
    } else if k == 105 {
        Subtype::Creature(CreatureType::Fungus)
    } else if k == 106 {
        Subtype::Creature(CreatureType::Gargoyle)
    } else if k == 107 {
        Subtype::Planeswalker(PlaneswalkerType::Garruk)
    } else if k == 108 {
        Subtype::Land(LandType::Gate)
    } else if k == 109 {
        Subtype::Creature(CreatureType::Germ)
    } else if k == 110 {
        Subtype::Creature(CreatureType::Giant)
    } else if k == 111 {
        Subtype::Planeswalker(PlaneswalkerType::Gideon)
    } else if k == 112 {
        Subtype::Creature(CreatureType::Gnome)
    } else if k == 113 {
        Subtype::Creature(CreatureType::Goat)
    } else if k == 114 {
        Subtype::Creature(CreatureType::Goblin)
    } else if k == 115 {
        Subtype::Creature(CreatureType::God)
    } else if k == 116 {
        Subtype::Creature(CreatureType::Golem)
    } else if k == 117 {
        Subtype::Creature(CreatureType::Gorgon)
    } else if k == 118 {
        Subtype::Creature(CreatureType::Graveborn)
    } else if k == 119 {
        Subtype::Creature(CreatureType::Gremlin)
    } else if k == 120 {
        Subtype::Creature(CreatureType::Griffin)
    } else if k == 121 {
        Subtype::Creature(CreatureType::Hag)
    } else if k == 122 {
        Subtype::Creature(CreatureType::Harpy)
    } else if k == 123 {
        Subtype::Creature(CreatureType::Hellion)
    } else if k == 124 {
        Subtype::Creature(CreatureType::Hippo)
    } else if k == 125 {
        Subtype::Creature(CreatureType::Hippogriff)
    } else if k == 126 {
        Subtype::Creature(CreatureType::Homarid)
    } else if k == 127 {
        Subtype::Creature(CreatureType::Homunculus)
    } else if k == 128 {
        Subtype::Creature(CreatureType::Horror)
    } else if k == 129 {
        Subtype::Creature(CreatureType::Horse)
    } else if k == 130 {
        Subtype::Creature(CreatureType::Hound)
    } else if k == 131 {
        Subtype::Planeswalker(PlaneswalkerType::Huatli)
    } else if k == 132 {
        Subtype::Creature(CreatureType::Human)
    } else if k == 133 {
        Subtype::Creature(CreatureType::Hydra)
    } else if k == 134 {
        Subtype::Creature(CreatureType::Hyena)
    } else if k == 135 {
        Subtype::Creature(CreatureType::Illusion)
    } else if k == 136 {
        Subtype::Creature(CreatureType::Imp)
    } else if k == 137 {
        Subtype::Creature(CreatureType::Incarnation)
    } else if k == 138 {
        Subtype::Plane(PlanarType::Innistrad)
    } else if k == 139 {
        Subtype::Creature(CreatureType::Insect)
    } else if k == 140 {
        Subtype::Plane(PlanarType::Iquatana)
    } else if k == 141 {
        Subtype::Plane(PlanarType::Ir)
    } else if k == 142 {
        Subtype::Land(LandType::Island)
    } else if k == 143 {
        Subtype::Planeswalker(PlaneswalkerType::Jace)
    } else if k == 144 {
        Subtype::Creature(CreatureType::Jackal)
    } else if k == 145 {
        Subtype::Planeswalker(PlaneswalkerType::Jaya)
    } else if k == 146 {
        Subtype::Creature(CreatureType::Jellyfish)
    } else if k == 147 {
        Subtype::Creature(CreatureType::Juggernaut)
    } else if k == 148 {
        Subtype::Plane(PlanarType::Kaldheim)
    } else if k == 149 {
        Subtype::Plane(PlanarType::Kamigawa)
    } else if k == 150 {
        Subtype::Planeswalker(PlaneswalkerType::Karn)
    } else if k == 151 {
        Subtype::Plane(PlanarType::Karsus)
    } else if k == 152 {
        Subtype::Creature(CreatureType::Kavu)
    } else if k == 153 {
        Subtype::Planeswalker(PlaneswalkerType::Kaya)
    } else if k == 154 {
        Subtype::Plane(PlanarType::Kephalai)
    } else if k == 155 {
        Subtype::Plane(PlanarType::Kinshala)
    } else if k == 156 {
        Subtype::Planeswalker(PlaneswalkerType::Kiora)
    } else if k == 157 {
        Subtype::Creature(CreatureType::Kirin)
    } else if k == 158 {
        Subtype::Creature(CreatureType::Kithkin)
    } else if k == 159 {
        Subtype::Creature(CreatureType::Knight)
    } else if k == 160 {
        Subtype::Creature(CreatureType::Kobold)
    } else if k == 161 {
        Subtype::Plane(PlanarType::Kolbahan)
    } else if k == 162 {
        Subtype::Creature(CreatureType::Kor)
    } else if k == 163 {
        Subtype::Planeswalker(PlaneswalkerType::Koth)
    } else if k == 164 {
        Subtype::Creature(CreatureType::Kraken)
    } else if k == 165 {
        Subtype::Plane(PlanarType::Kyneth)
    } else if k == 166 {
        Subtype::Land(LandType::Lair)
    } else if k == 167 {
        Subtype::Creature(CreatureType::Lamia)
    } else if k == 168 {
        Subtype::Creature(CreatureType::Lammasu)
    } else if k == 169 {
        Subtype::Creature(CreatureType::Leech)
    } else if k == 170 {
        Subtype::Creature(CreatureType::Leviathan)
    } else if k == 171 {
        Subtype::Creature(CreatureType::Lhurgoyf)
    } else if k == 172 {
        Subtype::Creature(CreatureType::Licid)
    } else if k == 173 {
        Subtype::Planeswalker(PlaneswalkerType::Liliana)
    } else if k == 174 {
        Subtype::Creature(CreatureType::Lizard)
    } else if k == 175 {
        Subtype::Land(LandType::Locus)
    } else if k == 176 {
        Subtype::Plane(PlanarType::Lorwyn)
    } else if k == 177 {
        Subtype::Plane(PlanarType::Luvion)
    } else if k == 178 {
        Subtype::Creature(CreatureType::Manticore)
    } else if k == 179 {
        Subtype::Creature(CreatureType::Masticore)
    } else if k == 180 {
        Subtype::Plane(PlanarType::Mercadia)
    } else if k == 181 {
        Subtype::Creature(CreatureType::Mercenary)
    } else if k == 182 {
        Subtype::Creature(CreatureType::Merfolk)
    } else if k == 183 {
        Subtype::Creature(CreatureType::Metathran)
    } else if k == 184 {
        Subtype::Land(LandType::Mine)
    } else if k == 185 {
        Subtype::Creature(CreatureType::Minion)
    } else if k == 186 {
        Subtype::Creature(CreatureType::Minotaur)
    } else if k == 187 {
        Subtype::Plane(PlanarType::Mirrodin)
    } else if k == 188 {
        Subtype::Plane(PlanarType::Moag)
    } else if k == 189 {
        Subtype::Creature(CreatureType::Mole)
    } else if k == 190 {
        Subtype::Creature(CreatureType::Monger)
    } else if k == 191 {
        Subtype::Creature(CreatureType::Mongoose)
    } else if k == 192 {
        Subtype::Plane(PlanarType::Mongseng)
    } else if k == 193 {
        Subtype::Creature(CreatureType::Monk)
    } else if k == 194 {
        Subtype::Creature(CreatureType::Monkey)
    } else if k == 195 {
        Subtype::Creature(CreatureType::Moonfolk)
    } else if k == 196 {
        Subtype::Land(LandType::Mountain)
    } else if k == 197 {
        Subtype::Plane(PlanarType::Muraganda)
    } else if k == 198 {
        Subtype::Creature(CreatureType::Mutant)
    } else if k == 199 {
        Subtype::Creature(CreatureType::Myr)
    } else if k == 200 {
        Subtype::Creature(CreatureType::Mystic)
    } else if k == 201 {
        Subtype::Creature(CreatureType::Naga)
    } else if k == 202 {
        Subtype::Planeswalker(PlaneswalkerType::Nahiri)
    } else if k == 203 {
        Subtype::Planeswalker(PlaneswalkerType::Narset)
    } else if k == 204 {
        Subtype::Creature(CreatureType::Nautilus)
    } else if k == 205 {
        Subtype::Creature(CreatureType::Nephilim)
    } else if k == 206 {
        Subtype::Plane(PlanarType::NewPhyrexia)
    } else if k == 207 {
        Subtype::Creature(CreatureType::Nightmare)
    } else if k == 208 {
        Subtype::Creature(CreatureType::Nightstalker)
    } else if k == 209 {
        Subtype::Creature(CreatureType::Ninja)
    } else if k == 210 {
        Subtype::Planeswalker(PlaneswalkerType::Nissa)
    } else if k == 211 {
        Subtype::Planeswalker(PlaneswalkerType::Nixilis)
    } else if k == 212 {
        Subtype::Creature(CreatureType::Noggle)
    } else if k == 213 {
        Subtype::Creature(CreatureType::Nomad)
    } else if k == 214 {
        Subtype::Creature(CreatureType::Nymph)
    } else if k == 215 {
        Subtype::Creature(CreatureType::Octopus)
    } else if k == 216 {
        Subtype::Creature(CreatureType::Ogre)
    } else if k == 217 {
        Subtype::Creature(CreatureType::Ooze)
    } else if k == 218 {
        Subtype::Creature(CreatureType::Orb)
    } else if k == 219 {
        Subtype::Creature(CreatureType::Orc)
    } else if k == 220 {
        Subtype::Creature(CreatureType::Orgg)
    } else if k == 221 {
        Subtype::Creature(CreatureType::Ouphe)
    } else if k == 222 {
        Subtype::Creature(CreatureType::Ox)
    } else if k == 223 {
        Subtype::Creature(CreatureType::Oyster)
    } else if k == 224 {
        Subtype::Creature(CreatureType::Pangolin)
    } else if k == 225 {
        Subtype::Creature(CreatureType::Pegasus)
    } else if k == 226 {
        Subtype::Creature(CreatureType::Pentavite)
    } else if k == 227 {
        Subtype::Creature(CreatureType::Pest)
    } else if k == 228 {
        Subtype::Creature(CreatureType::Phelddagrif)
    } else if k == 229 {
        Subtype::Creature(CreatureType::Phoenix)
    } else if k == 230 {
        Subtype::Plane(PlanarType::Phyrexia)
    } else if k == 231 {
        Subtype::Creature(CreatureType::Pilot)
    } else if k == 232 {
        Subtype::Creature(CreatureType::Pincher)
    } else if k == 233 {
        Subtype::Creature(CreatureType::Pirate)
    } else if k == 234 {
        Subtype::Land(LandType::Plains)
    } else if k == 235 {
        Subtype::Creature(CreatureType::Plant)
    } else if k == 236 {
        Subtype::Land(LandType::PowerPlant)
    } else if k == 237 {
        Subtype::Creature(CreatureType::Praetor)
    } else if k == 238 {
        Subtype::Creature(CreatureType::Prism)
    } else if k == 239 {
        Subtype::Creature(CreatureType::Processor)
    } else if k == 240 {
        Subtype::Plane(PlanarType::Pyrulea)
    } else if k == 241 {
        Subtype::Creature(CreatureType::Rabbit)
    } else if k == 242 {
        Subtype::Plane(PlanarType::Rabiah)
    } else if k == 243 {
        Subtype::Planeswalker(PlaneswalkerType::Ral)
    } else if k == 244 {
        Subtype::Creature(CreatureType::Rat)
    } else if k == 245 {
        Subtype::Plane(PlanarType::Rath)
    } else if k == 246 {
        Subtype::Plane(PlanarType::Ravnica)
    } else if k == 247 {
        Subtype::Creature(CreatureType::Rebel)
    } else if k == 248 {
        Subtype::Creature(CreatureType::Reflection)
    } else if k == 249 {
        Subtype::Plane(PlanarType::Regatha)
    } else if k == 250 {
        Subtype::Creature(CreatureType::Rhino)
    } else if k == 251 {
        Subtype::Creature(CreatureType::Rigger)
    } else if k == 252 {
        Subtype::Creature(CreatureType::Rogue)
    } else if k == 253 {
        Subtype::Planeswalker(PlaneswalkerType::Rowan)
    } else if k == 254 {
        Subtype::Creature(CreatureType::Sable)
    } else if k == 255 {
        Subtype::Enchantment(EnchantmentType::Saga)
    } else if k == 256 {
        Subtype::Planeswalker(PlaneswalkerType::Saheeli)
    } else if k == 257 {
        Subtype::Creature(CreatureType::Salamander)
    } else if k == 258 {
        Subtype::Creature(CreatureType::Samurai)
    } else if k == 259 {
        Subtype::Planeswalker(PlaneswalkerType::Samut)
    } else if k == 260 {
        Subtype::Creature(CreatureType::Sand)
    } else if k == 261 {
        Subtype::Creature(CreatureType::Saproling)
    } else if k == 262 {
        Subtype::Planeswalker(PlaneswalkerType::Sarkhan)
    } else if k == 263 {
        Subtype::Creature(CreatureType::Satyr)
    } else if k == 264 {
        Subtype::Creature(CreatureType::Scarecrow)
    } else if k == 265 {
        Subtype::Creature(CreatureType::Scion)
    } else if k == 266 {
        Subtype::Creature(CreatureType::Scorpion)
    } else if k == 267 {
        Subtype::Creature(CreatureType::Scout)
    } else if k == 268 {
        Subtype::Plane(PlanarType::Segovia)
    } else if k == 269 {
        Subtype::Creature(CreatureType::Serf)
    } else if k == 270 {
        Subtype::Creature(CreatureType::Serpent)
    } else if k == 271 {
        Subtype::Plane(PlanarType::SerrasRealm)
    } else if k == 272 {
        Subtype::Creature(CreatureType::Servo)
    } else if k == 273 {
        Subtype::Creature(CreatureType::Shade)
    } else if k == 274 {
        Subtype::Plane(PlanarType::Shadowmoor)
    } else if k == 275 {
        Subtype::Creature(CreatureType::Shaman)
    } else if k == 276 {
        Subtype::Plane(PlanarType::Shandalar)
    } else if k == 277 {
        Subtype::Creature(CreatureType::Shapeshifter)
    } else if k == 278 {
        Subtype::Creature(CreatureType::Sheep)
    } else if k == 279 {
        Subtype::Enchantment(EnchantmentType::Shrine)
    } else if k == 280 {
        Subtype::Creature(CreatureType::Siren)
    } else if k == 281 {
        Subtype::Creature(CreatureType::Skeleton)
    } else if k == 282 {
        Subtype::Creature(CreatureType::Slith)
    } else if k == 283 {
        Subtype::Creature(CreatureType::Sliver)
    } else if k == 284 {
        Subtype::Creature(CreatureType::Slug)
    } else if k == 285 {
        Subtype::Creature(CreatureType::Snake)
    } else if k == 286 {
        Subtype::Creature(CreatureType::Soldier)
    } else if k == 287 {
        Subtype::Creature(CreatureType::Soltari)
    } else if k == 288 {
        Subtype::Planeswalker(PlaneswalkerType::Sorin)
    } else if k == 289 {
        Subtype::Creature(CreatureType::Spawn)
    } else if k == 290 {
        Subtype::Creature(CreatureType::Specter)
    } else if k == 291 {
        Subtype::Creature(CreatureType::Spellshaper)
    } else if k == 292 {
        Subtype::Creature(CreatureType::Sphinx)
    } else if k == 293 {
        Subtype::Creature(CreatureType::Spider)
    } else if k == 294 {
        Subtype::Creature(CreatureType::Spike)
    } else if k == 295 {
        Subtype::Creature(CreatureType::Spirit)
    } else if k == 296 {
        Subtype::Creature(CreatureType::Splinter)
    } else if k == 297 {
        Subtype::Creature(CreatureType::Sponge)
    } else if k == 298 {
        Subtype::Creature(CreatureType::Squid)
    } else if k == 299 {
        Subtype::Creature(CreatureType::Squirrel)
    } else if k == 300 {
        Subtype::Creature(CreatureType::Starfish)
    } else if k == 301 {
        Subtype::Creature(CreatureType::Surrakar)
    } else if k == 302 {
        Subtype::Creature(CreatureType::Survivor)
    } else if k == 303 {
        Subtype::Land(LandType::Swamp)
    } else if k == 304 {
        Subtype::Planeswalker(PlaneswalkerType::Tamiyo)
    } else if k == 305 {
        Subtype::Planeswalker(PlaneswalkerType::Teferi)
    } else if k == 306 {
        Subtype::Creature(CreatureType::Tetravite)
    } else if k == 307 {
        Subtype::Planeswalker(PlaneswalkerType::Tezzeret)
    } else if k == 308 {
        Subtype::Creature(CreatureType::Thalakos)
    } else if k == 309 {
        Subtype::Creature(CreatureType::Thopter)
    } else if k == 310 {
        Subtype::Creature(CreatureType::Thrull)
    } else if k == 311 {
        Subtype::Planeswalker(PlaneswalkerType::Tibalt)
    } else if k == 312 {
        Subtype::Land(LandType::Tower)
    } else if k == 313 {
        Subtype::Spell(SpellType::Trap)
    } else if k == 314 {
        Subtype::Artifact(ArtifactType::Treasure)
    } else if k == 315 {
        Subtype::Creature(CreatureType::Treefolk)
    } else if k == 316 {
        Subtype::Creature(CreatureType::Trilobite)
    } else if k == 317 {
        Subtype::Creature(CreatureType::Triskelavite)
    } else if k == 318 {
        Subtype::Creature(CreatureType::Troll)
    } else if k == 319 {
        Subtype::Creature(CreatureType::Turtle)
    } else if k == 320 {
        Subtype::Planeswalker(PlaneswalkerType::Ugin)
    } else if k == 321 {
        Subtype::Plane(PlanarType::Ulgrotha)
    } else if k == 322 {
        Subtype::Creature(CreatureType::Unicorn)
    } else if k == 323 {
        Subtype::Land(LandType::Urzas)
    } else if k == 324 {
        Subtype::Plane(PlanarType::Valla)
    } else if k == 325 {
        Subtype::Creature(CreatureType::Vampire)
    } else if k == 326 {
        Subtype::Creature(CreatureType::Vedalken)
    } else if k == 327 {
        Subtype::Artifact(ArtifactType::Vehicle)
    } else if k == 328 {
        Subtype::Planeswalker(PlaneswalkerType::Venser)
    } else if k == 329 {
        Subtype::Creature(CreatureType::Viashino)
    } else if k == 330 {
        Subtype::Planeswalker(PlaneswalkerType::Vivien)
    } else if k == 331 {
        Subtype::Creature(CreatureType::Volver)
    } else if k == 332 {
        Subtype::Planeswalker(PlaneswalkerType::Vraska)
    } else if k == 333 {
        Subtype::Plane(PlanarType::Vryn)
    } else if k == 334 {
        Subtype::Creature(CreatureType::Wall)
    } else if k == 335 {
        Subtype::Creature(CreatureType::Warrior)
    } else if k == 336 {
        Subtype::Creature(CreatureType::Weird)
    } else if k == 337 {
        Subtype::Creature(CreatureType::Werewolf)
    } else if k == 338 {
        Subtype::Creature(CreatureType::Whale)
    } else if k == 339 {
        Subtype::Plane(PlanarType::Wildfire)
    } else if k == 340 {
        Subtype::Planeswalker(PlaneswalkerType::Will)
    } else if k == 341 {
        Subtype::Planeswalker(PlaneswalkerType::Windgrace)
    } else if k == 342 {
        Subtype::Creature(CreatureType::Wizard)
    } else if k == 343 {
        Subtype::Creature(CreatureType::Wolf)
    } else if k == 344 {
        Subtype::Creature(CreatureType::Wolverine)
    } else if k == 345 {
        Subtype::Creature(CreatureType::Wombat)
    } else if k == 346 {
        Subtype::Creature(CreatureType::Worm)
    } else if k == 347 {
        Subtype::Creature(CreatureType::Wraith)
    } else if k == 348 {
        Subtype::Creature(CreatureType::Wurm)
    } else if k == 349 {
        Subtype::Planeswalker(PlaneswalkerType::Xenagos)
    } else if k == 350 {
        Subtype::Plane(PlanarType::Xerex)
    } else if k == 351 {
        Subtype::Planeswalker(PlaneswalkerType::Yanggu)
    } else if k == 352 {
        Subtype::Planeswalker(PlaneswalkerType::Yanling)
    } else if k == 353 {
        Subtype::Creature(CreatureType::Yeti)
    } else if k == 354 {
        Subtype::Plane(PlanarType::Zendikar)
    } else if k == 355 {
        Subtype::Creature(CreatureType::Zombie)
    } else {
        Subtype::Creature(CreatureType::Zubera)
    }
}

/// Names increase with rank.
proof fn lemma_subtype_lt(x: Subtype, y: Subtype)
    requires
        subtype_rank(x) < subtype_rank(y),
    ensures
        lex_lt(x.text(), y.text()),
    decreases subtype_rank(y) - subtype_rank(x),
{
    lemma_subtype_rank(x);
    lemma_subtype_rank(y);
    let z = subtype_of_rank(subtype_rank(x) + 1);
    lemma_subtype_rank(z);
    if subtype_rank(z) < subtype_rank(y) {
        lemma_subtype_lt(z, y);
        lemma_lex_trans(x.text(), z.text(), y.text());
    }
}

/// Distinct values have distinct names.
pub proof fn lemma_subtype_names_distinct(x: Subtype, y: Subtype)
    requires
        x != y,
    ensures
        x.text() != y.text(),
{
    lemma_subtype_rank(x);
    lemma_subtype_rank(y);
    if subtype_rank(x) < subtype_rank(y) {
        lemma_subtype_lt(x, y);
        lemma_lex_distinct(x.text(), y.text());
    } else if subtype_rank(y) < subtype_rank(x) {
        lemma_subtype_lt(y, x);
        lemma_lex_distinct(y.text(), x.text());
    }
}

/// A value found by name has that name, and a name of a value is found.
proof fn lemma_artifact_type_lookup(t: Seq<char>)
    ensures
        ArtifactType::from_text(t) is Some ==> (ArtifactType::from_text(t)->0).text() == t,
        forall|x: ArtifactType| #[trigger] x.text() == t ==> ArtifactType::from_text(t) is Some,
{
    reveal(ArtifactType::from_text);
}

/// A value found by name has that name, and a name of a value is found.
proof fn lemma_enchantment_type_lookup(t: Seq<char>)
    ensures
        EnchantmentType::from_text(t) is Some ==> (EnchantmentType::from_text(t)->0).text() == t,
        forall|x: EnchantmentType| #[trigger] x.text() == t ==> EnchantmentType::from_text(t) is Some,
{
    reveal(EnchantmentType::from_text);
}

/// A value found by name has that name, and a name of a value is found.
proof fn lemma_land_type_lookup(t: Seq<char>)
    ensures
        LandType::from_text(t) is Some ==> (LandType::from_text(t)->0).text() == t,
        forall|x: LandType| #[trigger] x.text() == t ==> LandType::from_text(t) is Some,
{
    reveal(LandType::from_text);
}

/// A value found by name has that name, and a name of a value is found.
proof fn lemma_planeswalker_type_lookup(t: Seq<char>)
    ensures
        PlaneswalkerType::from_text(t) is Some ==> (PlaneswalkerType::from_text(t)->0).text() == t,
        forall|x: PlaneswalkerType| #[trigger] x.text() == t ==> PlaneswalkerType::from_text(t) is Some,
{
    reveal(PlaneswalkerType::from_text);
}

/// A value found by name has that name, and a name of a value is found.
proof fn lemma_spell_type_lookup(t: Seq<char>)
    ensures
        SpellType::from_text(t) is Some ==> (SpellType::from_text(t)->0).text() == t,
        forall|x: SpellType| #[trigger] x.text() == t ==> SpellType::from_text(t) is Some,
{
    reveal(SpellType::from_text);
}

/// A value found by name has that name, and a name of a value is found.
#[verifier::rlimit(100)]
proof fn lemma_creature_type_lookup(t: Seq<char>)
    ensures
        CreatureType::from_text(t) is Some ==> (CreatureType::from_text(t)->0).text() == t,
        forall|x: CreatureType| #[trigger] x.text() == t ==> CreatureType::from_text(t) is Some,
{
    reveal(CreatureType::from_text);
}

/// A value found by name has that name, and a name of a value is found.
proof fn lemma_planar_type_lookup(t: Seq<char>)
    ensures
        PlanarType::from_text(t) is Some ==> (PlanarType::from_text(t)->0).text() == t,
        forall|x: PlanarType| #[trigger] x.text() == t ==> PlanarType::from_text(t) is Some,
{
    reveal(PlanarType::from_text);
}

/// A subtype found by name has that name.
pub proof fn lemma_subtype_lookup(t: Seq<char>)
    ensures
        Subtype::from_text(t) is Some ==> (Subtype::from_text(t)->0).text() == t,
{
    reveal(Subtype::from_text);
    lemma_artifact_type_lookup(t);
    lemma_enchantment_type_lookup(t);
    lemma_land_type_lookup(t);
    lemma_planeswalker_type_lookup(t);
    lemma_spell_type_lookup(t);
    lemma_creature_type_lookup(t);
    lemma_planar_type_lookup(t);
}

/// Looking up the name of a subtype gives the subtype; the name is one word
/// unless the subtype is one of those whose names have several words.
pub proof fn lemma_subtype_own_name(x: Subtype)
    ensures
        Subtype::from_text(x.text()) == Some(x),
        !is_multi_word(x) ==> is_plain_word(x.text()),
        x.text().len() > 0,
{
    reveal(Subtype::from_text);
    lemma_subtype_rank(x);
    if !is_multi_word(x) {
        lemma_plain_from(x.text(), 0);
    }
    let t = x.text();
    lemma_artifact_type_lookup(t);
    if ArtifactType::from_text(t) is Some {
        let y = Subtype::Artifact(ArtifactType::from_text(t)->0);
        if y != x {
            lemma_subtype_names_distinct(x, y);
        }
    }
    lemma_enchantment_type_lookup(t);
    if EnchantmentType::from_text(t) is Some {
        let y = Subtype::Enchantment(EnchantmentType::from_text(t)->0);
        if y != x {
            lemma_subtype_names_distinct(x, y);
        }
    }
    lemma_land_type_lookup(t);
    if LandType::from_text(t) is Some {
        let y = Subtype::Land(LandType::from_text(t)->0);
        if y != x {
            lemma_subtype_names_distinct(x, y);
        }
    }
    lemma_planeswalker_type_lookup(t);
    if PlaneswalkerType::from_text(t) is Some {
        let y = Subtype::Planeswalker(PlaneswalkerType::from_text(t)->0);
        if y != x {
            lemma_subtype_names_distinct(x, y);
        }
    }
    lemma_spell_type_lookup(t);
    if SpellType::from_text(t) is Some {
        let y = Subtype::Spell(SpellType::from_text(t)->0);
        if y != x {
            lemma_subtype_names_distinct(x, y);
        }
    }
    lemma_creature_type_lookup(t);
    if CreatureType::from_text(t) is Some {
        let y = Subtype::Creature(CreatureType::from_text(t)->0);
        if y != x {
            lemma_subtype_names_distinct(x, y);
        }
    }
    lemma_planar_type_lookup(t);
    if PlanarType::from_text(t) is Some {
        let y = Subtype::Plane(PlanarType::from_text(t)->0);
        if y != x {
            lemma_subtype_names_distinct(x, y);
        }
    }
}

/// No type is named like a supertype.
pub proof fn lemma_type_not_supertype(t: Type)
    ensures
        Supertype::from_text(t.text()) is None,
{
    lemma_supertype_lookup(t.text());
    if Supertype::from_text(t.text()) is Some {
        let s = Supertype::from_text(t.text())->0;
        lemma_supertype_type_names_differ(s, t);
    }
}

proof fn lemma_supertype_type_names_differ(s: Supertype, t: Type)
    ensures
        s.text() != t.text(),
{
    reveal(Supertype::text);
    reveal(Type::text);
    reveal_with_fuel(lex_lt_from, 3);
    match t {
        Type::Artifact => match s {
            Supertype::Basic => {
                reveal_strlit("Artifact");
                reveal_strlit("Basic");
                lemma_lex_distinct(t.text(), s.text());
            },
            Supertype::Legendary => {
                reveal_strlit("Artifact");
                reveal_strlit("Legendary");
                lemma_lex_distinct(t.text(), s.text());
            },
            Supertype::Ongoing => {
                reveal_strlit("Artifact");
                reveal_strlit("Ongoing");
                lemma_lex_distinct(t.text(), s.text());
            },
            Supertype::Snow => {
                reveal_strlit("Artifact");
                reveal_strlit("Snow");
                lemma_lex_distinct(t.text(), s.text());
            },
            Supertype::World => {
                reveal_strlit("Artifact");
                reveal_strlit("World");
                lemma_lex_distinct(t.text(), s.text());
            },
        },
        Type::Conspiracy => match s {
            Supertype::Basic => {
                reveal_strlit("Conspiracy");
                reveal_strlit("Basic");
                lemma_lex_distinct(s.text(), t.text());
            },
            Supertype::Legendary => {
                reveal_strlit("Conspiracy");
                reveal_strlit("Legendary");
                lemma_lex_distinct(t.text(), s.text());
            },
            Supertype::Ongoing => {
                reveal_strlit("Conspiracy");
                reveal_strlit("Ongoing");
                lemma_lex_distinct(t.text(), s.text());
            },
            Supertype::Snow => {
                reveal_strlit("Conspiracy");
                reveal_strlit("Snow");
                lemma_lex_distinct(t.text(), s.text());
            },
            Supertype::World => {
                reveal_strlit("Conspiracy");
                reveal_strlit("World");
                lemma_lex_distinct(t.text(), s.text());
            },
        },
        Type::Creature => match s {
            Supertype::Basic => {
                reveal_strlit("Creature");
                reveal_strlit("Basic");
                lemma_lex_distinct(s.text(), t.text());
            },
            Supertype::Legendary => {
                reveal_strlit("Creature");
                reveal_strlit("Legendary");
                lemma_lex_distinct(t.text(), s.text());
            },
            Supertype::Ongoing => {
                reveal_strlit("Creature");
                reveal_strlit("Ongoing");
                lemma_lex_distinct(t.text(), s.text());
            },
            Supertype::Snow => {
                reveal_strlit("Creature");
                reveal_strlit("Snow");
                lemma_lex_distinct(t.text(), s.text());
            },
            Supertype::World => {
                reveal_strlit("Creature");
                reveal_strlit("World");
                lemma_lex_distinct(t.text(), s.text());
            },
        },
        Type::Enchantment => match s {
            Supertype::Basic => {
                reveal_strlit("Enchantment");
                reveal_strlit("Basic");
                lemma_lex_distinct(s.text(), t.text());
            },
            Supertype::Legendary => {
                reveal_strlit("Enchantment");
                reveal_strlit("Legendary");
                lemma_lex_distinct(t.text(), s.text());
            },
            Supertype::Ongoing => {
                reveal_strlit("Enchantment");
                reveal_strlit("Ongoing");
                lemma_lex_distinct(t.text(), s.text());
            },
            Supertype::Snow => {
                reveal_strlit("Enchantment");
                reveal_strlit("Snow");
                lemma_lex_distinct(t.text(), s.text());
            },
            Supertype::World => {
                reveal_strlit("Enchantment");
                reveal_strlit("World");
                lemma_lex_distinct(t.text(), s.text());
            },
        },
        Type::Instant => match s {
            Supertype::Basic => {
                reveal_strlit("Instant");
                reveal_strlit("Basic");
                lemma_lex_distinct(s.text(), t.text());
            },
            Supertype::Legendary => {
                reveal_strlit("Instant");
                reveal_strlit("Legendary");
                lemma_lex_distinct(t.text(), s.text());
            },
            Supertype::Ongoing => {
                reveal_strlit("Instant");
                reveal_strlit("Ongoing");
                lemma_lex_distinct(t.text(), s.text());
            },
            Supertype::Snow => {
                reveal_strlit("Instant");
                reveal_strlit("Snow");
                lemma_lex_distinct(t.text(), s.text());
            },
            Supertype::World => {
                reveal_strlit("Instant");
                reveal_strlit("World");
                lemma_lex_distinct(t.text(), s.text());
            },
        },
        Type::Land => match s {
            Supertype::Basic => {
                reveal_strlit("Land");
                reveal_strlit("Basic");
                lemma_lex_distinct(s.text(), t.text());
            },
            Supertype::Legendary => {
                reveal_strlit("Land");
                reveal_strlit("Legendary");
                lemma_lex_distinct(t.text(), s.text());
            },
            Supertype::Ongoing => {
                reveal_strlit("Land");
                reveal_strlit("Ongoing");
                lemma_lex_distinct(t.text(), s.text());
            },
            Supertype::Snow => {
                reveal_strlit("Land");
                reveal_strlit("Snow");
                lemma_lex_distinct(t.text(), s.text());
            },
            Supertype::World => {
                reveal_strlit("Land");
                reveal_strlit("World");
                lemma_lex_distinct(t.text(), s.text());
            },
        },
        Type::Phenomenon => match s {
            Supertype::Basic => {
                reveal_strlit("Phenomenon");
                reveal_strlit("Basic");
                lemma_lex_distinct(s.text(), t.text());
            },
            Supertype::Legendary => {
                reveal_strlit("Phenomenon");
                reveal_strlit("Legendary");
                lemma_lex_distinct(s.text(), t.text());
            },
            Supertype::Ongoing => {
                reveal_strlit("Phenomenon");
                reveal_strlit("Ongoing");
                lemma_lex_distinct(s.text(), t.text());
            },
            Supertype::Snow => {
                reveal_strlit("Phenomenon");
                reveal_strlit("Snow");
                lemma_lex_distinct(t.text(), s.text());
            },
            Supertype::World => {
                reveal_strlit("Phenomenon");
                reveal_strlit("World");
                lemma_lex_distinct(t.text(), s.text());
            },
        },
        Type::Plane => match s {
            Supertype::Basic => {
                reveal_strlit("Plane");
                reveal_strlit("Basic");
                lemma_lex_distinct(s.text(), t.text());
            },
            Supertype::Legendary => {
                reveal_strlit("Plane");
                reveal_strlit("Legendary");
                lemma_lex_distinct(s.text(), t.text());
            },
            Supertype::Ongoing => {
                reveal_strlit("Plane");
                reveal_strlit("Ongoing");
                lemma_lex_distinct(s.text(), t.text());
            },
            Supertype::Snow => {
                reveal_strlit("Plane");
                reveal_strlit("Snow");
                lemma_lex_distinct(t.text(), s.text());
            },
            Supertype::World => {
                reveal_strlit("Plane");
                reveal_strlit("World");
                lemma_lex_distinct(t.text(), s.text());
            },
        },
        Type::Planeswalker => match s {
            Supertype::Basic => {
                reveal_strlit("Planeswalker");
                reveal_strlit("Basic");
                lemma_lex_distinct(s.text(), t.text());
            },
            Supertype::Legendary => {
                reveal_strlit("Planeswalker");
                reveal_strlit("Legendary");
                lemma_lex_distinct(s.text(), t.text());
            },
            Supertype::Ongoing => {
                reveal_strlit("Planeswalker");
                reveal_strlit("Ongoing");
                lemma_lex_distinct(s.text(), t.text());
            },
            Supertype::Snow => {
                reveal_strlit("Planeswalker");
                reveal_strlit("Snow");
                lemma_lex_distinct(t.text(), s.text());
            },
            Supertype::World => {
                reveal_strlit("Planeswalker");
                reveal_strlit("World");
                lemma_lex_distinct(t.text(), s.text());
            },
        },
        Type::Scheme => match s {
            Supertype::Basic => {
                reveal_strlit("Scheme");
                reveal_strlit("Basic");
                lemma_lex_distinct(s.text(), t.text());
            },
            Supertype::Legendary => {
                reveal_strlit("Scheme");
                reveal_strlit("Legendary");
                lemma_lex_distinct(s.text(), t.text());
            },
            Supertype::Ongoing => {
                reveal_strlit("Scheme");
                reveal_strlit("Ongoing");
                lemma_lex_distinct(s.text(), t.text());
            },
            Supertype::Snow => {
                reveal_strlit("Scheme");
                reveal_strlit("Snow");
                lemma_lex_distinct(t.text(), s.text());
            },
            Supertype::World => {
                reveal_strlit("Scheme");
                reveal_strlit("World");
                lemma_lex_distinct(t.text(), s.text());
            },
        },
        Type::Sorcery => match s {
            Supertype::Basic => {
                reveal_strlit("Sorcery");
                reveal_strlit("Basic");
                lemma_lex_distinct(s.text(), t.text());
            },
            Supertype::Legendary => {
                reveal_strlit("Sorcery");
                reveal_strlit("Legendary");
                lemma_lex_distinct(s.text(), t.text());
            },
            Supertype::Ongoing => {
                reveal_strlit("Sorcery");
                reveal_strlit("Ongoing");
                lemma_lex_distinct(s.text(), t.text());
            },
            Supertype::Snow => {
                reveal_strlit("Sorcery");
                reveal_strlit("Snow");
                lemma_lex_distinct(s.text(), t.text());
            },
            Supertype::World => {
                reveal_strlit("Sorcery");
                reveal_strlit("World");
                lemma_lex_distinct(t.text(), s.text());
            },
        },
        Type::Tribal => match s {
            Supertype::Basic => {
                reveal_strlit("Tribal");
                reveal_strlit("Basic");
                lemma_lex_distinct(s.text(), t.text());
            },
            Supertype::Legendary => {
                reveal_strlit("Tribal");
                reveal_strlit("Legendary");
                lemma_lex_distinct(s.text(), t.text());
            },
            Supertype::Ongoing => {
                reveal_strlit("Tribal");
                reveal_strlit("Ongoing");
                lemma_lex_distinct(s.text(), t.text());
            },
            Supertype::Snow => {
                reveal_strlit("Tribal");
                reveal_strlit("Snow");
                lemma_lex_distinct(s.text(), t.text());
            },
            Supertype::World => {
                reveal_strlit("Tribal");
                reveal_strlit("World");
                lemma_lex_distinct(t.text(), s.text());
            },
        },
        Type::Vanguard => match s {
            Supertype::Basic => {
                reveal_strlit("Vanguard");
                reveal_strlit("Basic");
                lemma_lex_distinct(s.text(), t.text());
            },
            Supertype::Legendary => {
                reveal_strlit("Vanguard");
                reveal_strlit("Legendary");
                lemma_lex_distinct(s.text(), t.text());
            },
            Supertype::Ongoing => {
                reveal_strlit("Vanguard");
                reveal_strlit("Ongoing");
                lemma_lex_distinct(s.text(), t.text());
            },
            Supertype::Snow => {
                reveal_strlit("Vanguard");
                reveal_strlit("Snow");
                lemma_lex_distinct(s.text(), t.text());
            },
            Supertype::World => {
                reveal_strlit("Vanguard");
                reveal_strlit("World");
                lemma_lex_distinct(t.text(), s.text());
            },
        },
    }
}

/// The first word of a subtype name that has several words.
pub open spec fn head_word(x: Subtype) -> Seq<char> {
    if x == Subtype::Plane(PlanarType::BolassMeditationRealm) {
        "Bolas's"@
    } else if x == Subtype::Plane(PlanarType::NewPhyrexia) {
        "New"@
    } else {
        "Serra's"@
    }
}

/// A name of several words has no em dash, starts and ends with a character
/// that is not white space, and its first word is followed by a space and is
/// the name of no subtype.
pub proof fn lemma_multi_word(x: Subtype)
    requires
        is_multi_word(x),
    ensures
        forall|j: int| 0 <= j < x.text().len() ==> #[trigger] x.text()[j] != EM_DASH,
        x.text().len() > head_word(x).len(),
        !is_space(x.text()[0]),
        !is_space(x.text()[x.text().len() - 1]),
        x.text()[head_word(x).len() as int] == ' ',
        x.text().subrange(0, head_word(x).len() as int) == head_word(x),
        is_plain_word(head_word(x)),
        forall|y: Subtype| #[trigger] y.text() != head_word(x),
{
    reveal(PlanarType::text);
    reveal(CreatureType::text);
    reveal(PlaneswalkerType::text);
    reveal_with_fuel(dashless_from, 26);
    reveal_with_fuel(plain_from, 9);
    reveal_with_fuel(lex_lt_from, 9);
    let lo = if x == Subtype::Plane(PlanarType::BolassMeditationRealm) {
        Subtype::Planeswalker(PlaneswalkerType::Bolas)
    } else if x == Subtype::Plane(PlanarType::NewPhyrexia) {
        Subtype::Creature(CreatureType::Nephilim)
    } else {
        Subtype::Creature(CreatureType::Serpent)
    };
    if x == Subtype::Plane(PlanarType::BolassMeditationRealm) {
        reveal_strlit("Bolas's Meditation Realm");
        reveal_strlit("Bolas's");
        reveal_strlit("Bolas");
        assert(x.text().subrange(0, 7) =~= head_word(x));
    } else if x == Subtype::Plane(PlanarType::NewPhyrexia) {
        reveal_strlit("New Phyrexia");
        reveal_strlit("New");
        reveal_strlit("Nephilim");
        assert(x.text().subrange(0, 3) =~= head_word(x));
    } else {
        reveal_strlit("Serra's Realm");
        reveal_strlit("Serra's");
        reveal_strlit("Serpent");
        assert(x.text().subrange(0, 7) =~= head_word(x));
    }
    lemma_dashless_from(x.text(), 0);
    lemma_plain_from(head_word(x), 0);
    assert(lex_lt(lo.text(), head_word(x)));
    assert(lex_lt(head_word(x), x.text()));
    assert(subtype_rank(x) == subtype_rank(lo) + 1);
    assert forall|y: Subtype| #[trigger] y.text() != head_word(x) by {
        lemma_subtype_rank(y);
        lemma_subtype_rank(lo);
        lemma_subtype_rank(x);
        if subtype_rank(y) < subtype_rank(lo) {
            lemma_subtype_lt(y, lo);
            lemma_lex_trans(y.text(), lo.text(), head_word(x));
            lemma_lex_distinct(y.text(), head_word(x));
        } else if subtype_rank(y) == subtype_rank(lo) {
            lemma_lex_distinct(lo.text(), head_word(x));
        } else if subtype_rank(y) == subtype_rank(x) {
            lemma_lex_distinct(head_word(x), x.text());
        } else {
            lemma_subtype_lt(x, y);
            lemma_lex_trans(head_word(x), x.text(), y.text());
            lemma_lex_distinct(head_word(x), y.text());
        }
    }
}

} // verus!
