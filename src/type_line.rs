use vstd::prelude::*;

use indexmap::IndexSet;

use crate::index_set::{
    supertype_items, supertype_set_new, supertype_set_insert, supertype_set_contains, supertype_set_remove, supertype_set_values, type_items, type_set_new, type_set_insert, type_set_contains, type_set_remove, type_set_values, subtype_items, subtype_set_new, subtype_set_insert, subtype_set_contains, subtype_set_remove, subtype_set_values,
};
use crate::text::{
    is_space, is_word, lemma_words_concat, lemma_words_single, lemma_words_trailing,
    chars_of, copy_range, find_char, find_from, split_words, string_of, trim, trim_bounds,
    word_views, words,
};
use crate::type_::{Subtype, Supertype, Type};

verus! {

broadcast use vstd::seq_lib::group_filter_ensures;

/// The em dash that separates types from subtypes.
pub const EM_DASH: char = '\u{2014}';

/// `s` with `x` appended, unless `x` is already in it.
pub open spec fn add_unique<T>(s: Seq<T>, x: T) -> Seq<T> {
    if s.contains(x) {
        s
    } else {
        s.push(x)
    }
}

/// What adding the values of `s` one by one to an empty ordered set gives.
pub open spec fn insert_all<T>(s: Seq<T>) -> Seq<T>
    decreases s.len(),
{
    if s.len() == 0 {
        Seq::empty()
    } else {
        add_unique(insert_all(s.drop_last()), s.last())
    }
}

/// Each word followed by a space.
pub open spec fn each_followed(ws: Seq<Seq<char>>) -> Seq<char>
    decreases ws.len(),
{
    if ws.len() == 0 {
        Seq::empty()
    } else {
        each_followed(ws.drop_last()) + ws.last() + seq![' ']
    }
}

/// Each word preceded by a space.
pub open spec fn each_preceded(ws: Seq<Seq<char>>) -> Seq<char>
    decreases ws.len(),
{
    if ws.len() == 0 {
        Seq::empty()
    } else {
        each_preceded(ws.drop_last()) + seq![' '] + ws.last()
    }
}

/// The words separated by single spaces.
pub open spec fn joined(ws: Seq<Seq<char>>) -> Seq<char>
    decreases ws.len(),
{
    if ws.len() == 0 {
        Seq::empty()
    } else if ws.len() == 1 {
        ws[0]
    } else {
        joined(ws.drop_last()) + seq![' '] + ws.last()
    }
}

pub open spec fn supertype_texts(s: Seq<Supertype>) -> Seq<Seq<char>> {
    s.map_values(|x: Supertype| x.text())
}

pub open spec fn type_texts(s: Seq<Type>) -> Seq<Seq<char>> {
    s.map_values(|x: Type| x.text())
}

pub open spec fn subtype_texts(s: Seq<Subtype>) -> Seq<Seq<char>> {
    s.map_values(|x: Subtype| x.text())
}

/// The printed form of a type line: the supertypes and the types separated by
/// spaces, then, if there are subtypes, an em dash and the subtypes.
pub open spec fn render(supertypes: Seq<Supertype>, types: Seq<Type>, subtypes: Seq<Subtype>) -> Seq<
    char,
> {
    each_followed(supertype_texts(supertypes)) + joined(type_texts(types)) + if subtypes.len() > 0 {
        seq![' ', EM_DASH] + each_preceded(subtype_texts(subtypes))
    } else {
        Seq::empty()
    }
}

/// Whether the subtype is valid for one of the types.
pub open spec fn fits(subtype: Subtype, types: Seq<Type>) -> bool {
    exists|j: int| 0 <= j < types.len() && subtype.spec_valid_for(#[trigger] types[j])
}

/// A type line's subtypes each fit one of its types, and it has a type.
pub open spec fn valid(types: Seq<Type>, subtypes: Seq<Subtype>) -> bool {
    &&& types.len() > 0
    &&& forall|i: int| 0 <= i < subtypes.len() ==> fits(#[trigger] subtypes[i], types)
}

/// The position of the first word at or after `i` that does not name a
/// supertype.
pub open spec fn supertype_run(ws: Seq<Seq<char>>, i: int) -> int
    decreases ws.len() - i,
{
    if 0 <= i < ws.len() && Supertype::from_text(ws[i]) is Some {
        supertype_run(ws, i + 1)
    } else {
        i
    }
}

/// The supertypes that the words name.
pub open spec fn supertypes_named(ws: Seq<Seq<char>>) -> Seq<Supertype> {
    ws.map_values(|w: Seq<char>| Supertype::from_text(w)->0)
}

/// The position of the first word at or after `i` that does not name a
/// type.
pub open spec fn type_run(ws: Seq<Seq<char>>, i: int) -> int
    decreases ws.len() - i,
{
    if 0 <= i < ws.len() && Type::from_text(ws[i]) is Some {
        type_run(ws, i + 1)
    } else {
        i
    }
}

/// The types that the words name.
pub open spec fn types_named(ws: Seq<Seq<char>>) -> Seq<Type> {
    ws.map_values(|w: Seq<char>| Type::from_text(w)->0)
}

/// The position of the first word at or after `i` that does not name a
/// subtype.
pub open spec fn subtype_run(ws: Seq<Seq<char>>, i: int) -> int
    decreases ws.len() - i,
{
    if 0 <= i < ws.len() && Subtype::from_text(ws[i]) is Some {
        subtype_run(ws, i + 1)
    } else {
        i
    }
}

/// The subtypes that the words name.
pub open spec fn subtypes_named(ws: Seq<Seq<char>>) -> Seq<Subtype> {
    ws.map_values(|w: Seq<char>| Subtype::from_text(w)->0)
}

/// The subtypes after the em dash: the whole text if it names one subtype,
/// else one subtype for each word; or the first word that names none.
pub open spec fn parsed_subtypes(post: Seq<char>) -> Result<Seq<Subtype>, Seq<char>> {
    if Subtype::from_text(trim(post)) is Some {
        Ok(seq![Subtype::from_text(trim(post))->0])
    } else {
        let ws = words(post);
        let j = subtype_run(ws, 0);
        if j < ws.len() {
            Err(ws[j])
        } else {
            Ok(insert_all(subtypes_named(ws)))
        }
    }
}

/// What parsing a type line gives: its supertypes, types and subtypes, or
/// the first word that is out of place. Before the first em dash come words
/// that name supertypes, then words that name types; the text between the
/// first em dash and the next one, if any, holds the subtypes.
pub open spec fn parsed(s: Seq<char>) -> Result<Parts, Seq<char>> {
    let d = find_from(s, EM_DASH, 0);
    let ws = words(s.subrange(0, d));
    let k = supertype_run(ws, 0);
    let m = type_run(ws, k);
    if m < ws.len() {
        Err(ws[m])
    } else {
        let supertypes = insert_all(supertypes_named(ws.subrange(0, k)));
        let types = insert_all(types_named(ws.subrange(k, m)));
        if d < s.len() {
            match parsed_subtypes(s.subrange(d + 1, find_from(s, EM_DASH, d + 1))) {
                Ok(subtypes) => Ok((supertypes, types, subtypes)),
                Err(w) => Err(w),
            }
        } else {
            Ok((supertypes, types, Seq::empty()))
        }
    }
}

/// Supertypes, types and subtypes, in order.
pub type Parts = (Seq<Supertype>, Seq<Type>, Seq<Subtype>);

/// Whether the two sequences hold the same values.
pub open spec fn same_values<T>(a: Seq<T>, b: Seq<T>) -> bool {
    forall|x: T| a.contains(x) <==> b.contains(x)
}

/// Why a type line could not be read.
#[derive(Debug, Clone, PartialEq, Eq)]
pub enum TypeLineReadError {
    NotAnEmDash(String),
    /// A word that names nothing expected where it stands.
    ExtraParts(String),
}

/// Supertypes, types and subtypes, each an ordered set.
#[derive(Debug)]
pub struct TypeLine {
    supertypes: IndexSet<Supertype>,
    types: IndexSet<Type>,
    subtypes: IndexSet<Subtype>,
}

impl TypeLine {
    pub closed spec fn spec_supertypes(&self) -> Seq<Supertype> {
        supertype_items(self.supertypes)
    }

    pub closed spec fn spec_types(&self) -> Seq<Type> {
        type_items(self.types)
    }

    pub closed spec fn spec_subtypes(&self) -> Seq<Subtype> {
        subtype_items(self.subtypes)
    }

    pub open spec fn parts(&self) -> Parts {
        (self.spec_supertypes(), self.spec_types(), self.spec_subtypes())
    }

    /// No value occurs twice in any of the three sequences.
    pub open spec fn wf(&self) -> bool {
        &&& self.spec_supertypes().no_duplicates()
        &&& self.spec_types().no_duplicates()
        &&& self.spec_subtypes().no_duplicates()
    }

    pub open spec fn text(&self) -> Seq<char> {
        render(self.spec_supertypes(), self.spec_types(), self.spec_subtypes())
    }

    pub fn new() -> (r: TypeLine)
        ensures
            r.wf(),
            r.spec_supertypes() == Seq::<Supertype>::empty(),
            r.spec_types() == Seq::<Type>::empty(),
            r.spec_subtypes() == Seq::<Subtype>::empty(),
    {
        TypeLine {
            supertypes: supertype_set_new(),
            types: type_set_new(),
            subtypes: subtype_set_new(),
        }
    }

    /// A type line holding the given values, each in the position where it
    /// first occurs.
    pub fn from_iters(supertypes: Vec<Supertype>, types: Vec<Type>, subtypes: Vec<Subtype>) -> (r:
        TypeLine)
        ensures
            r.wf(),
            r.spec_supertypes() == insert_all(supertypes@),
            r.spec_types() == insert_all(types@),
            r.spec_subtypes() == insert_all(subtypes@),
    {
        let mut r = TypeLine::new();
        let mut i: usize = 0;
        while i < supertypes.len()
            invariant
                r.wf(),
                0 <= i <= supertypes@.len(),
                r.spec_supertypes() == insert_all(supertypes@.subrange(0, i as int)),
                r.spec_types() == Seq::<Type>::empty(),
                r.spec_subtypes() == Seq::<Subtype>::empty(),
            decreases supertypes@.len() - i,
        {
            r.add_supertype(supertypes[i]);
            assert(supertypes@.subrange(0, i as int + 1).drop_last() =~= supertypes@.subrange(
                0,
                i as int,
            ));
            i = i + 1;
        }
        assert(supertypes@.subrange(0, supertypes@.len() as int) =~= supertypes@);
        let mut i: usize = 0;
        while i < types.len()
            invariant
                r.wf(),
                0 <= i <= types@.len(),
                r.spec_supertypes() == insert_all(supertypes@),
                r.spec_types() == insert_all(types@.subrange(0, i as int)),
                r.spec_subtypes() == Seq::<Subtype>::empty(),
            decreases types@.len() - i,
        {
            r.add_type(types[i]);
            assert(types@.subrange(0, i as int + 1).drop_last() =~= types@.subrange(0, i as int));
            i = i + 1;
        }
        assert(types@.subrange(0, types@.len() as int) =~= types@);
        let mut i: usize = 0;
        while i < subtypes.len()
            invariant
                r.wf(),
                0 <= i <= subtypes@.len(),
                r.spec_supertypes() == insert_all(supertypes@),
                r.spec_types() == insert_all(types@),
                r.spec_subtypes() == insert_all(subtypes@.subrange(0, i as int)),
            decreases subtypes@.len() - i,
        {
            r.add_subtype(subtypes[i]);
            assert(subtypes@.subrange(0, i as int + 1).drop_last() =~= subtypes@.subrange(
                0,
                i as int,
            ));
            i = i + 1;
        }
        assert(supertypes@.subrange(0, supertypes@.len() as int) =~= supertypes@);
        assert(types@.subrange(0, types@.len() as int) =~= types@);
        assert(subtypes@.subrange(0, subtypes@.len() as int) =~= subtypes@);
        r
    }

    pub fn add_supertype(&mut self, supertype: Supertype)
        requires
            old(self).wf(),
        ensures
            final(self).wf(),
            final(self).spec_supertypes() == add_unique(old(self).spec_supertypes(), supertype),
            final(self).spec_types() == old(self).spec_types(),
            final(self).spec_subtypes() == old(self).spec_subtypes(),
    {
        supertype_set_insert(&mut self.supertypes, supertype);
        proof {
            lemma_add_unique_no_duplicates(old(self).spec_supertypes(), supertype);
        }
    }

    pub fn add_type(&mut self, type_: Type)
        requires
            old(self).wf(),
        ensures
            final(self).wf(),
            final(self).spec_supertypes() == old(self).spec_supertypes(),
            final(self).spec_types() == add_unique(old(self).spec_types(), type_),
            final(self).spec_subtypes() == old(self).spec_subtypes(),
    {
        type_set_insert(&mut self.types, type_);
        proof {
            lemma_add_unique_no_duplicates(old(self).spec_types(), type_);
        }
    }

    pub fn add_subtype(&mut self, subtype: Subtype)
        requires
            old(self).wf(),
        ensures
            final(self).wf(),
            final(self).spec_supertypes() == old(self).spec_supertypes(),
            final(self).spec_types() == old(self).spec_types(),
            final(self).spec_subtypes() == add_unique(old(self).spec_subtypes(), subtype),
    {
        subtype_set_insert(&mut self.subtypes, subtype);
        proof {
            lemma_add_unique_no_duplicates(old(self).spec_subtypes(), subtype);
        }
    }

    pub fn has_supertype(&self, supertype: Supertype) -> (r: bool)
        ensures
            r == self.spec_supertypes().contains(supertype),
    {
        supertype_set_contains(&self.supertypes, supertype)
    }

    pub fn has_type(&self, type_: Type) -> (r: bool)
        ensures
            r == self.spec_types().contains(type_),
    {
        type_set_contains(&self.types, type_)
    }

    pub fn has_subtype(&self, subtype: Subtype) -> (r: bool)
        ensures
            r == self.spec_subtypes().contains(subtype),
    {
        subtype_set_contains(&self.subtypes, subtype)
    }

    pub fn remove_supertype(&mut self, supertype: Supertype)
        requires
            old(self).wf(),
        ensures
            final(self).wf(),
            final(self).spec_supertypes() == old(self).spec_supertypes().filter(
                |x: Supertype| x != supertype,
            ),
            final(self).spec_types() == old(self).spec_types(),
            final(self).spec_subtypes() == old(self).spec_subtypes(),
    {
        supertype_set_remove(&mut self.supertypes, supertype);
        proof {
            lemma_filter_no_duplicates(old(self).spec_supertypes(), |x: Supertype| x != supertype);
        }
    }

    pub fn remove_type(&mut self, type_: Type)
        requires
            old(self).wf(),
        ensures
            final(self).wf(),
            final(self).spec_supertypes() == old(self).spec_supertypes(),
            final(self).spec_types() == old(self).spec_types().filter(|x: Type| x != type_),
            final(self).spec_subtypes() == old(self).spec_subtypes(),
    {
        type_set_remove(&mut self.types, type_);
        proof {
            lemma_filter_no_duplicates(old(self).spec_types(), |x: Type| x != type_);
        }
    }

    pub fn remove_subtype(&mut self, subtype: Subtype)
        requires
            old(self).wf(),
        ensures
            final(self).wf(),
            final(self).spec_supertypes() == old(self).spec_supertypes(),
            final(self).spec_types() == old(self).spec_types(),
            final(self).spec_subtypes() == old(self).spec_subtypes().filter(
                |x: Subtype| x != subtype,
            ),
    {
        subtype_set_remove(&mut self.subtypes, subtype);
        proof {
            lemma_filter_no_duplicates(old(self).spec_subtypes(), |x: Subtype| x != subtype);
        }
    }

    /// The types in insertion order.
    pub fn types_iter(&self) -> (r: Vec<Type>)
        ensures
            r@ == self.spec_types(),
    {
        type_set_values(&self.types)
    }

    /// The subtypes in insertion order.
    pub fn subtypes_iter(&self) -> (r: Vec<Subtype>)
        ensures
            r@ == self.spec_subtypes(),
    {
        subtype_set_values(&self.subtypes)
    }

    /// The supertypes in insertion order.
    pub fn supertypes_iter(&self) -> (r: Vec<Supertype>)
        ensures
            r@ == self.spec_supertypes(),
    {
        supertype_set_values(&self.supertypes)
    }

    /// Whether the type line has a type and each subtype fits one of its types.
    pub fn is_valid(&self) -> (r: bool)
        ensures
            r == valid(self.spec_types(), self.spec_subtypes()),
    {
        let types = self.types_iter();
        if types.len() == 0 {
            return false;
        }
        let subtypes = self.subtypes_iter();
        let mut i: usize = 0;
        while i < subtypes.len()
            invariant
                types@ == self.spec_types(),
                subtypes@ == self.spec_subtypes(),
                types@.len() > 0,
                0 <= i <= subtypes@.len(),
                forall|k: int| 0 <= k < i ==> fits(#[trigger] subtypes@[k], types@),
            decreases subtypes@.len() - i,
        {
            let mut found = false;
            let mut j: usize = 0;
            while j < types.len()
                invariant
                    types@ == self.spec_types(),
                    subtypes@ == self.spec_subtypes(),
                    types@.len() > 0,
                    forall|k: int| 0 <= k < i ==> fits(#[trigger] subtypes@[k], types@),
                    0 <= j <= types@.len(),
                    0 <= i < subtypes@.len(),
                    found ==> fits(subtypes@[i as int], types@),
                    !found ==> forall|m: int|
                        0 <= m < j ==> !subtypes@[i as int].spec_valid_for(#[trigger] types@[m]),
                decreases types@.len() - j,
            {
                if subtypes[i].valid_for(types[j]) {
                    found = true;
                }
                j = j + 1;
            }
            if !found {
                assert(!fits(subtypes@[i as int], types@));
                return false;
            }
            i = i + 1;
        }
        true
    }

    /// The printed type line.
    pub fn to_string(&self) -> (r: String)
        ensures
            r@ == self.text(),
    {
        let supertypes = self.supertypes_iter();
        let types = self.types_iter();
        let subtypes = self.subtypes_iter();
        let mut r = String::new();
        proof {
            reveal_strlit(" ");
            reveal_strlit(" \u{2014}");
        }
        let mut i: usize = 0;
        while i < supertypes.len()
            invariant
                0 <= i <= supertypes@.len(),
                r@ == each_followed(supertype_texts(supertypes@.subrange(0, i as int))),
            decreases supertypes@.len() - i,
        {
            proof {
                reveal_strlit(" ");
            }
            r.append(supertypes[i].name());
            r.append(" ");
            assert(supertype_texts(supertypes@.subrange(0, i as int + 1)).drop_last()
                =~= supertype_texts(supertypes@.subrange(0, i as int)));
            assert(r@ =~= each_followed(supertype_texts(supertypes@.subrange(0, i as int + 1))));
            i = i + 1;
        }
        assert(supertypes@.subrange(0, supertypes@.len() as int) =~= supertypes@);
        let ghost head = r@;
        let mut i: usize = 0;
        while i < types.len()
            invariant
                0 <= i <= types@.len(),
                r@ == head + joined(type_texts(types@.subrange(0, i as int))),
            decreases types@.len() - i,
        {
            proof {
                reveal_strlit(" ");
            }
            if i > 0 {
                r.append(" ");
            }
            r.append(types[i].name());
            assert(type_texts(types@.subrange(0, i as int + 1)).drop_last() =~= type_texts(
                types@.subrange(0, i as int),
            ));
            assert(r@ =~= head + joined(type_texts(types@.subrange(0, i as int + 1))));
            i = i + 1;
        }
        assert(types@.subrange(0, types@.len() as int) =~= types@);
        if subtypes.len() > 0 {
            r.append(" \u{2014}");
        }
        let ghost head = r@;
        let mut i: usize = 0;
        while i < subtypes.len()
            invariant
                0 <= i <= subtypes@.len(),
                r@ == head + each_preceded(subtype_texts(subtypes@.subrange(0, i as int))),
            decreases subtypes@.len() - i,
        {
            proof {
                reveal_strlit(" ");
            }
            r.append(" ");
            r.append(subtypes[i].name());
            assert(subtype_texts(subtypes@.subrange(0, i as int + 1)).drop_last() =~= subtype_texts(
                subtypes@.subrange(0, i as int),
            ));
            assert(r@ =~= head + each_preceded(subtype_texts(subtypes@.subrange(0, i as int + 1))));
            i = i + 1;
        }
        assert(subtypes@.subrange(0, subtypes@.len() as int) =~= subtypes@);
        assert(r@ =~= self.text());
        r
    }

    /// Reads a type line.
    pub fn parse(s: &str) -> (r: Result<TypeLine, TypeLineReadError>)
        ensures
            match r {
                Ok(line) => line.wf() && parsed(s@) == Ok::<Parts, Seq<char>>(line.parts()),
                Err(TypeLineReadError::ExtraParts(w)) => parsed(s@) == Err::<Parts, Seq<char>>(w@),
                Err(TypeLineReadError::NotAnEmDash(_)) => false,
            },
    {
        let t = chars_of(s);
        let d = find_char(&t, EM_DASH, 0);
        let pre = copy_range(&t, 0, d);
        let ws = split_words(&pre);
        let ghost wv = word_views(ws@);
        let mut line = TypeLine::new();
        let mut i: usize = 0;
        let mut done = false;
        while !done && i < ws.len()
            invariant
                wv == word_views(ws@),
                line.wf(),
                0 <= i <= ws@.len(),
                supertype_run(wv, 0) == supertype_run(wv, i as int),
                done ==> i < ws@.len() && Supertype::from_text(wv[i as int]) is None,
                line.spec_supertypes() == insert_all(supertypes_named(wv.subrange(0, i as int))),
                line.spec_types() == Seq::<Type>::empty(),
                line.spec_subtypes() == Seq::<Subtype>::empty(),
            decreases ws@.len() - i + if done { 0int } else { 1int },
        {
            assert(ws@[i as int]@.subrange(0, ws@[i as int]@.len() as int) =~= wv[i as int]);
            match Supertype::parse_range(&ws[i], 0, ws[i].len()) {
                Some(x) => {
                    line.add_supertype(x);
                    assert(supertypes_named(wv.subrange(0, i as int + 1)).drop_last()
                        =~= supertypes_named(wv.subrange(0, i as int)));
                    i = i + 1;
                },
                None => {
                    done = true;
                },
            }
        }
        let k = i;
        let ghost sups = line.spec_supertypes();
        let mut done = false;
        while !done && i < ws.len()
            invariant
                wv == word_views(ws@),
                line.wf(),
                0 <= k <= i <= ws@.len(),
                type_run(wv, k as int) == type_run(wv, i as int),
                done ==> i < ws@.len() && Type::from_text(wv[i as int]) is None,
                line.spec_supertypes() == sups,
                line.spec_types() == insert_all(types_named(wv.subrange(k as int, i as int))),
                line.spec_subtypes() == Seq::<Subtype>::empty(),
            decreases ws@.len() - i + if done { 0int } else { 1int },
        {
            assert(ws@[i as int]@.subrange(0, ws@[i as int]@.len() as int) =~= wv[i as int]);
            match Type::parse_range(&ws[i], 0, ws[i].len()) {
                Some(x) => {
                    line.add_type(x);
                    assert(types_named(wv.subrange(k as int, i as int + 1)).drop_last()
                        =~= types_named(wv.subrange(k as int, i as int)));
                    i = i + 1;
                },
                None => {
                    done = true;
                },
            }
        }
        if i < ws.len() {
            return Err(TypeLineReadError::ExtraParts(string_of(&ws[i])));
        }
        if d < t.len() {
            let e = find_char(&t, EM_DASH, d + 1);
            let post = copy_range(&t, d + 1, e);
            let (a, b) = trim_bounds(&post);
            match Subtype::parse_range(&post, a, b) {
                Some(x) => {
                    line.add_subtype(x);
                },
                None => {
                    let ws2 = split_words(&post);
                    let ghost wv2 = word_views(ws2@);
                    let ghost tys = line.spec_types();
                    let mut j: usize = 0;
                    let mut done = false;
                    while !done && j < ws2.len()
                        invariant
                            wv2 == word_views(ws2@),
                            line.wf(),
                            0 <= j <= ws2@.len(),
                            subtype_run(wv2, 0) == subtype_run(wv2, j as int),
                            done ==> j < ws2@.len() && Subtype::from_text(wv2[j as int]) is None,
                            line.spec_supertypes() == sups,
                            line.spec_types() == tys,
                            line.spec_subtypes() == insert_all(
                                subtypes_named(wv2.subrange(0, j as int)),
                            ),
                        decreases ws2@.len() - j + if done { 0int } else { 1int },
                    {
                        assert(ws2@[j as int]@.subrange(0, ws2@[j as int]@.len() as int)
                            =~= wv2[j as int]);
                        match Subtype::parse_range(&ws2[j], 0, ws2[j].len()) {
                            Some(x) => {
                                line.add_subtype(x);
                                assert(subtypes_named(wv2.subrange(0, j as int + 1)).drop_last()
                                    =~= subtypes_named(wv2.subrange(0, j as int)));
                                j = j + 1;
                            },
                            None => {
                                done = true;
                            },
                        }
                    }
                    if j < ws2.len() {
                        return Err(TypeLineReadError::ExtraParts(string_of(&ws2[j])));
                    }
                    assert(wv2.subrange(0, j as int) =~= wv2);
                },
            }
        }
        proof {
            assert(pre@ =~= s@.subrange(0, d as int));
            assert(wv.subrange(0, k as int) =~= wv.subrange(0, k as int));
        }
        Ok(line)
    }

    /// Whether every supertype of `self` is one of `other`.
    fn supertypes_within(&self, other: &TypeLine) -> (r: bool)
        ensures
            r == forall|x: Supertype|
                self.spec_supertypes().contains(x) ==> other.spec_supertypes().contains(x),
    {
        let v = self.supertypes_iter();
        let mut i: usize = 0;
        while i < v.len()
            invariant
                v@ == self.spec_supertypes(),
                0 <= i <= v@.len(),
                forall|k: int| 0 <= k < i ==> other.spec_supertypes().contains(#[trigger] v@[k]),
            decreases v@.len() - i,
        {
            if !other.has_supertype(v[i]) {
                return false;
            }
            i = i + 1;
        }
        true
    }

    /// Whether every type of `self` is one of `other`.
    fn types_within(&self, other: &TypeLine) -> (r: bool)
        ensures
            r == forall|x: Type| self.spec_types().contains(x) ==> other.spec_types().contains(x),
    {
        let v = self.types_iter();
        let mut i: usize = 0;
        while i < v.len()
            invariant
                v@ == self.spec_types(),
                0 <= i <= v@.len(),
                forall|k: int| 0 <= k < i ==> other.spec_types().contains(#[trigger] v@[k]),
            decreases v@.len() - i,
        {
            if !other.has_type(v[i]) {
                return false;
            }
            i = i + 1;
        }
        true
    }

    /// Whether every subtype of `self` is one of `other`.
    fn subtypes_within(&self, other: &TypeLine) -> (r: bool)
        ensures
            r == forall|x: Subtype|
                self.spec_subtypes().contains(x) ==> other.spec_subtypes().contains(x),
    {
        let v = self.subtypes_iter();
        let mut i: usize = 0;
        while i < v.len()
            invariant
                v@ == self.spec_subtypes(),
                0 <= i <= v@.len(),
                forall|k: int| 0 <= k < i ==> other.spec_subtypes().contains(#[trigger] v@[k]),
            decreases v@.len() - i,
        {
            if !other.has_subtype(v[i]) {
                return false;
            }
            i = i + 1;
        }
        true
    }
}

impl PartialEq for TypeLine {
    fn eq(&self, other: &TypeLine) -> (r: bool) {
        self.supertypes_within(other) && other.supertypes_within(self) && self.types_within(other)
            && other.types_within(self) && self.subtypes_within(other) && other.subtypes_within(
            self,
        )
    }
}

impl vstd::std_specs::cmp::PartialEqSpecImpl for TypeLine {
    open spec fn obeys_eq_spec() -> bool {
        true
    }

    open spec fn eq_spec(&self, other: &TypeLine) -> bool {
        &&& same_values(self.spec_supertypes(), other.spec_supertypes())
        &&& same_values(self.spec_types(), other.spec_types())
        &&& same_values(self.spec_subtypes(), other.spec_subtypes())
    }
}

impl Eq for TypeLine {}

impl Default for TypeLine {
    fn default() -> (r: TypeLine)
        ensures
            r.wf(),
            r.spec_supertypes() == Seq::<Supertype>::empty(),
            r.spec_types() == Seq::<Type>::empty(),
            r.spec_subtypes() == Seq::<Subtype>::empty(),
    {
        TypeLine::new()
    }
}

impl core::str::FromStr for TypeLine {
    type Err = TypeLineReadError;

    fn from_str(s: &str) -> Result<TypeLine, TypeLineReadError> {
        TypeLine::parse(s)
    }
}


impl Clone for TypeLine {
    fn clone(&self) -> (r: TypeLine)
        ensures
            r.spec_supertypes() == insert_all(self.spec_supertypes()),
            r.spec_types() == insert_all(self.spec_types()),
            r.spec_subtypes() == insert_all(self.spec_subtypes()),
    {
        TypeLine::from_iters(self.supertypes_iter(), self.types_iter(), self.subtypes_iter())
    }
}

/// Every one of `ws` is a word.
pub open spec fn all_words(ws: Seq<Seq<char>>) -> bool {
    forall|k: int| 0 <= k < ws.len() ==> is_word(#[trigger] ws[k])
}

proof fn lemma_space()
    ensures
        is_space(' '),
{
    assert((' ' as u32) == 0x20);
}

proof fn lemma_words_each_followed(ws: Seq<Seq<char>>)
    requires
        all_words(ws),
    ensures
        words(each_followed(ws)) == ws,
        each_followed(ws).len() == 0 || is_space(each_followed(ws).last()),
    decreases ws.len(),
{
    lemma_space();
    if ws.len() == 0 {
        assert(words(Seq::<char>::empty()) =~= Seq::<Seq<char>>::empty());
    } else {
        let rest = each_followed(ws.drop_last());
        let w = ws.last();
        assert(all_words(ws.drop_last()));
        lemma_words_each_followed(ws.drop_last());
        assert(each_followed(ws) =~= rest + w.push(' '));
        lemma_words_concat(rest, w.push(' '));
        lemma_words_trailing(w);
        lemma_words_single(w);
        assert(ws.drop_last() + seq![w] =~= ws);
    }
}

proof fn lemma_words_each_preceded(ws: Seq<Seq<char>>)
    requires
        all_words(ws),
    ensures
        words(each_preceded(ws)) == ws,
    decreases ws.len(),
{
    lemma_space();
    if ws.len() == 0 {
        assert(words(Seq::<char>::empty()) =~= Seq::<Seq<char>>::empty());
    } else {
        let rest = each_preceded(ws.drop_last());
        let w = ws.last();
        assert(all_words(ws.drop_last()));
        lemma_words_each_preceded(ws.drop_last());
        assert(each_preceded(ws) =~= rest.push(' ') + w);
        lemma_words_concat(rest.push(' '), w);
        lemma_words_trailing(rest);
        lemma_words_single(w);
        assert(ws.drop_last() + seq![w] =~= ws);
    }
}

proof fn lemma_words_joined(ws: Seq<Seq<char>>)
    requires
        all_words(ws),
    ensures
        words(joined(ws)) == ws,
    decreases ws.len(),
{
    lemma_space();
    if ws.len() == 0 {
        assert(words(Seq::<char>::empty()) =~= Seq::<Seq<char>>::empty());
    } else if ws.len() == 1 {
        lemma_words_single(ws[0]);
        assert(seq![ws[0]] =~= ws);
    } else {
        let rest = joined(ws.drop_last());
        let w = ws.last();
        assert(all_words(ws.drop_last()));
        lemma_words_joined(ws.drop_last());
        assert(joined(ws) =~= rest.push(' ') + w);
        lemma_words_concat(rest.push(' '), w);
        lemma_words_trailing(rest);
        lemma_words_single(w);
        assert(ws.drop_last() + seq![w] =~= ws);
    }
}

/// Splitting printed names into words gives the names back, in order, when
/// every name is a single word: both the supertypes and types printed before
/// the em dash, whether or not a space follows them, and the subtypes printed
/// after it.
pub proof fn lemma_words_of_printed_names(
    supertypes: Seq<Seq<char>>,
    types: Seq<Seq<char>>,
    subtypes: Seq<Seq<char>>,
)
    requires
        all_words(supertypes),
        all_words(types),
        all_words(subtypes),
    ensures
        words(each_followed(supertypes) + joined(types)) == supertypes + types,
        words((each_followed(supertypes) + joined(types)).push(' ')) == supertypes + types,
        words(each_preceded(subtypes)) == subtypes,
{
    lemma_words_each_followed(supertypes);
    lemma_words_joined(types);
    lemma_words_each_preceded(subtypes);
    lemma_words_concat(each_followed(supertypes), joined(types));
    lemma_words_trailing(each_followed(supertypes) + joined(types));
}

proof fn lemma_add_unique_no_duplicates<T>(s: Seq<T>, x: T)
    requires
        s.no_duplicates(),
    ensures
        add_unique(s, x).no_duplicates(),
{
}

proof fn lemma_filter_subset<T>(s: Seq<T>, p: spec_fn(T) -> bool, x: T)
    ensures
        s.filter(p).contains(x) ==> s.contains(x),
    decreases s.len(),
{
    reveal(Seq::filter);
    if s.len() > 0 {
        lemma_filter_subset(s.drop_last(), p, x);
        if s.filter(p).contains(x) && x != s.last() {
            let k = choose|k: int| 0 <= k < s.filter(p).len() && s.filter(p)[k] == x;
            if p(s.last()) {
                assert(s.drop_last().filter(p).push(s.last())[k] == x);
                assert(s.drop_last().filter(p)[k] == x);
            }
            assert(s.drop_last().filter(p).contains(x));
            let j = choose|j: int| 0 <= j < s.drop_last().len() && s.drop_last()[j] == x;
            assert(s[j] == x);
        }
    }
}

proof fn lemma_filter_no_duplicates<T>(s: Seq<T>, p: spec_fn(T) -> bool)
    requires
        s.no_duplicates(),
    ensures
        s.filter(p).no_duplicates(),
    decreases s.len(),
{
    reveal(Seq::filter);
    if s.len() > 0 {
        lemma_filter_no_duplicates(s.drop_last(), p);
        assert(!s.drop_last().contains(s.last()));
        lemma_filter_subset(s.drop_last(), p, s.last());
        assert(s.drop_last().push(s.last()) =~= s);
        if p(s.last()) {
            assert(s.filter(p) == s.drop_last().filter(p).push(s.last()));
        } else {
            assert(s.filter(p) == s.drop_last().filter(p));
        }
    }
}

} // verus!
