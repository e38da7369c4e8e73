use vstd::prelude::*;

use crate::name_facts::{
    head_word, is_multi_word, lemma_multi_word, lemma_subtype_lookup,
    lemma_subtype_own_name, lemma_supertype_own_name, lemma_type_not_supertype,
    lemma_type_own_name,
};
use crate::text::{find_from, is_space, is_word, skip_spaces, trim, trim_end_from, words};
use crate::type_::{Subtype, Supertype, Type};
use crate::type_line::{
    all_words, each_followed, each_preceded, insert_all, joined,
    lemma_words_of_printed_names, parsed, parsed_subtypes, render, subtype_run, subtype_texts,
    subtypes_named, supertype_run, supertype_texts, supertypes_named, type_run, type_texts,
    types_named, Parts, TypeLine, EM_DASH,
};

verus! {

/// No character of `s` is an em dash.
spec fn dashless(s: Seq<char>) -> bool {
    forall|i: int| 0 <= i < s.len() ==> #[trigger] s[i] != EM_DASH
}

/// Every one of `ws` is without em dash.
spec fn all_dashless(ws: Seq<Seq<char>>) -> bool {
    forall|k: int| 0 <= k < ws.len() ==> dashless(#[trigger] ws[k])
}

proof fn lemma_dashless_concat(a: Seq<char>, b: Seq<char>)
    requires
        dashless(a),
        dashless(b),
    ensures
        dashless(a + b),
{
    assert forall|i: int| 0 <= i < (a + b).len() implies #[trigger] (a + b)[i] != EM_DASH by {
        if i >= a.len() {
            assert((a + b)[i] == b[i - a.len()]);
        }
    }
}

proof fn lemma_dashless_each_followed(ws: Seq<Seq<char>>)
    requires
        all_dashless(ws),
    ensures
        dashless(each_followed(ws)),
    decreases ws.len(),
{
    if ws.len() > 0 {
        lemma_dashless_each_followed(ws.drop_last());
        lemma_dashless_concat(each_followed(ws.drop_last()), ws.last());
        lemma_dashless_concat(each_followed(ws.drop_last()) + ws.last(), seq![' ']);
    }
}

proof fn lemma_dashless_each_preceded(ws: Seq<Seq<char>>)
    requires
        all_dashless(ws),
    ensures
        dashless(each_preceded(ws)),
    decreases ws.len(),
{
    if ws.len() > 0 {
        lemma_dashless_each_preceded(ws.drop_last());
        lemma_dashless_concat(each_preceded(ws.drop_last()), seq![' ']);
        lemma_dashless_concat(each_preceded(ws.drop_last()) + seq![' '], ws.last());
    }
}

proof fn lemma_dashless_joined(ws: Seq<Seq<char>>)
    requires
        all_dashless(ws),
    ensures
        dashless(joined(ws)),
    decreases ws.len(),
{
    if ws.len() > 1 {
        lemma_dashless_joined(ws.drop_last());
        lemma_dashless_concat(joined(ws.drop_last()), seq![' ']);
        lemma_dashless_concat(joined(ws.drop_last()) + seq![' '], ws.last());
    }
}

proof fn lemma_find_none(s: Seq<char>, i: int)
    requires
        0 <= i <= s.len(),
        forall|j: int| i <= j < s.len() ==> #[trigger] s[j] != EM_DASH,
    ensures
        find_from(s, EM_DASH, i) == s.len(),
    decreases s.len() - i,
{
    if i < s.len() {
        lemma_find_none(s, i + 1);
    }
}

proof fn lemma_find_at(s: Seq<char>, i: int, p: int)
    requires
        0 <= i <= p < s.len(),
        s[p] == EM_DASH,
        forall|j: int| i <= j < p ==> #[trigger] s[j] != EM_DASH,
    ensures
        find_from(s, EM_DASH, i) == p,
    decreases p - i,
{
    if i < p {
        lemma_find_at(s, i + 1, p);
    }
}

proof fn lemma_insert_all_unique<T>(s: Seq<T>)
    requires
        s.no_duplicates(),
    ensures
        insert_all(s) == s,
    decreases s.len(),
{
    if s.len() > 0 {
        assert(s.drop_last().no_duplicates());
        lemma_insert_all_unique(s.drop_last());
        assert(!s.drop_last().contains(s.last()));
        assert(s.drop_last().push(s.last()) =~= s);
    }
}

proof fn lemma_preceded_is_joined(ws: Seq<Seq<char>>)
    requires
        ws.len() > 0,
    ensures
        each_preceded(ws) == seq![' '] + joined(ws),
    decreases ws.len(),
{
    if ws.len() == 1 {
        assert(each_preceded(ws.drop_last()) =~= Seq::<char>::empty());
        assert(each_preceded(ws) =~= seq![' '] + joined(ws));
    } else {
        lemma_preceded_is_joined(ws.drop_last());
        assert(each_preceded(ws) =~= seq![' '] + joined(ws));
    }
}

proof fn lemma_joined_ends(ws: Seq<Seq<char>>)
    requires
        ws.len() > 0,
        forall|k: int| 0 <= k < ws.len() ==> (#[trigger] ws[k]).len() > 0,
    ensures
        joined(ws).len() > 0,
        joined(ws)[0] == ws[0][0],
        joined(ws)[joined(ws).len() - 1] == ws.last()[ws.last().len() - 1],
    decreases ws.len(),
{
    if ws.len() > 1 {
        lemma_joined_ends(ws.drop_last());
        let a = joined(ws.drop_last()) + seq![' '];
        assert((a + ws.last())[0] == a[0]);
        assert((a + ws.last())[(a + ws.last()).len() - 1] == ws.last()[ws.last().len() - 1]);
    }
}

/// For two or more words, the first word, a space, then the rest.
proof fn lemma_joined_first(ws: Seq<Seq<char>>)
    requires
        ws.len() > 1,
    ensures
        joined(ws) == ws[0] + seq![' '] + joined(ws.drop_first()),
    decreases ws.len(),
{
    if ws.len() == 2 {
        assert(ws.drop_last().len() == 1);
        assert(joined(ws.drop_last()) == ws.drop_last()[0]);
        assert(ws.drop_first().len() == 1);
        assert(joined(ws.drop_first()) == ws.drop_first()[0]);
        assert(ws.drop_first()[0] == ws.last());
        assert(joined(ws) =~= ws[0] + seq![' '] + joined(ws.drop_first()));
    } else {
        lemma_joined_first(ws.drop_last());
        assert(ws.drop_last().drop_first() =~= ws.drop_first().drop_last());
        assert(ws.drop_first().last() == ws.last());
        assert(joined(ws) =~= ws[0] + seq![' '] + joined(ws.drop_first()));
    }
}

proof fn lemma_supertype_run(sups: Seq<Supertype>, types: Seq<Type>, i: int)
    requires
        0 <= i <= sups.len(),
    ensures
        supertype_run(supertype_texts(sups) + type_texts(types), i) == sups.len(),
    decreases sups.len() - i,
{
    let ws = supertype_texts(sups) + type_texts(types);
    if i < sups.len() {
        assert(ws[i] == sups[i].text());
        lemma_supertype_own_name(sups[i]);
        lemma_supertype_run(sups, types, i + 1);
    } else if types.len() > 0 {
        assert(ws[i] == types[0].text());
        lemma_type_not_supertype(types[0]);
    }
}

proof fn lemma_type_run(sups: Seq<Supertype>, types: Seq<Type>, j: int)
    requires
        0 <= j <= types.len(),
    ensures
        type_run(supertype_texts(sups) + type_texts(types), sups.len() + j) == sups.len()
            + types.len(),
    decreases types.len() - j,
{
    let ws = supertype_texts(sups) + type_texts(types);
    if j < types.len() {
        assert(ws[sups.len() + j] == types[j].text());
        lemma_type_own_name(types[j]);
        lemma_type_run(sups, types, j + 1);
    }
}

proof fn lemma_subtype_run(subs: Seq<Subtype>, j: int)
    requires
        0 <= j <= subs.len(),
    ensures
        subtype_run(subtype_texts(subs), j) == subs.len(),
    decreases subs.len() - j,
{
    if j < subs.len() {
        lemma_subtype_own_name(subs[j]);
        lemma_subtype_run(subs, j + 1);
    }
}

/// The printed subtypes, two or more single words, do not read as the name
/// of one subtype.
proof fn lemma_joined_not_a_subtype(subs: Seq<Subtype>)
    requires
        subs.len() > 1,
        forall|i: int| 0 <= i < subs.len() ==> !is_multi_word(#[trigger] subs[i]),
    ensures
        Subtype::from_text(joined(subtype_texts(subs))) is None,
{
    let u = subtype_texts(subs);
    let j = joined(u);
    lemma_joined_first(u);
    lemma_subtype_own_name(subs[0]);
    let q = u[0].len() as int;
    assert(j[q] == ' ');
    assert(j.subrange(0, q) =~= u[0]);
    lemma_subtype_lookup(j);
    if Subtype::from_text(j) is Some {
        let x = Subtype::from_text(j)->0;
        lemma_subtype_own_name(x);
        if is_multi_word(x) {
            lemma_multi_word(x);
            let h = head_word(x);
            let p = h.len() as int;
            if q < p {
                assert(h[q] == x.text()[q]);
                assert(is_space(' '));
            } else if p < q {
                assert(u[0][p] == j[p]);
                assert(is_space(' '));
            } else {
                assert(u[0] =~= h);
            }
        } else {
            assert(is_space(' '));
        }
    }
}

proof fn lemma_subtypes_round_trip(subs: Seq<Subtype>)
    requires
        subs.no_duplicates(),
        subs.len() > 0,
        subs.len() == 1 || forall|i: int| 0 <= i < subs.len() ==> !is_multi_word(#[trigger] subs[i]),
    ensures
        parsed_subtypes(each_preceded(subtype_texts(subs))) == Ok::<Seq<Subtype>, Seq<char>>(subs),
{
    let u = subtype_texts(subs);
    let p = each_preceded(u);
    assert forall|k: int| 0 <= k < u.len() implies (#[trigger] u[k]).len() > 0 by {
        lemma_subtype_own_name(subs[k]);
    }
    lemma_preceded_is_joined(u);
    lemma_joined_ends(u);
    let j = joined(u);
    lemma_subtype_own_name(subs[0]);
    lemma_subtype_own_name(subs.last());
    if is_multi_word(subs[0]) {
        lemma_multi_word(subs[0]);
    }
    if is_multi_word(subs.last()) {
        lemma_multi_word(subs.last());
    }
    assert(u.last() == subs.last().text());
    assert(!is_space(j[0]));
    assert(!is_space(j[j.len() - 1]));
    assert(p[0] == ' ');
    assert(is_space(' '));
    assert(p[1] == j[0]);
    assert(skip_spaces(p, 1) == 1);
    assert(skip_spaces(p, 0) == 1);
    assert(p[p.len() - 1] == j[j.len() - 1]);
    assert(trim_end_from(p, p.len() as int) == p.len());
    assert(trim(p) =~= j);
    if subs.len() == 1 {
        assert(j == u[0]);
        assert(seq![subs[0]] =~= subs);
    } else {
        lemma_joined_not_a_subtype(subs);
        assert forall|k: int| 0 <= k < u.len() implies is_word(#[trigger] u[k]) by {
            lemma_subtype_own_name(subs[k]);
        }
        lemma_words_of_printed_names(Seq::empty(), Seq::empty(), u);
        lemma_subtype_run(subs, 0);
        assert forall|k: int| 0 <= k < subs.len() implies #[trigger] subtypes_named(u)[k]
            == subs[k] by {
            lemma_subtype_own_name(subs[k]);
        }
        assert(subtypes_named(u) =~= subs);
        lemma_insert_all_unique(subs);
    }
}

/// Reading back the printed form of supertypes, types and subtypes, each
/// without repetition, gives them back in order, provided a subtype whose
/// name has several words is the only subtype.
pub proof fn lemma_parse_render_parts(sups: Seq<Supertype>, types: Seq<Type>, subs: Seq<Subtype>)
    requires
        sups.no_duplicates(),
        types.no_duplicates(),
        subs.no_duplicates(),
        subs.len() <= 1 || forall|i: int| 0 <= i < subs.len() ==> !is_multi_word(#[trigger] subs[i]),
    ensures
        parsed(render(sups, types, subs)) == Ok::<Parts, Seq<char>>((sups, types, subs)),
{
    let s = supertype_texts(sups);
    let t = type_texts(types);
    let u = subtype_texts(subs);
    let head = each_followed(s) + joined(t);
    let r = render(sups, types, subs);
    assert forall|k: int| 0 <= k < s.len() implies is_word(#[trigger] s[k]) && dashless(s[k]) by {
        lemma_supertype_own_name(sups[k]);
    }
    assert forall|k: int| 0 <= k < t.len() implies is_word(#[trigger] t[k]) && dashless(t[k]) by {
        lemma_type_own_name(types[k]);
    }
    assert forall|k: int| 0 <= k < u.len() implies dashless(#[trigger] u[k]) by {
        lemma_subtype_own_name(subs[k]);
        if is_multi_word(subs[k]) {
            lemma_multi_word(subs[k]);
        }
    }
    assert(all_words(s));
    assert(all_words(t));
    lemma_dashless_each_followed(s);
    lemma_dashless_joined(t);
    lemma_dashless_concat(each_followed(s), joined(t));
    lemma_words_of_printed_names(s, t, Seq::empty());
    lemma_supertype_run(sups, types, 0);
    lemma_type_run(sups, types, 0);
    let ws = s + t;
    assert(ws.subrange(0, s.len() as int) =~= s);
    assert(ws.subrange(s.len() as int, ws.len() as int) =~= t);
    assert forall|k: int| 0 <= k < sups.len() implies #[trigger] supertypes_named(s)[k]
        == sups[k] by {
        lemma_supertype_own_name(sups[k]);
    }
    assert(supertypes_named(s) =~= sups);
    assert forall|k: int| 0 <= k < types.len() implies #[trigger] types_named(t)[k]
        == types[k] by {
        lemma_type_own_name(types[k]);
    }
    assert(types_named(t) =~= types);
    lemma_insert_all_unique(sups);
    lemma_insert_all_unique(types);
    assert(s.len() == sups.len());
    assert(t.len() == types.len());
    assert(supertype_run(ws, 0) == s.len());
    assert(type_run(ws, s.len() as int) == ws.len());
    assert(insert_all(supertypes_named(ws.subrange(0, s.len() as int))) == sups);
    assert(insert_all(types_named(ws.subrange(s.len() as int, ws.len() as int))) == types);
    if subs.len() == 0 {
        assert(r =~= head);
        lemma_find_none(r, 0);
        assert(r.subrange(0, r.len() as int) =~= r);
        assert(words(r.subrange(0, find_from(r, EM_DASH, 0))) == ws);
        assert(subs =~= Seq::<Subtype>::empty());
    } else {
        let p = each_preceded(u);
        lemma_dashless_each_preceded(u);
        let d = head.len() + 1int;
        assert(r =~= head.push(' ') + (seq![EM_DASH] + p));
        assert(r[d] == EM_DASH);
        assert forall|j: int| 0 <= j < d implies #[trigger] r[j] != EM_DASH by {
            if j < head.len() {
                assert(r[j] == head[j]);
            }
        }
        lemma_find_at(r, 0, d);
        assert forall|j: int| d + 1 <= j < r.len() implies #[trigger] r[j] != EM_DASH by {
            assert(r[j] == p[j - d - 1]);
        }
        lemma_find_none(r, d + 1);
        assert(r.subrange(0, d) =~= head.push(' '));
        assert(r.subrange(d + 1, r.len() as int) =~= p);
        assert(words(r.subrange(0, find_from(r, EM_DASH, 0))) == ws);
        assert(find_from(r, EM_DASH, d + 1) == r.len());
        lemma_subtypes_round_trip(subs);
        assert(parsed_subtypes(r.subrange(d + 1, find_from(r, EM_DASH, d + 1))) == Ok::<
            Seq<Subtype>,
            Seq<char>,
        >(subs));
    }
}

/// Reading back the printed form of a type line gives the same supertypes,
/// types and subtypes in the same order, provided a subtype whose name has
/// several words is the only subtype.
pub proof fn lemma_parse_render(line: TypeLine)
    requires
        line.wf(),
        line.spec_subtypes().len() <= 1 || forall|i: int|
            0 <= i < line.spec_subtypes().len() ==> !is_multi_word(
                #[trigger] line.spec_subtypes()[i],
            ),
    ensures
        parsed(line.text()) == Ok::<Parts, Seq<char>>(line.parts()),
{
    lemma_parse_render_parts(line.spec_supertypes(), line.spec_types(), line.spec_subtypes());
}

} // verus!
