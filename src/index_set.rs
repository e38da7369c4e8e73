use vstd::prelude::*;

use indexmap::IndexSet;

use crate::type_::{Subtype, Supertype, Type};

verus! {

/// `indexmap::IndexSet`, a set that keeps its values in insertion order and
/// never holds a value twice.
#[verifier::external_type_specification]
#[verifier::external_body]
#[verifier::reject_recursive_types(T)]
#[verifier::reject_recursive_types(S)]
pub struct ExIndexSet<T, S>(IndexSet<T, S>);

/// The values held by a set of supertypes, in insertion order.
pub uninterp spec fn supertype_items(s: IndexSet<Supertype>) -> Seq<Supertype>;

/// Relies on `IndexSet::new`: the new set is empty.
#[verifier::external_body]
pub(crate) fn supertype_set_new() -> (r: IndexSet<Supertype>)
    ensures
        supertype_items(r) == Seq::<Supertype>::empty(),
{
    IndexSet::new()
}

/// Relies on `IndexSet::insert`: a value already present leaves the set as it
/// was; any other value is appended at the end.
#[verifier::external_body]
pub(crate) fn supertype_set_insert(s: &mut IndexSet<Supertype>, x: Supertype)
    ensures
        supertype_items(*final(s)) == if supertype_items(*old(s)).contains(x) {
            supertype_items(*old(s))
        } else {
            supertype_items(*old(s)).push(x)
        },
{
    s.insert(x);
}

/// Relies on `IndexSet::contains`: membership.
#[verifier::external_body]
pub(crate) fn supertype_set_contains(s: &IndexSet<Supertype>, x: Supertype) -> (r: bool)
    ensures
        r == supertype_items(*s).contains(x),
{
    s.contains(&x)
}

/// Relies on `IndexSet::shift_remove`: the value is taken out and the values
/// after it move up, keeping their order.
#[verifier::external_body]
pub(crate) fn supertype_set_remove(s: &mut IndexSet<Supertype>, x: Supertype)
    ensures
        supertype_items(*final(s)) == supertype_items(*old(s)).filter(|y: Supertype| y != x),
{
    s.shift_remove(&x);
}

/// Relies on `IndexSet::iter`: the values in insertion order.
#[verifier::external_body]
pub(crate) fn supertype_set_values(s: &IndexSet<Supertype>) -> (r: Vec<Supertype>)
    ensures
        r@ == supertype_items(*s),
{
    s.iter().copied().collect()
}

/// The values held by a set of types, in insertion order.
pub uninterp spec fn type_items(s: IndexSet<Type>) -> Seq<Type>;

/// Relies on `IndexSet::new`: the new set is empty.
#[verifier::external_body]
pub(crate) fn type_set_new() -> (r: IndexSet<Type>)
    ensures
        type_items(r) == Seq::<Type>::empty(),
{
    IndexSet::new()
}

/// Relies on `IndexSet::insert`: a value already present leaves the set as it
/// was; any other value is appended at the end.
#[verifier::external_body]
pub(crate) fn type_set_insert(s: &mut IndexSet<Type>, x: Type)
    ensures
        type_items(*final(s)) == if type_items(*old(s)).contains(x) {
            type_items(*old(s))
        } else {
            type_items(*old(s)).push(x)
        },
{
    s.insert(x);
}

/// Relies on `IndexSet::contains`: membership.
#[verifier::external_body]
pub(crate) fn type_set_contains(s: &IndexSet<Type>, x: Type) -> (r: bool)
    ensures
        r == type_items(*s).contains(x),
{
    s.contains(&x)
}

/// Relies on `IndexSet::shift_remove`: the value is taken out and the values
/// after it move up, keeping their order.
#[verifier::external_body]
pub(crate) fn type_set_remove(s: &mut IndexSet<Type>, x: Type)
    ensures
        type_items(*final(s)) == type_items(*old(s)).filter(|y: Type| y != x),
{
    s.shift_remove(&x);
}

/// Relies on `IndexSet::iter`: the values in insertion order.
#[verifier::external_body]
pub(crate) fn type_set_values(s: &IndexSet<Type>) -> (r: Vec<Type>)
    ensures
        r@ == type_items(*s),
{
    s.iter().copied().collect()
}

/// The values held by a set of subtypes, in insertion order.
pub uninterp spec fn subtype_items(s: IndexSet<Subtype>) -> Seq<Subtype>;

/// Relies on `IndexSet::new`: the new set is empty.
#[verifier::external_body]
pub(crate) fn subtype_set_new() -> (r: IndexSet<Subtype>)
    ensures
        subtype_items(r) == Seq::<Subtype>::empty(),
{
    IndexSet::new()
}

/// Relies on `IndexSet::insert`: a value already present leaves the set as it
/// was; any other value is appended at the end.
#[verifier::external_body]
pub(crate) fn subtype_set_insert(s: &mut IndexSet<Subtype>, x: Subtype)
    ensures
        subtype_items(*final(s)) == if subtype_items(*old(s)).contains(x) {
            subtype_items(*old(s))
        } else {
            subtype_items(*old(s)).push(x)
        },
{
    s.insert(x);
}

/// Relies on `IndexSet::contains`: membership.
#[verifier::external_body]
pub(crate) fn subtype_set_contains(s: &IndexSet<Subtype>, x: Subtype) -> (r: bool)
    ensures
        r == subtype_items(*s).contains(x),
{
    s.contains(&x)
}

/// Relies on `IndexSet::shift_remove`: the value is taken out and the values
/// after it move up, keeping their order.
#[verifier::external_body]
pub(crate) fn subtype_set_remove(s: &mut IndexSet<Subtype>, x: Subtype)
    ensures
        subtype_items(*final(s)) == subtype_items(*old(s)).filter(|y: Subtype| y != x),
{
    s.shift_remove(&x);
}

/// Relies on `IndexSet::iter`: the values in insertion order.
#[verifier::external_body]
pub(crate) fn subtype_set_values(s: &IndexSet<Subtype>) -> (r: Vec<Subtype>)
    ensures
        r@ == subtype_items(*s),
{
    s.iter().copied().collect()
}

} // verus!
