//! Properties of the effectiveness graph, proved from the contracts of
//! [`TypeRegistry::set_effectiveness`] and [`TypeRegistry::effectiveness_of`].
//!
//! A call `r1.set_effectiveness(a, b, m)` that turns `r0` into `r1` is
//! described by `r1.is_set_from(&r0, a, b, m)`; the lemmas below take such
//! states as parameters.

use vstd::prelude::*;

use crate::multiplier::Multiplier;
use crate::types::{TypeId, TypeRegistry};

verus! {

/// Where neither `a` nor `b` stores a relation to the other, each is neutral
/// against the other.
pub proof fn lemma_unset_pair_is_neutral(r: TypeRegistry, a: TypeId, b: TypeId)
    requires
        r.contains(a),
        r.contains(b),
        !r@[a.index as int]@.contains_key(b.index),
        !r@[b.index as int]@.contains_key(a.index),
    ensures
        r.spec_effectiveness_of(a, b) == Multiplier::spec_neutral(),
        r.spec_effectiveness_of(b, a) == Multiplier::spec_neutral(),
{
}

/// A freshly added type is neutral against every type, itself included,
/// and every type of the registry is neutral against it.
pub proof fn lemma_new_type_is_neutral(
    r0: TypeRegistry,
    r1: TypeRegistry,
    name: Seq<char>,
    id: TypeId,
    x: TypeId,
    y: TypeId,
)
    requires
        r0.wf(),
        r1.is_added_from(&r0, name, id),
        r1.contains(x),
    ensures
        r1.spec_effectiveness_of(id, y) == Multiplier::spec_neutral(),
        r1.spec_effectiveness_of(x, id) == Multiplier::spec_neutral(),
{
    if x.index < r0@.len() {
        assert(r1@[x.index as int] == r0@[x.index as int]);
        assert(!r0@[x.index as int]@.contains_key(id.index));
    }
}

/// After `m` is set as the effectiveness of `b` on `a`, a lookup of that pair
/// gives `m`, whatever was set before.
pub proof fn lemma_set_then_get(r0: TypeRegistry, r1: TypeRegistry, a: TypeId, b: TypeId, m: Multiplier)
    requires
        r0.wf(),
        r0.contains(a),
        r1.is_set_from(&r0, a, b, m),
    ensures
        r1.spec_effectiveness_of(a, b) == m,
{
}

/// Setting one pair leaves the lookup of every other pair as it was.
pub proof fn lemma_set_leaves_other_pairs(
    r0: TypeRegistry,
    r1: TypeRegistry,
    a: TypeId,
    b: TypeId,
    m: Multiplier,
    x: TypeId,
    y: TypeId,
)
    requires
        r0.wf(),
        r0.contains(a),
        r0.contains(x),
        r1.is_set_from(&r0, a, b, m),
        x != a || y != b,
    ensures
        r1.spec_effectiveness_of(x, y) == r0.spec_effectiveness_of(x, y),
{
}

/// Setting the effectiveness of `b` on `a` does not change that of `a` on
/// `b`, for distinct `a` and `b`.
pub proof fn lemma_set_is_asymmetric(r0: TypeRegistry, r1: TypeRegistry, a: TypeId, b: TypeId, m: Multiplier)
    requires
        r0.wf(),
        r0.contains(a),
        r0.contains(b),
        r1.is_set_from(&r0, a, b, m),
        a != b,
    ensures
        r1.spec_effectiveness_of(b, a) == r0.spec_effectiveness_of(b, a),
{
}

/// A type's effectiveness on itself is set and read like any other pair.
pub proof fn lemma_self_relation(r0: TypeRegistry, r1: TypeRegistry, a: TypeId, m: Multiplier)
    requires
        r0.wf(),
        r0.contains(a),
        r1.is_set_from(&r0, a, a, m),
    ensures
        r1.spec_effectiveness_of(a, a) == m,
{
}

/// Setting the same pair twice keeps the last value only: the result looks
/// up every pair as a single set of the second value would.
pub proof fn lemma_last_write_wins(
    r0: TypeRegistry,
    r1: TypeRegistry,
    r2: TypeRegistry,
    r_once: TypeRegistry,
    a: TypeId,
    b: TypeId,
    m1: Multiplier,
    m2: Multiplier,
    x: TypeId,
    y: TypeId,
)
    requires
        r0.wf(),
        r0.contains(a),
        r0.contains(x),
        r1.is_set_from(&r0, a, b, m1),
        r2.is_set_from(&r1, a, b, m2),
        r_once.is_set_from(&r0, a, b, m2),
    ensures
        r2.spec_effectiveness_of(a, b) == m2,
        r2.spec_effectiveness_of(x, y) == r_once.spec_effectiveness_of(x, y),
{
}

/// Setting two different pairs in either order gives the same lookups.
pub proof fn lemma_sets_commute(
    r0: TypeRegistry,
    r_ab: TypeRegistry,
    r_ab_cd: TypeRegistry,
    r_cd: TypeRegistry,
    r_cd_ab: TypeRegistry,
    a: TypeId,
    b: TypeId,
    m: Multiplier,
    c: TypeId,
    d: TypeId,
    n: Multiplier,
    x: TypeId,
    y: TypeId,
)
    requires
        r0.wf(),
        r0.contains(a),
        r0.contains(c),
        r0.contains(x),
        a != c || b != d,
        r_ab.is_set_from(&r0, a, b, m),
        r_ab_cd.is_set_from(&r_ab, c, d, n),
        r_cd.is_set_from(&r0, c, d, n),
        r_cd_ab.is_set_from(&r_cd, a, b, m),
    ensures
        r_ab_cd.spec_effectiveness_of(x, y) == r_cd_ab.spec_effectiveness_of(x, y),
        r_ab_cd.spec_effectiveness_of(a, b) == m,
{
}

/// Two distinct types are independent keys even when their names are equal:
/// setting a relation on one leaves the other's relations and lookups as
/// they were.
pub proof fn lemma_same_name_types_independent(
    r0: TypeRegistry,
    r1: TypeRegistry,
    a: TypeId,
    b: TypeId,
    target: TypeId,
    m: Multiplier,
    y: TypeId,
)
    requires
        r0.wf(),
        r0.contains(a),
        r0.contains(b),
        a != b,
        r0@[a.index as int].spec_name() == r0@[b.index as int].spec_name(),
        r1.is_set_from(&r0, a, target, m),
    ensures
        r1@[b.index as int]@ == r0@[b.index as int]@,
        r1.spec_effectiveness_of(b, y) == r0.spec_effectiveness_of(b, y),
        r1.spec_effectiveness_of(a, target) == m,
{
}

/// A type whose effectiveness on itself was set stays usable: its
/// self-relation can be set again, it can gain a relation to a type created
/// afterwards, and that new type is still neutral against it.
pub proof fn lemma_self_relation_stays_usable(
    r0: TypeRegistry,
    r1: TypeRegistry,
    r2: TypeRegistry,
    r3: TypeRegistry,
    r4: TypeRegistry,
    g: TypeId,
    name: Seq<char>,
    x: TypeId,
    m1: Multiplier,
    m2: Multiplier,
    m3: Multiplier,
)
    requires
        r0.wf(),
        r0.contains(g),
        r1.wf(),
        r1.is_set_from(&r0, g, g, m1),
        r2.wf(),
        r2.is_added_from(&r1, name, x),
        r3.wf(),
        r3.is_set_from(&r2, g, g, m2),
        r4.is_set_from(&r3, g, x, m3),
    ensures
        r1.spec_effectiveness_of(g, g) == m1,
        r4.spec_effectiveness_of(g, g) == m2,
        r4.spec_effectiveness_of(g, x) == m3,
        r4.spec_effectiveness_of(x, g) == Multiplier::spec_neutral(),
{
    assert(r2@[g.index as int] == r1@[g.index as int]);
    assert(r3@[x.index as int] == r2@[x.index as int]);
    assert(r4@[x.index as int] == r3@[x.index as int]);
}

} // verus!
