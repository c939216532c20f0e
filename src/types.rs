//! Types and the effectiveness graph between them.
//!
//! A [`TypeRegistry`] owns every [`Type`] in one flat arena. A type is
//! identified by its position there, a [`TypeId`], and not by its name: two
//! types may share a name and remain distinct. Each type stores the
//! effectiveness of other types on it as a map from their index to a
//! [`Multiplier`]; a pair with no entry has the neutral multiplier `1.0`.

use std::collections::HashMap;
use vstd::prelude::*;

use crate::multiplier::Multiplier;

verus! {

broadcast use vstd::std_specs::hash::group_hash_axioms;

/// A handle on a type: its index in the registry that created it.
#[derive(Clone, Copy, Debug, PartialEq, Eq, Structural, Hash)]
pub struct TypeId {
    /// The type's position in its registry.
    pub index: usize,
}

/// A type: a name and the effectiveness of other types on it.
pub struct Type {
    name: String,
    id: TypeId,
    effectivenesses: HashMap<usize, Multiplier>,
}

impl View for Type {
    /// The stored relation: target index to multiplier.
    type V = Map<usize, Multiplier>;

    closed spec fn view(&self) -> Map<usize, Multiplier> {
        self.effectivenesses@
    }
}

impl Type {
    /// The display name.
    pub closed spec fn spec_name(&self) -> Seq<char> {
        self.name@
    }

    /// The handle under which the registry holds this type.
    pub closed spec fn spec_id(&self) -> TypeId {
        self.id
    }

    /// The effectiveness of the type `other` on this one: the stored
    /// multiplier, or the neutral one where none is stored.
    pub open spec fn effectiveness(&self, other: TypeId) -> Multiplier {
        if self@.contains_key(other.index) {
            self@[other.index]
        } else {
            Multiplier::spec_neutral()
        }
    }

    /// The display name.
    pub fn name(&self) -> (r: &str)
        ensures
            r@ == self.spec_name(),
    {
        self.name.as_str()
    }

    /// The handle under which the registry holds this type.
    pub fn id(&self) -> (r: TypeId)
        ensures
            r == self.spec_id(),
    {
        self.id
    }

    /// The effectiveness of `other` on this type, `1.0` when none was set.
    ///
    /// `other` is looked up by its handle, so it must belong to the same
    /// registry as this type: a type of another registry reads as the type
    /// that has the same index here.
    pub fn effectiveness_of_type(&self, other: &Type) -> (r: Multiplier)
        ensures
            r == self.effectiveness(other.spec_id()),
    {
        match self.effectivenesses.get(&other.id.index) {
            Some(m) => *m,
            None => Multiplier::neutral(),
        }
    }
}

/// The arena that owns every type.
pub struct TypeRegistry {
    types: Vec<Type>,
}

impl View for TypeRegistry {
    /// The types, in the order of their indices.
    type V = Seq<Type>;

    closed spec fn view(&self) -> Seq<Type> {
        self.types@
    }
}

impl TypeRegistry {
    /// Each type sits at the index its handle names, and every stored
    /// relation targets a type of this registry.
    pub open spec fn wf(&self) -> bool {
        &&& forall|i: int| 0 <= i < self@.len() ==> (#[trigger] self@[i]).spec_id().index == i
        &&& forall|i: int, k: usize|
            0 <= i < self@.len() && #[trigger] self@[i]@.contains_key(k) ==> k < self@.len()
    }

    /// Whether `id` names a type of this registry.
    pub open spec fn contains(&self, id: TypeId) -> bool {
        id.index < self@.len()
    }

    /// The effectiveness of `target` on `source`.
    pub open spec fn spec_effectiveness_of(&self, source: TypeId, target: TypeId) -> Multiplier {
        self@[source.index as int].effectiveness(target)
    }

    /// `self` is `before` after the effectiveness of `target` on `source`
    /// was set to `m`: that one entry is written and nothing else changes.
    pub open spec fn is_set_from(
        &self,
        before: &TypeRegistry,
        source: TypeId,
        target: TypeId,
        m: Multiplier,
    ) -> bool {
        let s = source.index as int;
        &&& self@.len() == before@.len()
        &&& forall|i: int| 0 <= i < before@.len() && i != s ==> #[trigger] self@[i] == before@[i]
        &&& self@[s].spec_name() == before@[s].spec_name()
        &&& self@[s].spec_id() == before@[s].spec_id()
        &&& self@[s]@ == before@[s]@.insert(target.index, m)
    }

    /// `self` is `before` with one more type, named `name`, at the end: its
    /// handle is `id` and it has no relation set.
    pub open spec fn is_added_from(&self, before: &TypeRegistry, name: Seq<char>, id: TypeId) -> bool {
        &&& id.index == before@.len()
        &&& self@.len() == before@.len() + 1
        &&& forall|i: int| 0 <= i < before@.len() ==> #[trigger] self@[i] == before@[i]
        &&& self@[id.index as int].spec_name() == name
        &&& self@[id.index as int].spec_id() == id
        &&& self@[id.index as int]@ == Map::<usize, Multiplier>::empty()
    }

    /// An empty registry.
    pub fn new() -> (r: TypeRegistry)
        ensures
            r.wf(),
            r@.len() == 0,
    {
        TypeRegistry { types: Vec::new() }
    }

    /// The number of types.
    pub fn len(&self) -> (r: usize)
        ensures
            r == self@.len(),
    {
        self.types.len()
    }

    /// Creates a type named `name`, with no relation set, and returns its
    /// handle. The name need not be unique.
    pub fn add_type(&mut self, name: String) -> (id: TypeId)
        requires
            old(self).wf(),
            old(self)@.len() < usize::MAX,
        ensures
            final(self).wf(),
            final(self).is_added_from(old(self), name@, id),
            forall|x: TypeId|
                #[trigger] final(self).contains(x) ==> final(self).spec_effectiveness_of(x, id)
                    == Multiplier::spec_neutral(),
    {
        let id = TypeId { index: self.types.len() };
        let t = Type { name, id, effectivenesses: HashMap::new() };
        self.types.push(t);
        id
    }

    /// The type behind `id`.
    pub fn get(&self, id: TypeId) -> (t: &Type)
        requires
            self.contains(id),
        ensures
            *t == self@[id.index as int],
    {
        &self.types[id.index]
    }

    /// Records `m` as the effectiveness of `target` on `source`, overwriting
    /// any earlier value for that pair. `target` may be `source` itself;
    /// both must be types of this registry.
    pub fn set_effectiveness(&mut self, source: TypeId, target: TypeId, m: Multiplier)
        requires
            old(self).wf(),
            old(self).contains(source),
            old(self).contains(target),
        ensures
            final(self).wf(),
            final(self).is_set_from(old(self), source, target, m),
    {
        self.types[source.index].effectivenesses.insert(target.index, m);
        assert forall|i: int, k: usize|
            0 <= i < self@.len() && #[trigger] self@[i]@.contains_key(k) implies k < self@.len() by {
            if i != source.index as int {
                assert(self@[i] == old(self)@[i]);
            } else if k != target.index {
                assert(old(self)@[i]@.contains_key(k));
            }
        }
    }

    /// The effectiveness of `target` on `source`, `1.0` when none was set.
    pub fn effectiveness_of(&self, source: TypeId, target: TypeId) -> (r: Multiplier)
        requires
            self.contains(source),
        ensures
            r == self.spec_effectiveness_of(source, target),
    {
        match self.types[source.index].effectivenesses.get(&target.index) {
            Some(m) => *m,
            None => Multiplier::neutral(),
        }
    }
}

} // verus!
