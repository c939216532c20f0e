//! Species: templates of creatures and the types they carry.
//!
//! A species is defined once and then read through shared references; it is
//! not meant to change. Its types are handles into a
//! [`TypeRegistry`](crate::types::TypeRegistry), which owns them.

use vstd::prelude::*;

use crate::types::TypeId;

verus! {

/// Descriptive fields that only some uses of the model keep.
pub struct Bestiary {
    /// The species' category.
    pub category: String,
    /// A description of the species.
    pub description: String,
    /// The species' weight in hectograms.
    pub weight_in_hectograms: u16,
    /// The species' height in decimeters.
    pub height_in_decimeters: u16,
}

/// A species: a plain store of the data that defines it.
pub struct Species {
    /// The species' unique id.
    pub id: u16,
    /// The species' name.
    pub name: String,
    /// The species' types, in order, as handles into their registry.
    pub types: Vec<TypeId>,
    /// Descriptive fields, where they are kept.
    pub bestiary: Option<Bestiary>,
}

} // verus!
