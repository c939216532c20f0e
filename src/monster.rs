//! Monsters: instances of a species.
//!
//! Many monsters may share one [`Species`]; unlike a species, a monster is
//! game state and may change or be dropped without touching its species.

use vstd::prelude::*;

use crate::species::Species;

verus! {

/// An individual monster.
pub struct Monster<'a> {
    /// The monster's name.
    pub name: String,
    /// The species it instantiates.
    pub species: &'a Species,
}

} // verus!
