//! Core data model for a creature-collection game: types with pairwise
//! effectiveness multipliers, species that carry types, and monsters that
//! instantiate species.
//!
//! Types live in an arena, [`types::TypeRegistry`], and are identified by the
//! index the registry hands out ([`types::TypeId`]), never by their names.
//! Effectiveness relations are stored per type as a map from target index to
//! [`multiplier::Multiplier`], so a type may relate to itself or to any other
//! type without any ownership cycle.

pub mod multiplier;
pub mod types;
pub mod species;
pub mod monster;
pub mod laws;
