//! A continent of the world.

use vstd::prelude::*;

verus! {

/// A continent: one of the seven large landmasses commonly regarded
/// as continents, identified by convention rather than strict
/// criteria.
///
/// A `Continent` is an opaque, equality-comparable tag, often used to
/// describe where a country or city lies.
#[derive(Debug, Clone, Copy, PartialEq, Eq, Structural)]
pub enum Continent {
    Africa,
    Antarctica,
    Asia,
    Europe,
    NorthAmerica,
    Oceania,
    SouthAmerica,
}

} // verus!
