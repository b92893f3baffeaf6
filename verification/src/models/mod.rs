//! The data model: catalog entries and the rows of the world state.

pub mod army;
pub mod building;
pub mod troop;
pub mod village;
