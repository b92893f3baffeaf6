//! The engines: rules that turn the state of the world and an event into the
//! next state.

pub mod army_service;
pub mod arrival;
pub mod building_service;
pub mod census;
pub mod combat;
pub mod defense;
pub mod dispatch;
pub mod movement;
pub mod ownership;
pub mod resource_service;
pub mod scouting;
pub mod troop_service;
pub mod village_service;
