//! Game rules of a first-person physics sandbox: which state the game is in,
//! what the pause menu shows and does, how keyboard and mouse input turn into
//! movement and grappling decisions, which map entities become ground, and
//! which projectiles explode on contact.
//!
//! Entities are named by their 64-bit identifiers; every floating-point
//! quantity stays with the engine around this library, which hands it the
//! decisions' inputs and applies the decisions' outputs.

pub mod state;
pub mod entity_set;
pub mod weapon;
pub mod menu;
pub mod player;
pub mod camera;
pub mod map;
