//! Game rules of a small dungeon-quest style RPG: character growth, inventory,
//! enemies, battles, map generation and exploration, verified with Verus.
use vstd::prelude::*;

pub mod actions;
pub mod audio;
pub mod character_status;
mod chance;
pub mod effects;
pub mod enemies;
pub mod events;
pub mod explore;
pub mod inventory;
pub mod map;
pub mod single;
pub mod state;
pub mod text;

verus! {

} // verus!
