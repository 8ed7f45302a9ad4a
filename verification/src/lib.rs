//! The rules of Wuthering Terminal, a turn-based tactical RPG, with their
//! contracts proved by Verus.

use vstd::prelude::*;

pub mod action;
pub mod ai;
pub mod battle;
pub mod battle_preview;
pub mod bestiary;
pub mod bindings;
pub mod combat;
pub mod combos;
pub mod components;
pub mod confirm;
pub mod crafting;
pub mod equipment;
pub mod floors;
pub mod geometry;
pub mod hazards;
pub mod intents;
pub mod map;
pub mod replay;
pub mod selection;
pub mod movement;
pub mod outcome;
pub mod skills;
pub mod snapshot;
pub mod steps;
pub mod swap;
pub mod text;
pub mod token;
pub mod turn_order;
pub mod units;

verus! {

} // verus!
