//! Rules logic of a Magic: The Gathering engine: cards and their
//! abilities, the game state, combat, costs, effects, continuous effects of
//! static abilities, and player decisions, each with a verified contract.

use vstd::prelude::*;

pub mod ids;
pub mod text;
pub mod types;
pub mod mana;
pub mod statics;
pub mod card;
pub mod cards;
pub mod game;
pub mod game_laws;
pub mod combat_state;
pub mod combat_laws;
pub mod combat_messages;
pub mod cost;
pub mod costs;
pub mod decision;
pub mod decisions;
pub mod oracle_text;
pub mod executor;
pub mod executor_laws;
pub mod continuous;
pub mod continuous_laws;
pub mod export_args;
pub mod card_input;

verus! {

} // verus!
