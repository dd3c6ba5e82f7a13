//! Round-resolution engine for a two-player, turn-based resource duel.
//!
//! Each side holds a small vector of consumable tokens and picks an action
//! every round; the engine applies each action's token cost to its own side's
//! vector and decides the round from the pair of actions under a fixed table.
//! Presentation (console or graphical) stays behind the [`game::Play`] trait.

pub mod action;
pub mod game;
pub mod player;
