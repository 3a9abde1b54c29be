//! A small game unit: it records when it was last fed and played with, and on
//! a paid play it may, by a deterministic pseudo-random draw, pay part of its
//! holdings back to the player.

pub mod draw;
pub mod game;
