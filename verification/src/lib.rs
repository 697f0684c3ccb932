//! Rules engine of a turn-based two-player collectible-card game.

pub mod board;
pub mod catalog;
pub mod equality;
pub mod game;
pub mod hooks;
pub mod lineage;
pub mod player;
pub mod shuffle;
pub mod turn;
