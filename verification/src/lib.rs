//! Ardentia: the rules of a small text dungeon crawler.
//!
//! A player walks through the rooms of a zone, fights the monsters of each
//! room in turns, picks up loot, and goes on until death or until the last
//! room is cleared. This crate holds the state of a run and the rules that
//! change it; drawing, keyboard polling and the passing of time belong to the
//! program that drives it.

pub mod app;
pub mod combat;
pub mod dungeon;
pub mod entity;
pub mod game_loop;
pub mod keybinds;
pub mod monsters;
pub mod random;
pub mod room;
pub mod screen;
pub mod text;
pub mod utils;
pub mod zones;
