//! World navigation for a small interactive-fiction game: rooms joined by
//! directional exits, a parser from player text to a movement action, and the
//! session step that moves the player and produces feedback text.

pub mod direction;
pub mod action;
pub mod exit;
pub mod room;
pub mod world;
pub mod navigation;
pub mod interpreter;
pub mod loader;
pub mod session;
