//! A click-driven controller for a two-player board game whose rules are
//! supplied by a chess engine.

pub mod controller;
pub mod engine;
pub mod geometry;
pub mod oracle;
pub mod pieces;
pub mod render;
pub mod rules;
pub mod selection;
pub mod snapshot;
