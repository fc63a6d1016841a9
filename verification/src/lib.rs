//! Core rules of a small "circle clicker" arcade game.
//!
//! The player clicks shrinking circles to gain score before they vanish;
//! a difficulty setting governs the round length and how forgiving the
//! hit test is.  This crate holds the decisions the game makes each
//! frame — state transitions, score accounting, the hit test, spawn
//! placement and menu handling — as verified functions over plain
//! values.  Rendering, input capture and entity storage belong to the
//! host engine and stay outside.
//!
//! Lengths and scales are measured in hundredths: a coordinate of
//! `100` stands for one pixel, a scale of `100` for a sprite drawn at
//! its natural size.

pub mod color;
pub mod game;
pub mod geometry;
pub mod menu;
pub mod spawn;
pub mod systems;
