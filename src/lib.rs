//! Game logic of a side-scrolling shooter: timers and looping animations,
//! collision tests, the combat and lifecycle rules of the in-game world, and
//! the scene state machine that decides which mode is active.
//!
//! Lengths are whole micro-units, times whole microseconds and speeds whole
//! units per second, so that a move of `v` units per second over `dt`
//! microseconds is exactly `v * dt` micro-units.

pub mod animation;
pub mod cache;
pub mod collision;
pub mod combat;
pub mod entities;
pub mod frame;
pub mod game;
pub mod scene;
pub mod spawner;
pub mod timer;
pub mod world;
