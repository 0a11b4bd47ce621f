//! Deterministic simulation core of a frame-stepped fighting game.
//!
//! The crate records one raw controller sample per frame, derives
//! edge-triggered logical input from adjacent samples, advances the world
//! one frame at a time, and keeps a rewindable history of inputs and world
//! snapshots so a match can be paused, stepped backward and forward, and
//! resumed from any point without divergence.

pub mod game;
pub mod input;
pub mod laws;
pub mod menu;
pub mod package;
pub mod player;
pub mod stage;
