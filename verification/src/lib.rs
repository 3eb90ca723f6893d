//! Core of a turn-based artillery game.
//!
//! The crate has two independent halves:
//!
//! * the map pipeline (`map`): raw ASCII battlefield definitions are
//!   compiled, line by line, into a validated rectangular grid of terrain
//!   cells, which can then be traversed in row-major or column-major order
//!   by a direction-switchable iterator;
//! * the activity state machine (`view_model`): a generic container that
//!   binds an equality-comparable subject to an inner model and sequences
//!   activation, deactivation and reloading, routing every subject or model
//!   swap through a `Loading` phase.
//!
//! `score_card` and `player` hold the small value types the surrounding
//! game keeps for bookkeeping.

pub mod map;
pub mod view_model;
pub mod player;
pub mod score_card;
