//! Game rules of a small orbital puzzle: the player places gravity bodies,
//! launches a ship and tries to steer it into a target zone.
//!
//! The library holds the game state, the level table, the decisions that
//! the front end takes on each input or frame, and the texts it shows.
//! Rendering, input and the floating-point flight integration live in the
//! front end, which hands the library the facts it measured.
pub mod components;
pub mod text;
pub mod levels;
pub mod simulation;
pub mod ui;
pub mod laws;
