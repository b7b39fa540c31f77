//! Screen state machine of a small game client: a main menu and a
//! placeholder "playing" screen.
//!
//! The library holds the decisions only. A host loop samples the keyboard and
//! the pointer, hands the library plain values, draws the screen the library
//! names and carries out the effect it returns.

pub mod history;
pub mod presenter;
pub mod state;
