//! Core of a terminal weather viewer: the input-editing model, the shared
//! fetch-state cell with its latest-request-wins rule, and the pure
//! composition of the text frame that is drawn on every tick.
//!
//! Everything that talks to the terminal, the network or the runtime lives
//! outside this crate; the types here carry plain integers and strings so
//! that every rule can be stated and proved.

pub mod art;
pub mod coordinator;
pub mod model;
pub mod render;
pub mod state;
pub mod text;
pub mod types;
