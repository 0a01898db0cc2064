//! A simulator for deterministic Turing machines over one or many tracks.
pub mod compose;
pub mod laws;
pub mod space;
pub mod tape;
pub mod turing;

pub use space::{Atom, Dir, Space};
pub use tape::Tape;
pub use turing::{Table, Turing};
