//! Maze descriptions for a simulated micromouse: records, the wall decoder,
//! the scene layout and the editing session.

pub mod decoder;
pub mod layout;
pub mod library;
pub mod record;
pub mod scene;
pub mod session;
