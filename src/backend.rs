//! Documents and the arena that holds them.

pub mod buffer;
pub mod editor;
