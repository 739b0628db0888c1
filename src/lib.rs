//! Editing core of a modal terminal text editor: a line-addressed document,
//! a modal cursor session, a frame projector and a bounded file locator.

pub mod text;
pub mod language;
pub mod backend;
pub mod error;
pub mod key;
pub mod ui;
pub mod cli;
