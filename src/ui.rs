//! The interactive parts: the modal session, the frame projector, the file
//! locator and the start menu.

pub mod editor;
pub mod view;
pub mod finder;
pub mod dashboard;
