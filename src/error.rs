//! The error kinds of the editor.

use vstd::prelude::*;

verus! {

#[derive(Clone, Copy, Debug, PartialEq, Eq, Structural)]
pub enum Error {
    /// A configuration path was given that is not an existing file.
    ConfigNotFound,
    /// A terminal drawing primitive failed.
    CouldNotRender,
    /// A cursor move past the start or the end of the document.
    CouldNotMove,
    /// A file could not be opened or read.
    CouldNotRead,
}

impl Error {
    /// The message shown for this error.
    pub fn message(&self) -> (r: &'static str)
        ensures
            r@ == match self {
                Error::ConfigNotFound => "Could not resolve config file"@,
                Error::CouldNotRender => "Could not render component. Are you on Windows?"@,
                Error::CouldNotMove => "Position out of bounds"@,
                Error::CouldNotRead => "Could not read file"@,
            },
    {
        match self {
            Error::ConfigNotFound => "Could not resolve config file",
            Error::CouldNotRender => "Could not render component. Are you on Windows?",
            Error::CouldNotMove => "Position out of bounds",
            Error::CouldNotRead => "Could not read file",
        }
    }
}

} // verus!
