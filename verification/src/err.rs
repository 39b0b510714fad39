//! The errors of the library.

use vstd::prelude::*;

verus! {

/// Why an operation failed.
///
/// Every fallible operation of the library returns one of these; none of
/// them is recovered from inside the library.
#[derive(Copy, Clone, Debug, PartialEq, Eq, Structural)]
pub enum Error {
    /// The connection could not be opened: the display name holds a NUL
    /// character, or the server gave no display.
    ConnectionError,
    /// The screen number is not one of the display's screens, or the display
    /// gave no record for it.
    ScreenError,
    /// The identifier names no window that the server knows.
    WindowNotFound,
    /// The server refused the attributes of a batch of changes.
    AttributeError,
    /// The server refused the geometry or the stacking of a batch of
    /// changes.
    ConfigureError,
    /// The window could not be mapped.
    MapError,
    /// The window could not be unmapped.
    UnmapError,
    /// The window could not be destroyed, or its client could not be killed.
    DestroyError,
    /// The input focus could not be set or read.
    FocusError,
    /// The window tree could not be read, or the answer named children
    /// without listing them.
    QueryError,
    /// The pointer could not be read or moved.
    PointerError,
    /// The pointer is on another screen than the window.
    NotSameScreen,
    /// The name of an atom holds a NUL character, or the server gave no atom
    /// for it.
    AtomError,
    /// The text is no window identifier, or no colour.
    ParseError,
}

impl Error {
    /// The text of the error.
    pub open spec fn spec_message(self) -> Seq<char> {
        match self {
            Error::ConnectionError => "XOpenDisplay() failed"@,
            Error::ScreenError => "XScreenOfDisplay() failed"@,
            Error::WindowNotFound => "XGetWindowAttributes() failed"@,
            Error::AttributeError => "XChangeWindowAttributes() failed"@,
            Error::ConfigureError => "XConfigureWindow() failed"@,
            Error::MapError => "XMapWindow() failed"@,
            Error::UnmapError => "XUnmapWindow() failed"@,
            Error::DestroyError => "XDestroyWindow() failed"@,
            Error::FocusError => "XSetInputFocus() failed"@,
            Error::QueryError => "XQueryTree() failed"@,
            Error::PointerError => "XQueryPointer() failed"@,
            Error::NotSameScreen => "window not on same screen as pointer"@,
            Error::AtomError => "XInternAtom() failed"@,
            Error::ParseError => "not a hexadecimal number"@,
        }
    }

    /// The text of the error, as it is shown to the user.
    pub fn message(&self) -> (m: &'static str)
        ensures
            m@ == self.spec_message(),
    {
        match self {
            Error::ConnectionError => "XOpenDisplay() failed",
            Error::ScreenError => "XScreenOfDisplay() failed",
            Error::WindowNotFound => "XGetWindowAttributes() failed",
            Error::AttributeError => "XChangeWindowAttributes() failed",
            Error::ConfigureError => "XConfigureWindow() failed",
            Error::MapError => "XMapWindow() failed",
            Error::UnmapError => "XUnmapWindow() failed",
            Error::DestroyError => "XDestroyWindow() failed",
            Error::FocusError => "XSetInputFocus() failed",
            Error::QueryError => "XQueryTree() failed",
            Error::PointerError => "XQueryPointer() failed",
            Error::NotSameScreen => "window not on same screen as pointer",
            Error::AtomError => "XInternAtom() failed",
            Error::ParseError => "not a hexadecimal number",
        }
    }
}

} // verus!
