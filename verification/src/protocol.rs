//! What the library asks of Xlib, and what Xlib answers.
//!
//! The library makes no call itself. An operation is a [`Task`]: it names the
//! call that is due as a [`Request`], and is resumed with the [`Reply`] that
//! the call gave. Both hold plain values only: numbers, text, and the address
//! of a display or a screen as a number.
//!
//! [`Task`]: crate::task::Task

use vstd::prelude::*;
use vstd::string::*;

verus! {

/// Value mask of `XConfigureWindow`: the horizontal position is given.
pub const CW_X: u16 = 0x0001;

/// Value mask of `XConfigureWindow`: the vertical position is given.
pub const CW_Y: u16 = 0x0002;

/// Value mask of `XConfigureWindow`: the width is given.
pub const CW_WIDTH: u16 = 0x0004;

/// Value mask of `XConfigureWindow`: the height is given.
pub const CW_HEIGHT: u16 = 0x0008;

/// Value mask of `XConfigureWindow`: the width of the border is given.
pub const CW_BORDER_WIDTH: u16 = 0x0010;

/// Value mask of `XConfigureWindow`: the stack mode is given.
pub const CW_STACK_MODE: u16 = 0x0040;

/// Value mask of `XChangeWindowAttributes`: the border pixel is given.
pub const CW_BORDER_PIXEL: u64 = 0x0008;

/// Value mask of `XChangeWindowAttributes`: the override-redirect flag is
/// given.
pub const CW_OVERRIDE_REDIRECT: u64 = 0x0200;

/// Map state of a window that is not mapped.
pub const IS_UNMAPPED: i32 = 0;

/// Map state of a window that is mapped, but has an ancestor that is not.
pub const IS_UNVIEWABLE: i32 = 1;

/// Map state of a window that is mapped, as all its ancestors are.
pub const IS_VIEWABLE: i32 = 2;

/// The identifier that names no window.
pub const NONE: u64 = 0;

/// The identifier that stands for the root window of the screen the pointer
/// is on, where the input focus is read or set.
pub const POINTER_ROOT: u64 = 1;

/// Where the focus goes when the focused window is no longer viewable: to the
/// root window of the pointer's screen.
pub const REVERT_TO_POINTER_ROOT: i32 = 1;

/// The time stamp that stands for the server's current time.
pub const CURRENT_TIME: u64 = 0;

/// Whether the text holds a NUL character, which no name handed to Xlib may
/// hold.
pub open spec fn has_nul(s: Seq<char>) -> bool {
    exists|i: int| 0 <= i < s.len() && s[i] == '\0'
}

/// Whether `name` holds a NUL character.
pub fn contains_nul(name: &str) -> (found: bool)
    ensures
        found == has_nul(name@),
{
    let n = name.unicode_len();
    let mut i: usize = 0;
    while i < n
        invariant
            i <= n,
            n == name@.len(),
            forall|j: int| 0 <= j < i ==> name@[j] != '\0',
        decreases n - i,
    {
        if name.get_char(i) == '\0' {
            return true;
        }
        i = i + 1;
    }
    false
}

/// A name that can be handed to Xlib: text without a NUL character.
#[derive(Debug)]
pub struct Name {
    text: String,
}

impl View for Name {
    type V = Seq<char>;

    closed spec fn view(&self) -> Seq<char> {
        self.text@
    }
}

impl Name {
    /// The name holds no NUL character.
    #[verifier::type_invariant]
    closed spec fn inv(self) -> bool {
        !has_nul(self.text@)
    }

    /// The name with the text `text`; `None` where the text holds a NUL
    /// character.
    pub fn new(text: &str) -> (name: Option<Name>)
        ensures
            name is Some <==> !has_nul(text@),
            name is Some ==> name->0@ == text@,
    {
        if contains_nul(text) {
            None
        } else {
            Some(Name { text: String::from_str(text) })
        }
    }

    /// The text of the name.
    pub fn as_str(&self) -> (text: &str)
        ensures
            text@ == self@,
            !has_nul(text@),
    {
        proof {
            use_type_invariant(self);
        }
        self.text.as_str()
    }

    /// The text of the name.
    pub fn into_string(self) -> (text: String)
        ensures
            text@ == self@,
            !has_nul(text@),
    {
        proof {
            use_type_invariant(&self);
        }
        self.text
    }
}

/// A screen as Xlib records it: the address of the record, and the fields of
/// it that the library reads.
#[derive(Copy, Clone, Debug, PartialEq, Eq, Structural)]
pub struct RawScreen {
    /// The address of the record; 0 for no record.
    pub handle: usize,
    /// The identifier of the root window.
    pub root: u64,
    /// The width in pixels.
    pub width: i32,
    /// The height in pixels.
    pub height: i32,
}

/// The attributes of a window as `XGetWindowAttributes` fills them in: the
/// fields that the library reads.
#[derive(Copy, Clone, Debug, PartialEq, Eq, Structural)]
pub struct RawAttributes {
    pub x: i32,
    pub y: i32,
    pub width: i32,
    pub height: i32,
    pub border_width: i32,
    /// One of [`IS_UNMAPPED`], [`IS_UNVIEWABLE`] and [`IS_VIEWABLE`].
    pub map_state: i32,
    /// Not 0 where window managers are to leave the window alone.
    pub override_redirect: i32,
    /// The identifier of the root window of the window's screen.
    pub root: u64,
    /// The window's screen.
    pub screen: RawScreen,
}

/// One call of Xlib, with its arguments.
///
/// `display` is the address of the display that the call goes to.
#[derive(Clone, Debug, PartialEq, Eq)]
pub enum Request {
    /// `XOpenDisplay`, on the display that `name` names, or on the one that
    /// the environment names where `name` is `None`. Before the first such
    /// call of a process, an error handler that ignores protocol errors is to
    /// be set once with `XSetErrorHandler`.
    OpenDisplay { name: Option<String> },
    /// `XCloseDisplay`. No reply is read.
    CloseDisplay { display: usize },
    /// `XScreenOfDisplay`.
    ScreenOfDisplay { display: usize, number: i32 },
    /// `XGetWindowAttributes`.
    GetWindowAttributes { display: usize, window: u64 },
    /// `XChangeWindowAttributes`, with the fields of the attributes that
    /// `mask` may name; all others are zero.
    ChangeWindowAttributes {
        display: usize,
        window: u64,
        mask: u64,
        border_pixel: u64,
        override_redirect: i32,
    },
    /// `XConfigureWindow`, with the fields of the changes that `value_mask`
    /// may name; the sibling is none.
    ConfigureWindow {
        display: usize,
        window: u64,
        value_mask: u32,
        x: i32,
        y: i32,
        width: i32,
        height: i32,
        border_width: i32,
        stack_mode: i32,
    },
    /// `XMapWindow`.
    MapWindow { display: usize, window: u64 },
    /// `XUnmapWindow`.
    UnmapWindow { display: usize, window: u64 },
    /// `XDestroyWindow`.
    DestroyWindow { display: usize, window: u64 },
    /// `XKillClient`.
    KillClient { display: usize, resource: u64 },
    /// `XSetInputFocus`.
    SetInputFocus { display: usize, window: u64, revert_to: i32, time: u64 },
    /// `XGetInputFocus`.
    GetInputFocus { display: usize },
    /// `XQueryTree`.
    QueryTree { display: usize, window: u64 },
    /// `XQueryPointer`.
    QueryPointer { display: usize, window: u64 },
    /// `XWarpPointer` from no source window, with an empty source rectangle.
    /// With `dest` a window, (`x`, `y`) is a place relative to its origin;
    /// with `dest` [`NONE`], a move relative to where the pointer is.
    WarpPointer { display: usize, dest: u64, x: i32, y: i32 },
    /// `XInternAtom`, creating the atom where none of that name exists.
    InternAtom { display: usize, atom_name: String },
}

impl Request {
    /// The name that the call hands to Xlib, if it hands one.
    pub open spec fn spec_name(self) -> Option<Seq<char>> {
        match self {
            Request::OpenDisplay { name } => match name {
                Some(n) => Some(n@),
                None => None,
            },
            Request::InternAtom { display, atom_name } => Some(atom_name@),
            _ => None,
        }
    }

    /// The address of the display that the call goes to; `None` for the call
    /// that opens one.
    pub open spec fn spec_display(self) -> Option<usize> {
        match self {
            Request::OpenDisplay { name } => None,
            Request::CloseDisplay { display } => Some(display),
            Request::ScreenOfDisplay { display, number } => Some(display),
            Request::GetWindowAttributes { display, window } => Some(display),
            Request::ChangeWindowAttributes {
                display,
                window,
                mask,
                border_pixel,
                override_redirect,
            } => Some(display),
            Request::ConfigureWindow {
                display,
                window,
                value_mask,
                x,
                y,
                width,
                height,
                border_width,
                stack_mode,
            } => Some(display),
            Request::MapWindow { display, window } => Some(display),
            Request::UnmapWindow { display, window } => Some(display),
            Request::DestroyWindow { display, window } => Some(display),
            Request::KillClient { display, resource } => Some(display),
            Request::SetInputFocus { display, window, revert_to, time } => Some(display),
            Request::GetInputFocus { display } => Some(display),
            Request::QueryTree { display, window } => Some(display),
            Request::QueryPointer { display, window } => Some(display),
            Request::WarpPointer { display, dest, x, y } => Some(display),
            Request::InternAtom { display, atom_name } => Some(display),
        }
    }
}

/// What a call of Xlib gave.
#[derive(Clone, Debug, PartialEq, Eq)]
pub enum Reply {
    /// The status that the call returned. For `XChangeWindowAttributes`,
    /// `XConfigureWindow`, `XMapWindow`, `XUnmapWindow`, `XDestroyWindow`,
    /// `XKillClient`, `XSetInputFocus` and `XWarpPointer`.
    Status(i32),
    /// For `XOpenDisplay`: the address of the display, 0 where the call gave
    /// none, and what `XScreenCount` and `XDefaultScreen` say of it.
    Display { handle: usize, screens: i32, default_screen: i32 },
    /// For `XScreenOfDisplay`: the record of the screen, with `handle` 0 where
    /// the call gave none.
    Screen(RawScreen),
    /// For `XGetWindowAttributes`: the status, and the attributes as far as
    /// the call filled them in.
    Attributes { status: i32, attrs: RawAttributes },
    /// For `XQueryTree`: the status, the number of children that the call
    /// reported, and the list it gave: `None` where it gave no list, else the
    /// identifiers of the children, bottom-most first.
    Tree { status: i32, count: u32, children: Option<Vec<u64>> },
    /// For `XQueryPointer`: what the call returned, not 0 where the pointer
    /// is on the window's screen; the root window that the pointer is on; the
    /// pointer's place relative to that root, and relative to the window.
    Pointer { same_screen: i32, root: u64, root_x: i32, root_y: i32, win_x: i32, win_y: i32 },
    /// For `XGetInputFocus`: the status and the focus.
    Focus { status: i32, focus: u64 },
    /// For `XInternAtom`: the atom, 0 where the call gave none.
    Atom(u64),
}

} // verus!
