//! The connection to the server.

use crate::err::Error;
use crate::protocol::{has_nul, Name, Request, NONE};
use crate::shapes::Point;
use crate::task::{PointerUse, ScreenUse, Task, TaskView, WindowUse};
use crate::window::{Window, ID};
use vstd::prelude::*;

verus! {

/// A connection, as a mathematical record.
pub struct DisplayView {
    /// The address of the display of Xlib; never 0.
    pub handle: usize,
    /// The number of screens, as `XScreenCount` gives it.
    pub screens: i32,
    /// The number of the default screen, as `XDefaultScreen` gives it.
    pub default_screen: i32,
}

impl DisplayView {
    /// Whether `number` is the number of one of the display's screens.
    pub open spec fn has_screen(self, number: int) -> bool {
        0 <= number < self.screens
    }

    /// The task that resolves the screen `number` and goes on with it as
    /// `then` says. Where the display has no screen of that number, the task
    /// is over with [`Error::ScreenError`] before anything is asked of Xlib.
    pub open spec fn on_screen(self, number: int, then: ScreenUse) -> TaskView {
        if self.has_screen(number) {
            TaskView::ResolvingScreen { display: self, number: number as i32, then }
        } else {
            TaskView::Done(Err(Error::ScreenError))
        }
    }

    /// [`DisplayView::on_screen`] for the default screen.
    pub open spec fn on_default_screen(self, then: ScreenUse) -> TaskView {
        self.on_screen(self.default_screen as int, then)
    }
}

/// An open connection to the server.
///
/// It owns the display of Xlib: there is no copy of it, and [`Display::close`]
/// takes it for good. Every [`Screen`] and [`Window`] borrows the connection
/// that it came from, so none of them outlives it.
///
/// [`Screen`]: crate::screen::Screen
/// [`Window`]: crate::window::Window
#[derive(Debug)]
pub struct Display {
    d: usize,
    screens: i32,
    default_screen: i32,
}

impl View for Display {
    type V = DisplayView;

    closed spec fn view(&self) -> DisplayView {
        DisplayView { handle: self.d, screens: self.screens, default_screen: self.default_screen }
    }
}

impl Display {
    /// The display is never null.
    #[verifier::type_invariant]
    closed spec fn inv(self) -> bool {
        self.d != 0
    }

    /// The connection on the display at the address `handle`.
    pub(crate) fn new_unchecked(handle: usize, screens: i32, default_screen: i32) -> (d: Display)
        requires
            handle != 0,
        ensures
            d@ == (DisplayView { handle, screens, default_screen }),
    {
        Display { d: handle, screens, default_screen }
    }

    /// Opens the display that `dispname` names.
    ///
    /// Where the name holds a NUL character nothing is asked of Xlib, and the
    /// task is over with [`Error::ConnectionError`]. Else the task asks for
    /// the display of that name; see [`TaskView::step`] for what becomes of
    /// the answer.
    pub fn open_named<'d>(dispname: &str) -> (task: Task<'d>)
        ensures
            task@ == if has_nul(dispname@) {
                TaskView::Done(Err(Error::ConnectionError))
            } else {
                TaskView::Opening { name: Some(dispname@) }
            },
    {
        match Name::new(dispname) {
            Some(name) => Task::Opening { name: Some(name) },
            None => Task::Done(Err(Error::ConnectionError)),
        }
    }

    /// Opens the display that the environment names: the task asks Xlib for
    /// a display without giving a name.
    pub fn open<'d>() -> (task: Task<'d>)
        ensures
            task@ == (TaskView::Opening { name: None }),
    {
        Task::Opening { name: None }
    }

    /// The address of the display of Xlib.
    pub fn xlib_display(&self) -> (handle: usize)
        ensures
            handle == self@.handle,
            handle != 0,
    {
        proof {
            use_type_invariant(self);
        }
        self.d
    }

    /// Closes the connection. The display is gone with it: the request is to
    /// be carried out once, and what it returns means nothing.
    pub fn close(self) -> (request: Request)
        ensures
            request == (Request::CloseDisplay { display: self@.handle }),
            self@.handle != 0,
    {
        proof {
            use_type_invariant(&self);
        }
        Request::CloseDisplay { display: self.d }
    }

    /// Reads the pointer on the default screen, relative to its root window.
    pub fn pointer<'d>(&'d self) -> (task: Task<'d>)
        ensures
            task@ == self@.on_default_screen(ScreenUse::Pointer),
    {
        self.on_default_screen(ScreenUse::Pointer)
    }

    /// Moves the pointer to the place `p` of the root window of the default
    /// screen.
    pub fn warp_pointer_absolute<'d>(&'d self, p: Point) -> (task: Task<'d>)
        ensures
            task@ == self@.on_default_screen(ScreenUse::Warp(p)),
    {
        self.on_default_screen(ScreenUse::Warp(p))
    }

    /// Moves the pointer by `p` from where it is.
    pub fn warp_pointer_relative<'d>(&'d self, p: Point) -> (task: Task<'d>)
        ensures
            task@ == (TaskView::Warping { display: self@, dest: NONE, x: p.x, y: p.y }),
    {
        Task::Warping { display: self, dest: NONE, x: p.x, y: p.y }
    }

    /// The number of screens of the display.
    pub fn screens(&self) -> (n: u32)
        ensures
            n == self@.screens as u32,
    {
        #[verifier::truncate]
        (self.screens as u32)
    }

    /// The number of the default screen, or [`Error::ScreenError`] where the
    /// number that Xlib names is not the number of one of the display's
    /// screens.
    pub fn screen_default(&self) -> (n: Result<u32, Error>)
        ensures
            n == if self@.has_screen(self@.default_screen as int) {
                Ok::<u32, Error>(self@.default_screen as u32)
            } else {
                Err::<u32, Error>(Error::ScreenError)
            },
    {
        if 0 <= self.default_screen && self.default_screen < self.screens {
            Ok(self.default_screen as u32)
        } else {
            Err(Error::ScreenError)
        }
    }

    fn on_default_screen<'d>(&'d self, then: ScreenUse) -> (task: Task<'d>)
        ensures
            task@ == self@.on_default_screen(then),
    {
        if 0 <= self.default_screen && self.default_screen < self.screens {
            Task::ResolvingScreen { display: self, number: self.default_screen, then }
        } else {
            Task::Done(Err(Error::ScreenError))
        }
    }

    /// Resolves the screen with the number `screennum`.
    pub fn screen_num<'d>(&'d self, screennum: u32) -> (task: Task<'d>)
        ensures
            task@ == self@.on_screen(screennum as int, ScreenUse::Give),
    {
        if self.screens > 0 && screennum < self.screens as u32 {
            Task::ResolvingScreen { display: self, number: screennum as i32, then: ScreenUse::Give }
        } else {
            Task::Done(Err(Error::ScreenError))
        }
    }

    /// Resolves the default screen.
    pub fn screen<'d>(&'d self) -> (task: Task<'d>)
        ensures
            task@ == self@.on_default_screen(ScreenUse::Give),
    {
        self.on_default_screen(ScreenUse::Give)
    }

    /// Resolves the window with the identifier `id`.
    pub fn window<'d>(&'d self, id: ID) -> (task: Task<'d>)
        ensures
            task@ == (TaskView::LookingUp { display: self@, id, then: WindowUse::Give }),
    {
        Task::LookingUp { display: self, id, then: WindowUse::Give }
    }

    /// Reads where the pointer is: relative to the root window that it is
    /// on, and relative to the window `w` where both are on one screen.
    pub fn pointer_direct<'d>(&'d self, w: &Window<'_>) -> (task: Task<'d>)
        ensures
            task@ == (TaskView::ReadingPointer {
                display: self@,
                id: w@.id,
                want: PointerUse::Direct,
            }),
    {
        Task::ReadingPointer { display: self, id: w.id(), want: PointerUse::Direct }
    }

    /// Resolves the window that has the input focus.
    pub fn focus<'d>(&'d self) -> (task: Task<'d>)
        ensures
            task@ == (TaskView::ReadingFocus { display: self@ }),
    {
        Task::ReadingFocus { display: self }
    }

    /// Resolves the atom of the name `name`, making it where there is none.
    ///
    /// Where the name holds a NUL character nothing is asked of Xlib, and the
    /// task is finished with [`Error::AtomError`].
    pub fn atom<'d>(&'d self, name: &str) -> (task: Task<'d>)
        ensures
            task@ == if has_nul(name@) {
                TaskView::Done(Err(Error::AtomError))
            } else {
                TaskView::Interning { display: self@, atom_name: name@ }
            },
    {
        match Name::new(name) {
            Some(atom_name) => Task::Interning { display: self, atom_name },
            None => Task::Done(Err(Error::AtomError)),
        }
    }
}

/// Where the pointer is.
#[derive(Copy, Clone, Debug, PartialEq, Eq, Structural)]
pub struct Pointer {
    /// Its place relative to the root window that it is on.
    pub pos: Point,
    /// Its place relative to the window that was asked about; `None` where
    /// that window is on another screen than the pointer.
    pub wpos: Option<Point>,
}

/// An atom, as a mathematical record.
pub struct AtomView {
    /// The number of the atom; never 0.
    pub id: u64,
    /// The name of the atom.
    pub name: Seq<char>,
}

/// A name that the server knows by a number.
#[derive(Debug, PartialEq, Eq)]
pub struct Atom {
    id: u64,
    pub name: String,
}

impl View for Atom {
    type V = AtomView;

    closed spec fn view(&self) -> AtomView {
        AtomView { id: self.id, name: self.name@ }
    }
}

impl Clone for Atom {
    fn clone(&self) -> (atom: Atom)
        ensures
            atom@ == self@,
    {
        proof {
            use_type_invariant(self);
        }
        Atom { id: self.id, name: self.name.clone() }
    }
}

impl Atom {
    /// The atom is never the null atom.
    #[verifier::type_invariant]
    closed spec fn inv(self) -> bool {
        self.id != 0
    }

    /// The atom with the number `id` and the name `name`.
    pub(crate) fn new(id: u64, name: String) -> (atom: Atom)
        requires
            id != 0,
        ensures
            atom@ == (AtomView { id, name: name@ }),
    {
        Atom { id, name }
    }

    /// The number of the atom.
    pub fn id(&self) -> (id: u64)
        ensures
            id == self@.id,
            id != 0,
    {
        proof {
            use_type_invariant(self);
        }
        self.id
    }
}

} // verus!
