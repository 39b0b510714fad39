//! Operations in flight.
//!
//! An operation on a display, a screen or a window is a [`Task`]: a state of
//! a small machine. While it is not done, [`Task::request`] names the one
//! call of Xlib that is due. Whoever makes the call hands what it gave to
//! [`Task::resume`], which gives the next state: another call to make, or the
//! result.
//!
//! What a task does is said once, on its mathematical view: [`TaskView::step`]
//! gives, for every state and every reply, the state that follows, and
//! [`TaskView::request`] the call that a state waits for. The laws at the end
//! speak of whole runs: that every run ends, what kind of value it ends in,
//! and what the longer operations give.
//!
//! A reply that the call in question cannot have given counts as the failure
//! of the call. No state is ever gone back to: what a call has changed at the
//! server stays changed when a later call of the same task fails.

use crate::display::{Atom, AtomView, Display, DisplayView, Pointer};
use crate::err::Error;
use crate::protocol::{
    has_nul, Name, RawAttributes, Reply, Request, CURRENT_TIME, NONE, POINTER_ROOT,
    REVERT_TO_POINTER_ROOT,
};
use crate::screen::{Screen, ScreenView};
use crate::shapes::Point;
use crate::window::{Changes, ChangesView, Window, WindowView, ID};
use vstd::prelude::*;
use vstd::string::*;

verus! {

/// What becomes of a screen once it is resolved.
#[derive(Copy, Clone, Debug, PartialEq, Eq, Structural)]
pub enum ScreenUse {
    /// It is the result.
    Give,
    /// The pointer is read, relative to its root window.
    Pointer,
    /// The pointer is moved to a place of its root window.
    Warp(Point),
}

/// What becomes of a window once its attributes are read.
#[derive(Copy, Clone, Debug, PartialEq, Eq, Structural)]
pub enum WindowUse {
    /// It is the result.
    Give,
    /// It is the result, as the window that has the focus.
    Focus,
    /// The result is whether the attributes could be read.
    Exists,
    /// The pointer is read, relative to the root window that it is on.
    Pointer,
    /// The pointer is moved to a place of the window.
    Warp(Point),
}

/// What is wanted of the pointer once it is read.
#[derive(Copy, Clone, Debug, PartialEq, Eq, Structural)]
pub enum PointerUse {
    /// All that was read.
    Direct,
    /// Its place relative to the root window that it is on.
    Absolute,
    /// Its place relative to the window that was asked about.
    Relative,
}

/// The result of a task that succeeded.
#[derive(Debug)]
pub enum Value<'d> {
    /// The task was done for its effect.
    Unit,
    /// The connection that was opened.
    Display(Display),
    /// The screen that was resolved.
    Screen(Screen<'d>),
    /// The window that was resolved, or that was changed and read anew.
    Window(Window<'d>),
    /// The window that has the input focus, if one has.
    Focus(Option<Window<'d>>),
    /// The children of a window, bottom-most first.
    Children(Vec<Window<'d>>),
    /// Where the pointer is.
    Pointer(Pointer),
    /// Where the pointer is, relative to a root window.
    Point(Point),
    /// Where the pointer is, relative to a window.
    Position(i32, i32),
    /// Whether a window exists.
    Exists(bool),
    /// The atom that was resolved.
    Atom(Atom),
}

/// An operation in flight: what it waits for, or how it ended.
#[derive(Debug)]
pub enum Task<'d> {
    /// Waits for `XOpenDisplay`.
    Opening { name: Option<Name> },
    /// Waits for `XScreenOfDisplay`.
    ResolvingScreen { display: &'d Display, number: i32, then: ScreenUse },
    /// Waits for `XGetWindowAttributes` on the window `id`.
    LookingUp { display: &'d Display, id: ID, then: WindowUse },
    /// Waits for `XQueryTree` on the window `id`.
    ReadingTree { display: &'d Display, id: ID },
    /// Waits for `XGetWindowAttributes` on the child that follows those
    /// already found.
    ReadingChild { display: &'d Display, ids: Vec<u64>, found: Vec<Window<'d>> },
    /// Waits for `XChangeWindowAttributes` on the window `id`.
    ChangingAttributes { display: &'d Display, id: ID, changes: Changes },
    /// Waits for `XConfigureWindow` on the window `id`.
    Configuring { display: &'d Display, id: ID, changes: Changes },
    /// Waits for `XMapWindow` on the window `id`.
    Mapping { display: &'d Display, id: ID },
    /// Waits for `XUnmapWindow` on the window `id`.
    Unmapping { display: &'d Display, id: ID },
    /// Waits for `XDestroyWindow` on the window `id`.
    Destroying { display: &'d Display, id: ID },
    /// Waits for `XKillClient` on the window `id`.
    Killing { display: &'d Display, id: ID },
    /// Waits for `XSetInputFocus` on the window `id`.
    Focusing { display: &'d Display, id: ID },
    /// Waits for `XWarpPointer`.
    Warping { display: &'d Display, dest: u64, x: i32, y: i32 },
    /// Waits for `XQueryPointer` on the window `id`.
    ReadingPointer { display: &'d Display, id: ID, want: PointerUse },
    /// Waits for `XGetInputFocus`.
    ReadingFocus { display: &'d Display },
    /// Waits for `XInternAtom`.
    Interning { display: &'d Display, atom_name: Name },
    /// The operation is over.
    Done(Result<Value<'d>, Error>),
}

/// The kinds of value that a task can end in.
#[derive(Copy, Clone, Debug, PartialEq, Eq, Structural)]
pub enum ValueKind {
    Unit,
    Display,
    Screen,
    Window,
    Focus,
    Children,
    Pointer,
    Point,
    Position,
    Exists,
    Atom,
}

/// The result of a task that succeeded, as a mathematical value.
pub enum ValueView {
    Unit,
    Display(DisplayView),
    Screen(ScreenView),
    Window(WindowView),
    Focus(Option<WindowView>),
    Children(Seq<WindowView>),
    Pointer(Pointer),
    Point(Point),
    Position(i32, i32),
    Exists(bool),
    Atom(AtomView),
}

impl ValueView {
    /// The kind of the value.
    pub open spec fn kind(self) -> ValueKind {
        match self {
            ValueView::Unit => ValueKind::Unit,
            ValueView::Display(_) => ValueKind::Display,
            ValueView::Screen(_) => ValueKind::Screen,
            ValueView::Window(_) => ValueKind::Window,
            ValueView::Focus(_) => ValueKind::Focus,
            ValueView::Children(_) => ValueKind::Children,
            ValueView::Pointer(_) => ValueKind::Pointer,
            ValueView::Point(_) => ValueKind::Point,
            ValueView::Position(_, _) => ValueKind::Position,
            ValueView::Exists(_) => ValueKind::Exists,
            ValueView::Atom(_) => ValueKind::Atom,
        }
    }
}

/// The views of a list of windows.
pub open spec fn window_views<'d>(windows: Seq<Window<'d>>) -> Seq<WindowView> {
    Seq::new(windows.len(), |i: int| windows[i]@)
}

impl<'d> View for Value<'d> {
    type V = ValueView;

    open spec fn view(&self) -> ValueView {
        match *self {
            Value::Unit => ValueView::Unit,
            Value::Display(d) => ValueView::Display(d@),
            Value::Screen(s) => ValueView::Screen(s@),
            Value::Window(w) => ValueView::Window(w@),
            Value::Focus(w) => ValueView::Focus(
                match w {
                    Some(w) => Some(w@),
                    None => None,
                },
            ),
            Value::Children(c) => ValueView::Children(window_views(c@)),
            Value::Pointer(p) => ValueView::Pointer(p),
            Value::Point(p) => ValueView::Point(p),
            Value::Position(x, y) => ValueView::Position(x, y),
            Value::Exists(b) => ValueView::Exists(b),
            Value::Atom(a) => ValueView::Atom(a@),
        }
    }
}

/// One call of Xlib, as a mathematical value: [`Request`] with its texts as
/// sequences of characters.
pub enum RequestView {
    OpenDisplay { name: Option<Seq<char>> },
    InternAtom { display: usize, atom_name: Seq<char> },
    /// Any call that carries no text.
    Plain(Request),
}

impl View for Request {
    type V = RequestView;

    open spec fn view(&self) -> RequestView {
        match *self {
            Request::OpenDisplay { name } => RequestView::OpenDisplay {
                name: match name {
                    Some(n) => Some(n@),
                    None => None,
                },
            },
            Request::InternAtom { display, atom_name } => RequestView::InternAtom {
                display,
                atom_name: atom_name@,
            },
            _ => RequestView::Plain(*self),
        }
    }
}

/// An operation in flight, as a mathematical value.
pub enum TaskView {
    Opening { name: Option<Seq<char>> },
    ResolvingScreen { display: DisplayView, number: i32, then: ScreenUse },
    LookingUp { display: DisplayView, id: ID, then: WindowUse },
    ReadingTree { display: DisplayView, id: ID },
    /// The children `ids` are being resolved in their order, and `found` are
    /// those resolved so far.
    ReadingChild { display: DisplayView, ids: Seq<u64>, found: Seq<WindowView> },
    ChangingAttributes { display: DisplayView, id: ID, changes: ChangesView },
    Configuring { display: DisplayView, id: ID, changes: ChangesView },
    Mapping { display: DisplayView, id: ID },
    Unmapping { display: DisplayView, id: ID },
    Destroying { display: DisplayView, id: ID },
    Killing { display: DisplayView, id: ID },
    Focusing { display: DisplayView, id: ID },
    Warping { display: DisplayView, dest: u64, x: i32, y: i32 },
    ReadingPointer { display: DisplayView, id: ID, want: PointerUse },
    ReadingFocus { display: DisplayView },
    Interning { display: DisplayView, atom_name: Seq<char> },
    Done(Result<ValueView, Error>),
}

impl<'d> View for Task<'d> {
    type V = TaskView;

    open spec fn view(&self) -> TaskView {
        match *self {
            Task::Opening { name } => TaskView::Opening {
                name: match name {
                    Some(n) => Some(n@),
                    None => None,
                },
            },
            Task::ResolvingScreen { display, number, then } => TaskView::ResolvingScreen {
                display: display@,
                number,
                then,
            },
            Task::LookingUp { display, id, then } => TaskView::LookingUp {
                display: display@,
                id,
                then,
            },
            Task::ReadingTree { display, id } => TaskView::ReadingTree { display: display@, id },
            Task::ReadingChild { display, ids, found } => TaskView::ReadingChild {
                display: display@,
                ids: ids@,
                found: window_views(found@),
            },
            Task::ChangingAttributes { display, id, changes } => TaskView::ChangingAttributes {
                display: display@,
                id,
                changes: changes@,
            },
            Task::Configuring { display, id, changes } => TaskView::Configuring {
                display: display@,
                id,
                changes: changes@,
            },
            Task::Mapping { display, id } => TaskView::Mapping { display: display@, id },
            Task::Unmapping { display, id } => TaskView::Unmapping { display: display@, id },
            Task::Destroying { display, id } => TaskView::Destroying { display: display@, id },
            Task::Killing { display, id } => TaskView::Killing { display: display@, id },
            Task::Focusing { display, id } => TaskView::Focusing { display: display@, id },
            Task::Warping { display, dest, x, y } => TaskView::Warping {
                display: display@,
                dest,
                x,
                y,
            },
            Task::ReadingPointer { display, id, want } => TaskView::ReadingPointer {
                display: display@,
                id,
                want,
            },
            Task::ReadingFocus { display } => TaskView::ReadingFocus { display: display@ },
            Task::Interning { display, atom_name } => TaskView::Interning {
                display: display@,
                atom_name: atom_name@,
            },
            Task::Done(result) => TaskView::Done(
                match result {
                    Ok(v) => Ok(v@),
                    Err(e) => Err(e),
                },
            ),
        }
    }
}

/// The attributes that `reply` holds, where it is the reply of an
/// `XGetWindowAttributes` that succeeded: one with the status 1.
pub open spec fn attributes_read(reply: Reply) -> Option<RawAttributes> {
    match reply {
        Reply::Attributes { status, attrs } => if status == 1 {
            Some(attrs)
        } else {
            None
        },
        _ => None,
    }
}

/// What `reply` says of the pointer, where it is the reply of an
/// `XQueryPointer` that succeeded: one that names a root window. The place
/// relative to the window counts only where the call returned a number above
/// 0, which says that the pointer is on the screen of the window.
pub open spec fn pointer_read(reply: Reply) -> Option<Pointer> {
    match reply {
        Reply::Pointer { same_screen, root, root_x, root_y, win_x, win_y } => if root == NONE {
            None
        } else {
            Some(
                Pointer {
                    pos: Point { x: root_x, y: root_y },
                    wpos: if same_screen > 0 {
                        Some(Point { x: win_x, y: win_y })
                    } else {
                        None
                    },
                },
            )
        },
        _ => None,
    }
}

/// The end of a task that failed with `e`.
pub open spec fn failed(e: Error) -> TaskView {
    TaskView::Done(Err(e))
}

/// The end of a task that gave `v`.
pub open spec fn gave(v: ValueView) -> TaskView {
    TaskView::Done(Ok(v))
}

impl TaskView {
    /// The call that the task waits for; `None` once it is over.
    pub open spec fn request(self) -> Option<RequestView> {
        match self {
            TaskView::Opening { name } => Some(RequestView::OpenDisplay { name }),
            TaskView::ResolvingScreen { display, number, then } => Some(
                RequestView::Plain(Request::ScreenOfDisplay { display: display.handle, number }),
            ),
            TaskView::LookingUp { display, id, then } => Some(
                RequestView::Plain(
                    Request::GetWindowAttributes { display: display.handle, window: id.0 },
                ),
            ),
            TaskView::ReadingTree { display, id } => Some(
                RequestView::Plain(Request::QueryTree { display: display.handle, window: id.0 }),
            ),
            TaskView::ReadingChild { display, ids, found } => if found.len() < ids.len() {
                Some(
                    RequestView::Plain(
                        Request::GetWindowAttributes {
                            display: display.handle,
                            window: ids[found.len() as int],
                        },
                    ),
                )
            } else {
                None
            },
            TaskView::ChangingAttributes { display, id, changes } => Some(
                RequestView::Plain(changes.attributes_request(display.handle, id.0)),
            ),
            TaskView::Configuring { display, id, changes } => Some(
                RequestView::Plain(changes.configure_request(display.handle, id.0)),
            ),
            TaskView::Mapping { display, id } => Some(
                RequestView::Plain(Request::MapWindow { display: display.handle, window: id.0 }),
            ),
            TaskView::Unmapping { display, id } => Some(
                RequestView::Plain(Request::UnmapWindow { display: display.handle, window: id.0 }),
            ),
            TaskView::Destroying { display, id } => Some(
                RequestView::Plain(
                    Request::DestroyWindow { display: display.handle, window: id.0 },
                ),
            ),
            TaskView::Killing { display, id } => Some(
                RequestView::Plain(Request::KillClient { display: display.handle, resource: id.0 }),
            ),
            TaskView::Focusing { display, id } => Some(
                RequestView::Plain(
                    Request::SetInputFocus {
                        display: display.handle,
                        window: id.0,
                        revert_to: REVERT_TO_POINTER_ROOT,
                        time: CURRENT_TIME,
                    },
                ),
            ),
            TaskView::Warping { display, dest, x, y } => Some(
                RequestView::Plain(Request::WarpPointer { display: display.handle, dest, x, y }),
            ),
            TaskView::ReadingPointer { display, id, want } => Some(
                RequestView::Plain(Request::QueryPointer { display: display.handle, window: id.0 }),
            ),
            TaskView::ReadingFocus { display } => Some(
                RequestView::Plain(Request::GetInputFocus { display: display.handle }),
            ),
            TaskView::Interning { display, atom_name } => Some(
                RequestView::InternAtom { display: display.handle, atom_name },
            ),
            TaskView::Done(_) => None,
        }
    }

    /// The state that follows when the call that the task waits for has
    /// given `reply`. A task that is over stays as it is.
    pub open spec fn step(self, reply: Reply) -> TaskView {
        match self {
            TaskView::Opening { name } => Self::opened(reply),
            TaskView::ResolvingScreen { display, number, then } => Self::screen_resolved(
                display,
                then,
                reply,
            ),
            TaskView::LookingUp { display, id, then } => Self::looked_up(display, id, then, reply),
            TaskView::ReadingTree { display, id } => Self::tree_read(display, reply),
            TaskView::ReadingChild { display, ids, found } => Self::child_looked_up(
                display,
                ids,
                found,
                reply,
            ),
            // A batch is handed over in two calls, and either must return 1.
            TaskView::ChangingAttributes { display, id, changes } => if reply == Reply::Status(1) {
                TaskView::Configuring { display, id, changes }
            } else {
                failed(Error::AttributeError)
            },
            TaskView::Configuring { display, id, changes } => if reply == Reply::Status(1) {
                TaskView::LookingUp { display, id, then: WindowUse::Give }
            } else {
                failed(Error::ConfigureError)
            },
            TaskView::Mapping { display, id } => if reply == Reply::Status(1) {
                TaskView::LookingUp { display, id, then: WindowUse::Give }
            } else {
                failed(Error::MapError)
            },
            TaskView::Unmapping { display, id } => if reply == Reply::Status(1) {
                TaskView::LookingUp { display, id, then: WindowUse::Give }
            } else {
                failed(Error::UnmapError)
            },
            TaskView::Destroying { display, id } => Self::effected(reply, Error::DestroyError),
            TaskView::Killing { display, id } => Self::effected(reply, Error::DestroyError),
            TaskView::Focusing { display, id } => Self::effected(reply, Error::FocusError),
            TaskView::Warping { display, dest, x, y } => Self::effected(
                reply,
                Error::PointerError,
            ),
            TaskView::ReadingPointer { display, id, want } => Self::pointer_wanted(want, reply),
            TaskView::ReadingFocus { display } => Self::focus_read(display, reply),
            TaskView::Interning { display, atom_name } => Self::interned(atom_name, reply),
            TaskView::Done(_) => self,
        }
    }

    /// After `XOpenDisplay`: the connection where the call gave a display,
    /// else [`Error::ConnectionError`].
    pub open spec fn opened(reply: Reply) -> TaskView {
        match reply {
            Reply::Display { handle, screens, default_screen } => if handle != 0 {
                gave(ValueView::Display(DisplayView { handle, screens, default_screen }))
            } else {
                failed(Error::ConnectionError)
            },
            _ => failed(Error::ConnectionError),
        }
    }

    /// After `XScreenOfDisplay`: where the call gave a screen, the screen
    /// itself, or the next step on its root window; else
    /// [`Error::ScreenError`].
    pub open spec fn screen_resolved(display: DisplayView, then: ScreenUse, reply: Reply)
        -> TaskView {
        match reply {
            Reply::Screen(raw) => if raw.handle != 0 {
                match then {
                    ScreenUse::Give => gave(ValueView::Screen(ScreenView { display, raw })),
                    ScreenUse::Pointer => TaskView::LookingUp {
                        display,
                        id: ID(raw.root),
                        then: WindowUse::Pointer,
                    },
                    ScreenUse::Warp(p) => TaskView::LookingUp {
                        display,
                        id: ID(raw.root),
                        then: WindowUse::Warp(p),
                    },
                }
            } else {
                failed(Error::ScreenError)
            },
            _ => failed(Error::ScreenError),
        }
    }

    /// After `XGetWindowAttributes`: where the call succeeded, the window
    /// with the attributes that it read, or the next step on that window;
    /// else [`Error::WindowNotFound`], or `false` as the answer to whether
    /// the window exists.
    pub open spec fn looked_up(display: DisplayView, id: ID, then: WindowUse, reply: Reply)
        -> TaskView {
        match attributes_read(reply) {
            Some(attrs) => {
                let window = WindowView { id, display, attrs };
                match then {
                    WindowUse::Give => gave(ValueView::Window(window)),
                    WindowUse::Focus => gave(ValueView::Focus(Some(window))),
                    WindowUse::Exists => gave(ValueView::Exists(true)),
                    WindowUse::Pointer => TaskView::ReadingPointer {
                        display,
                        id,
                        want: PointerUse::Absolute,
                    },
                    WindowUse::Warp(p) => TaskView::Warping { display, dest: id.0, x: p.x, y: p.y },
                }
            },
            None => match then {
                WindowUse::Exists => gave(ValueView::Exists(false)),
                _ => failed(Error::WindowNotFound),
            },
        }
    }

    /// After `XQueryTree`: where the call failed, [`Error::QueryError`];
    /// where it reported no child, the empty list; where it reported
    /// children and gave no list, [`Error::QueryError`]; else the first step
    /// through the list that it gave.
    pub open spec fn tree_read(display: DisplayView, reply: Reply) -> TaskView {
        match reply {
            Reply::Tree { status, count, children } => if status <= 0 {
                failed(Error::QueryError)
            } else if count == 0 {
                gave(ValueView::Children(Seq::empty()))
            } else {
                match children {
                    None => failed(Error::QueryError),
                    Some(ids) => if ids@.len() == 0 {
                        gave(ValueView::Children(Seq::empty()))
                    } else {
                        TaskView::ReadingChild { display, ids: ids@, found: Seq::empty() }
                    },
                }
            },
            _ => failed(Error::QueryError),
        }
    }

    /// After `XGetWindowAttributes` on a child: where the call succeeded, the
    /// child joins those found, and the task goes on to the next identifier
    /// of the list, or gives all that it found when the list is through;
    /// else [`Error::WindowNotFound`], and none of the children is given.
    pub open spec fn child_looked_up(
        display: DisplayView,
        ids: Seq<u64>,
        found: Seq<WindowView>,
        reply: Reply,
    ) -> TaskView {
        if found.len() >= ids.len() {
            gave(ValueView::Children(found))
        } else {
            match attributes_read(reply) {
                Some(attrs) => {
                    let child = WindowView { id: ID(ids[found.len() as int]), display, attrs };
                    if found.len() + 1 == ids.len() {
                        gave(ValueView::Children(found.push(child)))
                    } else {
                        TaskView::ReadingChild { display, ids, found: found.push(child) }
                    }
                },
                None => failed(Error::WindowNotFound),
            }
        }
    }

    /// After a call that is made for its effect: done where the status is
    /// above 0, else the error `e`.
    pub open spec fn effected(reply: Reply, e: Error) -> TaskView {
        match reply {
            Reply::Status(status) => if status > 0 {
                gave(ValueView::Unit)
            } else {
                failed(e)
            },
            _ => failed(e),
        }
    }

    /// After `XQueryPointer`: where the call failed,
    /// [`Error::PointerError`]; else what was wanted of the pointer, or
    /// [`Error::NotSameScreen`] where its place relative to the window was
    /// wanted and it is on another screen.
    pub open spec fn pointer_wanted(want: PointerUse, reply: Reply) -> TaskView {
        match pointer_read(reply) {
            None => failed(Error::PointerError),
            Some(pointer) => match want {
                PointerUse::Direct => gave(ValueView::Pointer(pointer)),
                PointerUse::Absolute => gave(ValueView::Point(pointer.pos)),
                PointerUse::Relative => match pointer.wpos {
                    Some(at) => gave(ValueView::Position(at.x, at.y)),
                    None => failed(Error::NotSameScreen),
                },
            },
        }
    }

    /// After `XGetInputFocus`: where the call failed, [`Error::FocusError`];
    /// where no window has the focus, or the root window of the pointer's
    /// screen has it, no window; else the step that resolves the window.
    pub open spec fn focus_read(display: DisplayView, reply: Reply) -> TaskView {
        match reply {
            Reply::Focus { status, focus } => if status <= 0 {
                failed(Error::FocusError)
            } else if focus == NONE || focus == POINTER_ROOT {
                gave(ValueView::Focus(None))
            } else {
                TaskView::LookingUp { display, id: ID(focus), then: WindowUse::Focus }
            },
            _ => failed(Error::FocusError),
        }
    }

    /// After `XInternAtom`: the atom of the name that was asked for, or
    /// [`Error::AtomError`] where the call gave none.
    pub open spec fn interned(atom_name: Seq<char>, reply: Reply) -> TaskView {
        match reply {
            Reply::Atom(atom) => if atom != 0 {
                gave(ValueView::Atom(AtomView { id: atom, name: atom_name }))
            } else {
                failed(Error::AtomError)
            },
            _ => failed(Error::AtomError),
        }
    }

    /// The state after the calls of the task have given `replies`, one
    /// after the other.
    pub open spec fn run(self, replies: Seq<Reply>) -> TaskView
        decreases replies.len(),
    {
        if replies.len() == 0 {
            self
        } else {
            self.step(replies[0]).run(replies.drop_first())
        }
    }

    /// The kind of value that the task gives if it succeeds.
    pub open spec fn promises(self) -> ValueKind {
        match self {
            TaskView::Opening { name } => ValueKind::Display,
            TaskView::ResolvingScreen { display, number, then } => match then {
                ScreenUse::Give => ValueKind::Screen,
                ScreenUse::Pointer => ValueKind::Point,
                ScreenUse::Warp(_) => ValueKind::Unit,
            },
            TaskView::LookingUp { display, id, then } => match then {
                WindowUse::Give => ValueKind::Window,
                WindowUse::Focus => ValueKind::Focus,
                WindowUse::Exists => ValueKind::Exists,
                WindowUse::Pointer => ValueKind::Point,
                WindowUse::Warp(_) => ValueKind::Unit,
            },
            TaskView::ReadingTree { display, id } => ValueKind::Children,
            TaskView::ReadingChild { display, ids, found } => ValueKind::Children,
            TaskView::ChangingAttributes { display, id, changes } => ValueKind::Window,
            TaskView::Configuring { display, id, changes } => ValueKind::Window,
            TaskView::Mapping { display, id } => ValueKind::Window,
            TaskView::Unmapping { display, id } => ValueKind::Window,
            TaskView::Destroying { display, id } => ValueKind::Unit,
            TaskView::Killing { display, id } => ValueKind::Unit,
            TaskView::Focusing { display, id } => ValueKind::Unit,
            TaskView::Warping { display, dest, x, y } => ValueKind::Unit,
            TaskView::ReadingPointer { display, id, want } => match want {
                PointerUse::Direct => ValueKind::Pointer,
                PointerUse::Absolute => ValueKind::Point,
                PointerUse::Relative => ValueKind::Position,
            },
            TaskView::ReadingFocus { display } => ValueKind::Focus,
            TaskView::Interning { display, atom_name } => ValueKind::Atom,
            TaskView::Done(result) => match result {
                Ok(v) => v.kind(),
                Err(_) => ValueKind::Unit,
            },
        }
    }

    /// Whether the number of calls that the task may still make is not
    /// known yet: it waits for the list of children.
    pub open spec fn is_open_ended(self) -> bool {
        self is ReadingTree
    }

    /// The most calls that the task still makes, where that is known.
    pub open spec fn calls_left(self) -> nat {
        match self {
            TaskView::Opening { name } => 1,
            TaskView::ResolvingScreen { display, number, then } => match then {
                ScreenUse::Give => 1,
                _ => 3,
            },
            TaskView::LookingUp { display, id, then } => match then {
                WindowUse::Pointer => 2,
                WindowUse::Warp(_) => 2,
                _ => 1,
            },
            TaskView::ReadingTree { display, id } => 0,
            TaskView::ReadingChild { display, ids, found } => if found.len() < ids.len() {
                (ids.len() - found.len()) as nat
            } else {
                0
            },
            TaskView::ChangingAttributes { display, id, changes } => 3,
            TaskView::Configuring { display, id, changes } => 2,
            TaskView::Mapping { display, id } => 2,
            TaskView::Unmapping { display, id } => 2,
            TaskView::ReadingFocus { display } => 2,
            TaskView::Done(_) => 0,
            _ => 1,
        }
    }
}

/// The view of a request, if there is one.
pub open spec fn request_view(request: Option<Request>) -> Option<RequestView> {
    match request {
        Some(r) => Some(r@),
        None => None,
    }
}

impl<'d> Task<'d> {
    /// The call that is due; `None` once the task is over. No call goes to
    /// a null display, and none hands over a name with a NUL character.
    pub fn request(&self) -> (r: Option<Request>)
        ensures
            request_view(r) == self@.request(),
            r matches Some(call) ==> call.spec_display() != Some(0usize),
            r matches Some(call) ==> (call.spec_name() matches Some(name) ==> !has_nul(name)),
    {
        match self {
            Task::Opening { name } => {
                let name = match name {
                    Some(n) => Some(String::from_str(n.as_str())),
                    None => None,
                };
                Some(Request::OpenDisplay { name })
            },
            Task::ResolvingScreen { display, number, then: _ } => Some(
                Request::ScreenOfDisplay { display: display.xlib_display(), number: *number },
            ),
            Task::LookingUp { display, id, then: _ } => Some(
                Request::GetWindowAttributes { display: display.xlib_display(), window: id.0 },
            ),
            Task::ReadingTree { display, id } => Some(
                Request::QueryTree { display: display.xlib_display(), window: id.0 },
            ),
            Task::ReadingChild { display, ids, found } => {
                if found.len() < ids.len() {
                    Some(
                        Request::GetWindowAttributes {
                            display: display.xlib_display(),
                            window: ids[found.len()],
                        },
                    )
                } else {
                    None
                }
            },
            Task::ChangingAttributes { display, id, changes } => Some(
                changes.attributes_request(display.xlib_display(), id.0),
            ),
            Task::Configuring { display, id, changes } => Some(
                changes.configure_request(display.xlib_display(), id.0),
            ),
            Task::Mapping { display, id } => Some(
                Request::MapWindow { display: display.xlib_display(), window: id.0 },
            ),
            Task::Unmapping { display, id } => Some(
                Request::UnmapWindow { display: display.xlib_display(), window: id.0 },
            ),
            Task::Destroying { display, id } => Some(
                Request::DestroyWindow { display: display.xlib_display(), window: id.0 },
            ),
            Task::Killing { display, id } => Some(
                Request::KillClient { display: display.xlib_display(), resource: id.0 },
            ),
            Task::Focusing { display, id } => Some(
                Request::SetInputFocus {
                    display: display.xlib_display(),
                    window: id.0,
                    revert_to: REVERT_TO_POINTER_ROOT,
                    time: CURRENT_TIME,
                },
            ),
            Task::Warping { display, dest, x, y } => Some(
                Request::WarpPointer {
                    display: display.xlib_display(),
                    dest: *dest,
                    x: *x,
                    y: *y,
                },
            ),
            Task::ReadingPointer { display, id, want: _ } => Some(
                Request::QueryPointer { display: display.xlib_display(), window: id.0 },
            ),
            Task::ReadingFocus { display } => Some(
                Request::GetInputFocus { display: display.xlib_display() },
            ),
            Task::Interning { display, atom_name } => Some(
                Request::InternAtom {
                    display: display.xlib_display(),
                    atom_name: String::from_str(atom_name.as_str()),
                },
            ),
            Task::Done(_) => None,
        }
    }

    /// Goes on with what the call that was due has given: the result is the
    /// state that follows, as [`TaskView::step`] says. A task that is over
    /// stays as it is.
    pub fn resume(self, reply: Reply) -> (next: Task<'d>)
        ensures
            next@ == self@.step(reply),
    {
        match self {
            Task::Opening { name: _ } => open_display(reply),
            Task::ResolvingScreen { display, number: _, then } => resolve_screen(
                display,
                then,
                reply,
            ),
            Task::LookingUp { display, id, then } => look_up(display, id, then, reply),
            Task::ReadingTree { display, id: _ } => read_tree(display, reply),
            Task::ReadingChild { display, ids, found } => look_up_child(display, ids, found, reply),
            Task::ChangingAttributes { display, id, changes } => {
                if is_status_one(&reply) {
                    Task::Configuring { display, id, changes }
                } else {
                    Task::Done(Err(Error::AttributeError))
                }
            },
            Task::Configuring { display, id, changes: _ } => {
                if is_status_one(&reply) {
                    Task::LookingUp { display, id, then: WindowUse::Give }
                } else {
                    Task::Done(Err(Error::ConfigureError))
                }
            },
            Task::Mapping { display, id } => {
                if is_status_one(&reply) {
                    Task::LookingUp { display, id, then: WindowUse::Give }
                } else {
                    Task::Done(Err(Error::MapError))
                }
            },
            Task::Unmapping { display, id } => {
                if is_status_one(&reply) {
                    Task::LookingUp { display, id, then: WindowUse::Give }
                } else {
                    Task::Done(Err(Error::UnmapError))
                }
            },
            Task::Destroying { display: _, id: _ } => effect(reply, Error::DestroyError),
            Task::Killing { display: _, id: _ } => effect(reply, Error::DestroyError),
            Task::Focusing { display: _, id: _ } => effect(reply, Error::FocusError),
            Task::Warping { display: _, dest: _, x: _, y: _ } => effect(
                reply,
                Error::PointerError,
            ),
            Task::ReadingPointer { display: _, id: _, want } => read_pointer(want, reply),
            Task::ReadingFocus { display } => read_focus(display, reply),
            Task::Interning { display: _, atom_name } => intern(atom_name, reply),
            Task::Done(result) => Task::Done(result),
        }
    }
}

/// Whether `reply` is the status 1.
fn is_status_one(reply: &Reply) -> (b: bool)
    ensures
        b == (*reply == Reply::Status(1)),
{
    match reply {
        Reply::Status(status) => *status == 1,
        _ => false,
    }
}

/// The attributes of a reply of `XGetWindowAttributes` that succeeded.
fn read_attributes(reply: &Reply) -> (attrs: Option<RawAttributes>)
    ensures
        attrs == attributes_read(*reply),
{
    match reply {
        Reply::Attributes { status, attrs } => if *status == 1 {
            Some(*attrs)
        } else {
            None
        },
        _ => None,
    }
}

fn open_display<'d>(reply: Reply) -> (next: Task<'d>)
    ensures
        next@ == TaskView::opened(reply),
{
    match reply {
        Reply::Display { handle, screens, default_screen } => {
            if handle != 0 {
                Task::Done(
                    Ok(Value::Display(Display::new_unchecked(handle, screens, default_screen))),
                )
            } else {
                Task::Done(Err(Error::ConnectionError))
            }
        },
        _ => Task::Done(Err(Error::ConnectionError)),
    }
}

fn resolve_screen<'d>(display: &'d Display, then: ScreenUse, reply: Reply) -> (next: Task<'d>)
    ensures
        next@ == TaskView::screen_resolved(display@, then, reply),
{
    match reply {
        Reply::Screen(raw) => {
            if raw.handle != 0 {
                let screen = Screen::new_unchecked(display, raw);
                match then {
                    ScreenUse::Give => Task::Done(Ok(Value::Screen(screen))),
                    ScreenUse::Pointer => screen.pointer(),
                    ScreenUse::Warp(p) => screen.warp_pointer(p),
                }
            } else {
                Task::Done(Err(Error::ScreenError))
            }
        },
        _ => Task::Done(Err(Error::ScreenError)),
    }
}

fn look_up<'d>(display: &'d Display, id: ID, then: WindowUse, reply: Reply) -> (next: Task<'d>)
    ensures
        next@ == TaskView::looked_up(display@, id, then, reply),
{
    match read_attributes(&reply) {
        Some(attrs) => {
            let window = Window::from_attributes(display, id, attrs);
            match then {
                WindowUse::Give => Task::Done(Ok(Value::Window(window))),
                WindowUse::Focus => Task::Done(Ok(Value::Focus(Some(window)))),
                WindowUse::Exists => Task::Done(Ok(Value::Exists(true))),
                WindowUse::Pointer => Task::ReadingPointer {
                    display,
                    id,
                    want: PointerUse::Absolute,
                },
                WindowUse::Warp(p) => window.warp_pointer(p.x, p.y),
            }
        },
        None => match then {
            WindowUse::Exists => Task::Done(Ok(Value::Exists(false))),
            _ => Task::Done(Err(Error::WindowNotFound)),
        },
    }
}

fn read_tree<'d>(display: &'d Display, reply: Reply) -> (next: Task<'d>)
    ensures
        next@ == TaskView::tree_read(display@, reply),
{
    match reply {
        Reply::Tree { status, count, children } => {
            if status <= 0 {
                Task::Done(Err(Error::QueryError))
            } else if count == 0 {
                let none: Vec<Window<'d>> = Vec::new();
                proof {
                    assert(window_views(none@) =~= Seq::<WindowView>::empty());
                }
                Task::Done(Ok(Value::Children(none)))
            } else {
                match children {
                    None => Task::Done(Err(Error::QueryError)),
                    Some(ids) => {
                        let none: Vec<Window<'d>> = Vec::new();
                        proof {
                            assert(window_views(none@) =~= Seq::<WindowView>::empty());
                        }
                        if ids.len() == 0 {
                            Task::Done(Ok(Value::Children(none)))
                        } else {
                            Task::ReadingChild { display, ids, found: none }
                        }
                    },
                }
            }
        },
        _ => Task::Done(Err(Error::QueryError)),
    }
}

fn look_up_child<'d>(
    display: &'d Display,
    ids: Vec<u64>,
    found: Vec<Window<'d>>,
    reply: Reply,
) -> (next: Task<'d>)
    ensures
        next@ == TaskView::child_looked_up(display@, ids@, window_views(found@), reply),
{
    if found.len() >= ids.len() {
        return Task::Done(Ok(Value::Children(found)));
    }
    match read_attributes(&reply) {
        Some(attrs) => {
            let ghost before = found@;
            let mut found = found;
            let window = Window::from_attributes(display, ID(ids[found.len()]), attrs);
            found.push(window);
            proof {
                assert(window_views(found@) =~= window_views(before).push(window@));
            }
            if found.len() == ids.len() {
                Task::Done(Ok(Value::Children(found)))
            } else {
                Task::ReadingChild { display, ids, found }
            }
        },
        None => Task::Done(Err(Error::WindowNotFound)),
    }
}

fn effect<'d>(reply: Reply, e: Error) -> (next: Task<'d>)
    ensures
        next@ == TaskView::effected(reply, e),
{
    match reply {
        Reply::Status(status) => {
            if status > 0 {
                Task::Done(Ok(Value::Unit))
            } else {
                Task::Done(Err(e))
            }
        },
        _ => Task::Done(Err(e)),
    }
}

/// What a reply of `XQueryPointer` that succeeded says of the pointer.
fn read_pointer_reply(reply: &Reply) -> (pointer: Option<Pointer>)
    ensures
        pointer == pointer_read(*reply),
{
    match reply {
        Reply::Pointer { same_screen, root, root_x, root_y, win_x, win_y } => {
            if *root == NONE {
                None
            } else {
                let pos = Point::new(*root_x, *root_y);
                let wpos = if *same_screen > 0 {
                    Some(Point::new(*win_x, *win_y))
                } else {
                    None
                };
                Some(Pointer { pos, wpos })
            }
        },
        _ => None,
    }
}

fn read_pointer<'d>(want: PointerUse, reply: Reply) -> (next: Task<'d>)
    ensures
        next@ == TaskView::pointer_wanted(want, reply),
{
    match read_pointer_reply(&reply) {
        None => Task::Done(Err(Error::PointerError)),
        Some(pointer) => match want {
            PointerUse::Direct => Task::Done(Ok(Value::Pointer(pointer))),
            PointerUse::Absolute => Task::Done(Ok(Value::Point(pointer.pos))),
            PointerUse::Relative => match pointer.wpos {
                Some(at) => Task::Done(Ok(Value::Position(at.x, at.y))),
                None => Task::Done(Err(Error::NotSameScreen)),
            },
        },
    }
}

fn read_focus<'d>(display: &'d Display, reply: Reply) -> (next: Task<'d>)
    ensures
        next@ == TaskView::focus_read(display@, reply),
{
    match reply {
        Reply::Focus { status, focus } => {
            if status <= 0 {
                Task::Done(Err(Error::FocusError))
            } else if focus == NONE || focus == POINTER_ROOT {
                Task::Done(Ok(Value::Focus(None)))
            } else {
                Task::LookingUp { display, id: ID(focus), then: WindowUse::Focus }
            }
        },
        _ => Task::Done(Err(Error::FocusError)),
    }
}

fn intern<'d>(atom_name: Name, reply: Reply) -> (next: Task<'d>)
    ensures
        next@ == TaskView::interned(atom_name@, reply),
{
    match reply {
        Reply::Atom(atom) => {
            if atom != 0 {
                Task::Done(Ok(Value::Atom(Atom::new(atom, atom_name.into_string()))))
            } else {
                Task::Done(Err(Error::AtomError))
            }
        },
        _ => Task::Done(Err(Error::AtomError)),
    }
}

/// Every run ends: each call that a task makes leaves it over, or with
/// fewer calls left to make. Only before the list of children is read is
/// the number of calls left unknown, and after that step it is known for
/// good.
pub proof fn lemma_step_comes_closer(task: TaskView, reply: Reply)
    requires
        task.request() is Some,
    ensures
        !task.step(reply).is_open_ended(),
        task.is_open_ended() || task.step(reply).calls_left() < task.calls_left(),
        task.step(reply).calls_left() == 0 <==> task.step(reply).request() is None,
{
}

/// A task that is over stays as it is, whatever comes after.
pub proof fn lemma_done_stays(task: TaskView, replies: Seq<Reply>)
    requires
        task is Done,
    ensures
        task.run(replies) == task,
    decreases replies.len(),
{
    if replies.len() > 0 {
        lemma_done_stays(task, replies.drop_first());
    }
}

/// A task whose number of calls is known asks for nothing more once it has
/// been given that many replies: whoever makes the calls that a task asks
/// for, one after the other, comes to an end.
pub proof fn lemma_run_ends(task: TaskView, replies: Seq<Reply>)
    requires
        !task.is_open_ended(),
        replies.len() >= task.calls_left(),
    ensures
        task.run(replies).request() is None,
    decreases replies.len(),
{
    if replies.len() > 0 {
        let next = task.step(replies[0]);
        if task.request() is None {
            lemma_done_stays(next, replies.drop_first());
        } else {
            lemma_step_comes_closer(task, replies[0]);
            lemma_run_ends(next, replies.drop_first());
        }
    }
}

/// A task asks for no call when it is over, and when it walks through
/// children of which none is left; one more step then gives the children
/// found.
pub proof fn lemma_request_until_done(task: TaskView, reply: Reply)
    ensures
        task is Done ==> task.request() is None,
        task.request() is None ==> task.step(reply) is Done,
        task.request() is None && !(task is Done) ==> task.promises() == ValueKind::Children
            && (task.step(reply) matches TaskView::Done(Ok(ValueView::Children(_)))),
{
}

/// A task gives a value of the kind that it promised when it was started:
/// no step changes the promise, and a task that is over with success holds a
/// value of that kind.
pub proof fn lemma_promise_is_kept(task: TaskView, reply: Reply)
    ensures
        task.step(reply) matches TaskView::Done(Err(_)) || task.step(reply).promises()
            == task.promises(),
        task matches TaskView::Done(Ok(v)) ==> v.kind() == task.promises(),
{
}

/// A window that has no children has the empty list of children, and no
/// error: whatever list comes with the count of zero, a tree that was read
/// with success gives no window.
pub proof fn lemma_childless_window_gives_empty_list(
    display: DisplayView,
    id: ID,
    status: i32,
    children: Option<Vec<u64>>,
)
    requires
        status > 0,
    ensures
        (TaskView::ReadingTree { display, id }).step(Reply::Tree { status, count: 0, children })
            == gave(ValueView::Children(Seq::empty())),
{
}

/// Opening fails with [`Error::ConnectionError`] whenever Xlib gives no
/// display, whatever name was asked for, and opening without a name asks
/// Xlib for the display that the environment names.
pub proof fn lemma_open_without_display_fails(
    name: Option<Seq<char>>,
    screens: i32,
    default_screen: i32,
)
    ensures
        (TaskView::Opening { name }).step(Reply::Display { handle: 0, screens, default_screen })
            == failed(Error::ConnectionError),
        (TaskView::Opening { name: None }).request() == Some(
            RequestView::OpenDisplay { name: None },
        ),
{
}

/// A batch of changes is applied in three calls: the attributes, the
/// geometry, and the reading of the new snapshot. Where all three succeed
/// the task gives the window with the attributes that were read; where one
/// fails the task is over with its error, and the calls after it are not
/// made.
pub proof fn lemma_change_in_three_calls(
    w: WindowView,
    batch: ChangesView,
    first: Reply,
    second: Reply,
    third: Reply,
)
    ensures
        ({
            let start = w.change(batch);
            let after_one = start.step(first);
            let after_two = after_one.step(second);
            let after_three = after_two.step(third);
            &&& start.request() == Some(
                RequestView::Plain(batch.attributes_request(w.display.handle, w.id.0)),
            )
            &&& first != Reply::Status(1) ==> after_one == failed(Error::AttributeError)
            &&& first == Reply::Status(1) ==> after_one.request() == Some(
                RequestView::Plain(batch.configure_request(w.display.handle, w.id.0)),
            )
            &&& first == Reply::Status(1) && second != Reply::Status(1) ==> after_two == failed(
                Error::ConfigureError,
            )
            &&& first == Reply::Status(1) && second == Reply::Status(1) ==> {
                &&& after_two.request() == Some(
                    RequestView::Plain(
                        Request::GetWindowAttributes {
                            display: w.display.handle,
                            window: w.id.0,
                        },
                    ),
                )
                &&& after_three == match attributes_read(third) {
                    Some(attrs) => gave(ValueView::Window(WindowView { attrs, ..w })),
                    None => failed(Error::WindowNotFound),
                }
            }
        }),
{
}

/// Where the server grants a batch, and the snapshot that is read after it
/// shows what was granted, the task gives the window as
/// [`WindowView::granted`] describes it.
pub proof fn lemma_granted_change(w: WindowView, batch: ChangesView)
    ensures
        w.change(batch).run(
            seq![
                Reply::Status(1),
                Reply::Status(1),
                Reply::Attributes { status: 1, attrs: batch.granted(w.attrs) },
            ],
        ) == gave(ValueView::Window(w.granted(batch))),
{
    let replies = seq![
        Reply::Status(1),
        Reply::Status(1),
        Reply::Attributes { status: 1, attrs: batch.granted(w.attrs) },
    ];
    let one = w.change(batch).step(replies[0]);
    let two = one.step(replies[1]);
    let three = two.step(replies[2]);
    reveal_with_fuel(TaskView::run, 4);
    assert(replies.drop_first().drop_first().drop_first() =~= Seq::<Reply>::empty());
    assert(replies.drop_first()[0] == replies[1]);
    assert(replies.drop_first().drop_first()[0] == replies[2]);
    assert(w.change(batch).run(replies) == three);
}

} // verus!
