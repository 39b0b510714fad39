//! The screens of a display.

use crate::display::{Display, DisplayView};
use crate::protocol::RawScreen;
use crate::shapes::{Point, PositionedRectangle};
use crate::task::{Task, TaskView, WindowUse};
use crate::window::ID;
use vstd::prelude::*;

verus! {

/// A screen, as a mathematical record.
pub struct ScreenView {
    /// The connection that the screen belongs to.
    pub display: DisplayView,
    /// What Xlib records of the screen; its address is never 0.
    pub raw: RawScreen,
}

/// A screen of a display. It borrows the connection, which owns the record
/// of the screen: a `Screen` frees nothing, and may be copied.
#[derive(Copy, Clone, Debug)]
pub struct Screen<'d> {
    d: &'d Display,
    s: RawScreen,
}

impl<'d> View for Screen<'d> {
    type V = ScreenView;

    closed spec fn view(&self) -> ScreenView {
        ScreenView { display: self.d@, raw: self.s }
    }
}

impl<'d> Screen<'d> {
    /// The record of the screen is never null.
    #[verifier::type_invariant]
    closed spec fn inv(self) -> bool {
        self.s.handle != 0
    }

    /// The screen of `d` that Xlib records as `s`.
    pub(crate) fn new_unchecked(d: &'d Display, s: RawScreen) -> (screen: Screen<'d>)
        requires
            s.handle != 0,
        ensures
            screen@ == (ScreenView { display: d@, raw: s }),
    {
        Screen { d, s }
    }

    /// The address of the record of the screen.
    pub fn xlib_screen(&self) -> (handle: usize)
        ensures
            handle == self@.raw.handle,
            handle != 0,
    {
        proof {
            use_type_invariant(self);
        }
        self.s.handle
    }

    /// Reads the pointer, relative to the root window of the screen.
    pub fn pointer(&self) -> (task: Task<'d>)
        ensures
            task@ == (TaskView::LookingUp {
                display: self@.display,
                id: ID(self@.raw.root),
                then: WindowUse::Pointer,
            }),
    {
        Task::LookingUp { display: self.d, id: ID(self.s.root), then: WindowUse::Pointer }
    }

    /// Moves the pointer to the place `p` of the root window of the screen.
    pub fn warp_pointer(&self, p: Point) -> (task: Task<'d>)
        ensures
            task@ == (TaskView::LookingUp {
                display: self@.display,
                id: ID(self@.raw.root),
                then: WindowUse::Warp(p),
            }),
    {
        Task::LookingUp { display: self.d, id: ID(self.s.root), then: WindowUse::Warp(p) }
    }

    /// Resolves the root window of the screen.
    pub fn root(&self) -> (task: Task<'d>)
        ensures
            task@ == (TaskView::LookingUp {
                display: self@.display,
                id: ID(self@.raw.root),
                then: WindowUse::Give,
            }),
    {
        Task::LookingUp { display: self.d, id: ID(self.s.root), then: WindowUse::Give }
    }

    /// The width of the screen in pixels.
    pub fn width(&self) -> (w: u32)
        ensures
            w == self@.raw.width as u32,
    {
        #[verifier::truncate]
        (self.s.width as u32)
    }

    /// The height of the screen in pixels.
    pub fn height(&self) -> (h: u32)
        ensures
            h == self@.raw.height as u32,
    {
        #[verifier::truncate]
        (self.s.height as u32)
    }

    /// The screen as a rectangle at the origin.
    pub fn rectangle(&self) -> (r: PositionedRectangle)
        ensures
            r == (PositionedRectangle {
                p: Point { x: 0, y: 0 },
                r: crate::shapes::Rectangle {
                    w: self@.raw.width as u32,
                    h: self@.raw.height as u32,
                },
            }),
    {
        PositionedRectangle::new(0, 0, self.width(), self.height())
    }
}

} // verus!
