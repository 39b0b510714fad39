//! The values of Xlib that the typed readings give.

use crate::protocol::{IS_UNMAPPED, IS_UNVIEWABLE, IS_VIEWABLE};
use vstd::prelude::*;

verus! {

/// A display of Xlib, known by its address. Two are equal where they are at
/// the same address.
#[derive(Debug, PartialEq, Eq, Structural)]
pub struct XDisplay {
    ptr: usize,
}

impl XDisplay {
    /// The display at the address `ptr`.
    pub closed spec fn at(ptr: usize) -> XDisplay {
        XDisplay { ptr }
    }

    /// The display at the address `ptr`.
    pub(crate) fn new(ptr: usize) -> (d: XDisplay)
        ensures
            d == XDisplay::at(ptr),
    {
        XDisplay { ptr: ptr }
    }

    /// The address of the display.
    pub fn ptr(&self) -> (p: usize)
        ensures
            *self == XDisplay::at(p),
    {
        self.ptr
    }
}

/// A screen of Xlib, known by the address of its record. Two are equal where
/// they are at the same address.
#[derive(Copy, Clone, Debug, PartialEq, Eq, Structural)]
pub struct XScreen {
    ptr: usize,
}

impl XScreen {
    /// The screen whose record is at the address `ptr`.
    pub closed spec fn at(ptr: usize) -> XScreen {
        XScreen { ptr }
    }

    /// The screen whose record is at the address `ptr`.
    pub(crate) fn new(ptr: usize) -> (s: XScreen)
        ensures
            s == XScreen::at(ptr),
    {
        XScreen { ptr: ptr }
    }

    /// The address of the record.
    pub fn ptr(&self) -> (p: usize)
        ensures
            *self == XScreen::at(p),
    {
        self.ptr
    }
}

/// Two displays, or two screens, at different addresses are different.
pub proof fn lemma_addresses_tell_apart(a: usize, b: usize)
    ensures
        XDisplay::at(a) == XDisplay::at(b) <==> a == b,
        XScreen::at(a) == XScreen::at(b) <==> a == b,
{
}

/// The identifier of a window.
pub type XWindow = u64;

/// Whether a window is mapped, and whether it can be seen.
#[derive(Copy, Clone, Debug, PartialEq, Eq, Structural)]
pub enum XMapState {
    /// The window is not mapped.
    Unmapped,
    /// The window is mapped, but an ancestor of it is not.
    Unviewable,
    /// The window is mapped, as all its ancestors are.
    Viewable,
}

impl XMapState {
    /// Whether `i` is one of the three map states of the X protocol.
    pub open spec fn is_raw(i: i32) -> bool {
        i == IS_UNMAPPED || i == IS_UNVIEWABLE || i == IS_VIEWABLE
    }

    /// The map state that the number `i` stands for in the X protocol.
    pub open spec fn spec_from_raw(i: i32) -> XMapState {
        if i == IS_UNMAPPED {
            XMapState::Unmapped
        } else if i == IS_UNVIEWABLE {
            XMapState::Unviewable
        } else {
            XMapState::Viewable
        }
    }

    /// The map state that the number `i` stands for in the X protocol. No
    /// other number than the three of the protocol is a map state.
    pub fn from_raw(i: i32) -> (state: XMapState)
        requires
            XMapState::is_raw(i),
        ensures
            state == XMapState::spec_from_raw(i),
    {
        if i == IS_UNMAPPED {
            XMapState::Unmapped
        } else if i == IS_UNVIEWABLE {
            XMapState::Unviewable
        } else {
            XMapState::Viewable
        }
    }

    /// Whether the window is mapped.
    pub fn mapped(&self) -> (b: bool)
        ensures
            b == (*self != XMapState::Unmapped),
    {
        match self {
            XMapState::Unmapped => false,
            _ => true,
        }
    }

    /// Whether the window can be seen.
    pub fn visible(&self) -> (b: bool)
        ensures
            b == (*self == XMapState::Viewable),
    {
        match self {
            XMapState::Viewable => true,
            _ => false,
        }
    }
}

/// The attributes of a window, each in the type that fits it.
#[derive(Clone, Debug, PartialEq, Eq)]
pub struct XWindowAttributes {
    pub x: i32,
    pub y: i32,
    pub w: u32,
    pub h: u32,
    pub b: u32,
    pub map_state: XMapState,
    pub override_redirect: bool,
    pub root: XWindow,
    pub screen: XScreen,
}

} // verus!
