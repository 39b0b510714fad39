//! Typed readings of what Xlib answers: an answer that stands for a failure
//! becomes `None`, and one that stands for a success becomes a value in the
//! types of [`types`].

#![allow(non_snake_case)]

use crate::protocol::Reply;
use vstd::prelude::*;

pub mod types;

pub use types::{XDisplay, XMapState, XScreen, XWindow, XWindowAttributes};

verus! {

/// The display that `XOpenDisplay` gave; `None` where it gave none.
pub fn XOpenDisplay(reply: &Reply) -> (display: Option<XDisplay>)
    ensures
        match *reply {
            Reply::Display { handle, screens, default_screen } => if handle != 0 {
                display == Some(XDisplay::at(handle))
            } else {
                display is None
            },
            _ => display is None,
        },
{
    match reply {
        Reply::Display { handle, screens: _, default_screen: _ } => {
            if *handle != 0 {
                Some(XDisplay::new(*handle))
            } else {
                None
            }
        },
        _ => None,
    }
}

/// The number of the default screen that the answer to `XOpenDisplay` names;
/// `None` where the call gave no display.
pub fn XDefaultScreen(reply: &Reply) -> (number: Option<i32>)
    ensures
        match *reply {
            Reply::Display { handle, screens, default_screen } => if handle != 0 {
                number == Some(default_screen)
            } else {
                number is None
            },
            _ => number is None,
        },
{
    match reply {
        Reply::Display { handle, screens: _, default_screen } => {
            if *handle != 0 {
                Some(*default_screen)
            } else {
                None
            }
        },
        _ => None,
    }
}

/// The screen that `XScreenOfDisplay` gave; `None` where it gave none.
pub fn XScreenOfDisplay(reply: &Reply) -> (screen: Option<XScreen>)
    ensures
        match *reply {
            Reply::Screen(raw) => if raw.handle != 0 {
                screen == Some(XScreen::at(raw.handle))
            } else {
                screen is None
            },
            _ => screen is None,
        },
{
    match reply {
        Reply::Screen(raw) => {
            if raw.handle != 0 {
                Some(XScreen::new(raw.handle))
            } else {
                None
            }
        },
        _ => None,
    }
}

/// Whether `reply` is an answer of `XGetWindowAttributes` that reports
/// success with a map state that the X protocol does not know.
pub open spec fn has_unknown_map_state(reply: Reply) -> bool {
    reply matches Reply::Attributes { status, attrs } && status > 0 && !XMapState::is_raw(
        attrs.map_state,
    )
}

/// The attributes that `XGetWindowAttributes` read; `None` where the call
/// failed, which a status of 0 or below says.
///
/// The width, the height and the border width become unsigned numbers of the
/// same 32 bits, and the override-redirect flag is set where the number that
/// was read is above 0. An answer that reports success must hold one of the
/// three map states of the X protocol.
pub fn XGetWindowAttributes(reply: &Reply) -> (attributes: Option<XWindowAttributes>)
    requires
        !has_unknown_map_state(*reply),
    ensures
        match *reply {
            Reply::Attributes { status, attrs } => if status > 0 {
                attributes == Some(
                    XWindowAttributes {
                        x: attrs.x,
                        y: attrs.y,
                        w: attrs.width as u32,
                        h: attrs.height as u32,
                        b: attrs.border_width as u32,
                        map_state: XMapState::spec_from_raw(attrs.map_state),
                        override_redirect: attrs.override_redirect > 0,
                        root: attrs.root,
                        screen: XScreen::at(attrs.screen.handle),
                    },
                )
            } else {
                attributes is None
            },
            _ => attributes is None,
        },
{
    match reply {
        Reply::Attributes { status, attrs } => {
            if *status > 0 {
                Some(
                    XWindowAttributes {
                        x: attrs.x,
                        y: attrs.y,
                        w: #[verifier::truncate]
                        (attrs.width as u32),
                        h: #[verifier::truncate]
                        (attrs.height as u32),
                        b: #[verifier::truncate]
                        (attrs.border_width as u32),
                        map_state: XMapState::from_raw(attrs.map_state),
                        override_redirect: attrs.override_redirect > 0,
                        root: attrs.root,
                        screen: XScreen::new(attrs.screen.handle),
                    },
                )
            } else {
                None
            }
        },
        _ => None,
    }
}

} // verus!
