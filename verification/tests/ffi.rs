use wtools::ffi::{
    XDefaultScreen, XGetWindowAttributes, XMapState, XOpenDisplay, XScreenOfDisplay,
};
use wtools::protocol::{RawAttributes, RawScreen, Reply};

fn raw(map_state: i32) -> RawAttributes {
    RawAttributes {
        x: -3,
        y: 4,
        width: 640,
        height: 480,
        border_width: 2,
        map_state,
        override_redirect: 1,
        root: 0x1d,
        screen: RawScreen { handle: 0x5000, root: 0x1d, width: 1024, height: 768 },
    }
}

#[test]
fn map_states_from_their_numbers() {
    assert_eq!(XMapState::from_raw(0), XMapState::Unmapped);
    assert_eq!(XMapState::from_raw(1), XMapState::Unviewable);
    assert_eq!(XMapState::from_raw(2), XMapState::Viewable);
}

#[test]
fn mapped_is_not_unmapped_and_visible_is_viewable() {
    assert!(!XMapState::Unmapped.mapped());
    assert!(XMapState::Unviewable.mapped());
    assert!(XMapState::Viewable.mapped());
    assert!(!XMapState::Unmapped.visible());
    assert!(!XMapState::Unviewable.visible());
    assert!(XMapState::Viewable.visible());
}

#[test]
fn a_null_display_is_no_display() {
    assert!(XOpenDisplay(&Reply::Display { handle: 0, screens: 1, default_screen: 0 }).is_none());
    assert!(XOpenDisplay(&Reply::Status(1)).is_none());
    let d = XOpenDisplay(&Reply::Display { handle: 0x1000, screens: 1, default_screen: 0 });
    assert_eq!(d.unwrap().ptr(), 0x1000);
}

#[test]
fn the_default_screen_of_an_open_display() {
    assert_eq!(XDefaultScreen(&Reply::Display { handle: 8, screens: 3, default_screen: 2 }), Some(2));
    assert_eq!(XDefaultScreen(&Reply::Display { handle: 0, screens: 3, default_screen: 2 }), None);
    assert_eq!(XDefaultScreen(&Reply::Atom(2)), None);
}

#[test]
fn a_null_screen_is_no_screen() {
    let none = RawScreen { handle: 0, root: 1, width: 2, height: 3 };
    assert!(XScreenOfDisplay(&Reply::Screen(none)).is_none());
    assert!(XScreenOfDisplay(&Reply::Status(1)).is_none());
    let some = RawScreen { handle: 0x2000, root: 1, width: 2, height: 3 };
    assert_eq!(XScreenOfDisplay(&Reply::Screen(some)).unwrap().ptr(), 0x2000);
}

#[test]
fn attributes_are_read_where_the_status_is_above_zero() {
    let a = XGetWindowAttributes(&Reply::Attributes { status: 1, attrs: raw(2) }).unwrap();
    assert_eq!(a.x, -3);
    assert_eq!(a.y, 4);
    assert_eq!(a.w, 640);
    assert_eq!(a.h, 480);
    assert_eq!(a.b, 2);
    assert_eq!(a.map_state, XMapState::Viewable);
    assert!(a.override_redirect);
    assert_eq!(a.root, 0x1d);
    assert_eq!(a.screen.ptr(), 0x5000);
    assert!(XGetWindowAttributes(&Reply::Attributes { status: 7, attrs: raw(0) }).is_some());
    assert!(XGetWindowAttributes(&Reply::Attributes { status: 0, attrs: raw(2) }).is_none());
    assert!(XGetWindowAttributes(&Reply::Attributes { status: -1, attrs: raw(2) }).is_none());
    assert!(XGetWindowAttributes(&Reply::Status(1)).is_none());
}

#[test]
fn a_negative_size_wraps_round_to_unsigned() {
    let mut r = raw(1);
    r.width = -1;
    r.height = i32::MIN;
    r.override_redirect = 0;
    let a = XGetWindowAttributes(&Reply::Attributes { status: 1, attrs: r }).unwrap();
    assert_eq!(a.w, u32::MAX);
    assert_eq!(a.h, 0x8000_0000);
    assert!(!a.override_redirect);
    assert_eq!(a.map_state, XMapState::Unviewable);
}
