use wtools::display::{Display, Pointer};
use wtools::err::Error;
use wtools::protocol::{RawAttributes, RawScreen, Reply, Request};
use wtools::shapes::{Point, PositionedRectangle};
use wtools::task::{Task, Value};
use wtools::window::{Changes, StackMode, Window, ID};
use wtools::Color;

const DISPLAY: usize = 0x7f00_1000;
const SCREEN: usize = 0x7f00_2000;
const ROOT: u64 = 0x1d;

/// One window of the server that stands in for Xlib.
#[derive(Clone, Debug)]
struct Entry {
    id: u64,
    attrs: RawAttributes,
    children: Vec<u64>,
    border_pixel: u64,
}

/// A server that grants what it is asked, and keeps a record of the calls.
struct Server {
    windows: Vec<Entry>,
    focus: u64,
    pointer: (i32, i32),
    pointer_on_other_screen: bool,
    refuse: Vec<&'static str>,
    null_children: bool,
    calls: Vec<Request>,
}

fn screen() -> RawScreen {
    RawScreen { handle: SCREEN, root: ROOT, width: 1920, height: 1080 }
}

fn attrs(x: i32, y: i32, width: i32, height: i32) -> RawAttributes {
    RawAttributes {
        x,
        y,
        width,
        height,
        border_width: 1,
        map_state: 2,
        override_redirect: 0,
        root: ROOT,
        screen: screen(),
    }
}

impl Server {
    fn new() -> Server {
        Server {
            windows: vec![
                Entry {
                    id: ROOT,
                    attrs: attrs(0, 0, 1920, 1080),
                    children: vec![0x01600009, 0x01600010],
                    border_pixel: 0,
                },
                Entry {
                    id: 0x01600009,
                    attrs: attrs(100, 50, 300, 200),
                    children: vec![],
                    border_pixel: 0,
                },
                Entry {
                    id: 0x01600010,
                    attrs: attrs(5, 6, 70, 80),
                    children: vec![],
                    border_pixel: 0,
                },
            ],
            focus: 0x01600009,
            pointer: (640, 480),
            pointer_on_other_screen: false,
            refuse: vec![],
            null_children: false,
            calls: vec![],
        }
    }

    fn entry(&mut self, id: u64) -> Option<&mut Entry> {
        self.windows.iter_mut().find(|e| e.id == id)
    }

    fn refuses(&self, call: &str) -> bool {
        self.refuse.iter().any(|c| *c == call)
    }

    fn status(&mut self, call: &str, window: u64) -> Reply {
        if self.refuses(call) || self.entry(window).is_none() {
            Reply::Status(0)
        } else {
            Reply::Status(1)
        }
    }

    fn perform(&mut self, request: &Request) -> Reply {
        self.calls.push(request.clone());
        match request {
            Request::OpenDisplay { name } => match name.as_deref() {
                None | Some(":0") => {
                    Reply::Display { handle: DISPLAY, screens: 1, default_screen: 0 }
                }
                Some(_) => Reply::Display { handle: 0, screens: 0, default_screen: 0 },
            },
            Request::CloseDisplay { .. } => Reply::Status(0),
            Request::ScreenOfDisplay { number, .. } => {
                if *number == 0 && !self.refuses("XScreenOfDisplay") {
                    Reply::Screen(screen())
                } else {
                    Reply::Screen(RawScreen { handle: 0, root: 0, width: 0, height: 0 })
                }
            }
            Request::GetWindowAttributes { window, .. } => {
                let refused = self.refuses("XGetWindowAttributes");
                match self.entry(*window) {
                    Some(e) if !refused => Reply::Attributes { status: 1, attrs: e.attrs },
                    _ => Reply::Attributes { status: 0, attrs: attrs(0, 0, 0, 0) },
                }
            }
            Request::ChangeWindowAttributes {
                window, mask, border_pixel, override_redirect, ..
            } => {
                let reply = self.status("XChangeWindowAttributes", *window);
                if reply == Reply::Status(1) {
                    let e = self.entry(*window).unwrap();
                    if mask & x11::xlib::CWBorderPixel != 0 {
                        e.border_pixel = *border_pixel;
                    }
                    if mask & x11::xlib::CWOverrideRedirect != 0 {
                        e.attrs.override_redirect = *override_redirect;
                    }
                }
                reply
            }
            Request::ConfigureWindow {
                window,
                value_mask,
                x,
                y,
                width,
                height,
                border_width,
                ..
            } => {
                let reply = self.status("XConfigureWindow", *window);
                if reply == Reply::Status(1) {
                    let e = self.entry(*window).unwrap();
                    let mask = *value_mask as u16;
                    if mask & x11::xlib::CWX != 0 {
                        e.attrs.x = *x;
                    }
                    if mask & x11::xlib::CWY != 0 {
                        e.attrs.y = *y;
                    }
                    if mask & x11::xlib::CWWidth != 0 {
                        e.attrs.width = *width;
                    }
                    if mask & x11::xlib::CWHeight != 0 {
                        e.attrs.height = *height;
                    }
                    if mask & x11::xlib::CWBorderWidth != 0 {
                        e.attrs.border_width = *border_width;
                    }
                }
                reply
            }
            Request::MapWindow { window, .. } => {
                let reply = self.status("XMapWindow", *window);
                if reply == Reply::Status(1) {
                    self.entry(*window).unwrap().attrs.map_state = x11::xlib::IsViewable;
                }
                reply
            }
            Request::UnmapWindow { window, .. } => {
                let reply = self.status("XUnmapWindow", *window);
                if reply == Reply::Status(1) {
                    self.entry(*window).unwrap().attrs.map_state = x11::xlib::IsUnmapped;
                }
                reply
            }
            Request::DestroyWindow { window, .. } => {
                let reply = self.status("XDestroyWindow", *window);
                if reply == Reply::Status(1) {
                    self.windows.retain(|e| e.id != *window);
                }
                reply
            }
            Request::KillClient { resource, .. } => {
                let reply = self.status("XKillClient", *resource);
                if reply == Reply::Status(1) {
                    self.windows.retain(|e| e.id != *resource);
                }
                reply
            }
            Request::SetInputFocus { window, .. } => {
                let reply = self.status("XSetInputFocus", *window);
                if reply == Reply::Status(1) {
                    self.focus = *window;
                }
                reply
            }
            Request::GetInputFocus { .. } => {
                if self.refuses("XGetInputFocus") {
                    Reply::Focus { status: 0, focus: 0 }
                } else {
                    Reply::Focus { status: 1, focus: self.focus }
                }
            }
            Request::QueryTree { window, .. } => {
                let refused = self.refuses("XQueryTree");
                let null = self.null_children;
                match self.entry(*window) {
                    Some(e) if !refused => Reply::Tree {
                        status: 1,
                        count: e.children.len() as u32,
                        children: if null || e.children.is_empty() {
                            None
                        } else {
                            Some(e.children.clone())
                        },
                    },
                    _ => Reply::Tree { status: 0, count: 0, children: None },
                }
            }
            Request::QueryPointer { window, .. } => {
                let (px, py) = self.pointer;
                let other = self.pointer_on_other_screen;
                let refused = self.refuses("XQueryPointer");
                match self.entry(*window) {
                    Some(e) if !refused => Reply::Pointer {
                        same_screen: if other { 0 } else { 1 },
                        root: ROOT,
                        root_x: px,
                        root_y: py,
                        win_x: if other { 0 } else { px - e.attrs.x },
                        win_y: if other { 0 } else { py - e.attrs.y },
                    },
                    _ => Reply::Pointer {
                        same_screen: 0,
                        root: 0,
                        root_x: 0,
                        root_y: 0,
                        win_x: 0,
                        win_y: 0,
                    },
                }
            }
            Request::WarpPointer { dest, x, y, .. } => {
                if self.refuses("XWarpPointer") {
                    return Reply::Status(0);
                }
                if *dest == 0 {
                    self.pointer = (self.pointer.0 + x, self.pointer.1 + y);
                    return Reply::Status(1);
                }
                match self.entry(*dest).map(|e| (e.attrs.x, e.attrs.y)) {
                    Some((wx, wy)) => {
                        self.pointer = (wx + x, wy + y);
                        Reply::Status(1)
                    }
                    None => Reply::Status(0),
                }
            }
            Request::InternAtom { atom_name, .. } => {
                if self.refuses("XInternAtom") {
                    Reply::Atom(0)
                } else {
                    Reply::Atom(100 + atom_name.len() as u64)
                }
            }
        }
    }
}

/// Makes the calls that a task asks for until the task is over.
fn run<'d>(server: &mut Server, task: Task<'d>) -> Result<Value<'d>, Error> {
    let mut task = task;
    loop {
        match task.request() {
            Some(request) => {
                let reply = server.perform(&request);
                task = task.resume(reply);
            }
            None => match task {
                Task::Done(result) => return result,
                other => panic!("a task without a request that is not over: {:?}", other),
            },
        }
    }
}

fn open(server: &mut Server) -> Display {
    match run(server, Display::open()) {
        Ok(Value::Display(d)) => d,
        other => panic!("{:?}", other),
    }
}

fn window<'d>(server: &mut Server, display: &'d Display, id: u64) -> Window<'d> {
    match run(server, display.window(ID(id))) {
        Ok(Value::Window(w)) => w,
        other => panic!("{:?}", other),
    }
}

fn changed<'d>(server: &mut Server, task: Task<'d>) -> Window<'d> {
    match run(server, task) {
        Ok(Value::Window(w)) => w,
        other => panic!("{:?}", other),
    }
}

fn error(result: Result<Value<'_>, Error>) -> Error {
    match result {
        Err(e) => e,
        Ok(v) => panic!("{:?}", v),
    }
}

#[test]
fn opening_without_a_name_asks_for_the_default_display() {
    let mut server = Server::new();
    let display = open(&mut server);
    assert_eq!(server.calls, vec![Request::OpenDisplay { name: None }]);
    assert_eq!(display.xlib_display(), DISPLAY);
    assert_eq!(display.screens(), 1);
    assert_eq!(display.screen_default(), Ok(0));
}

#[test]
fn opening_by_name_asks_for_that_display() {
    let mut server = Server::new();
    match run(&mut server, Display::open_named(":0")) {
        Ok(Value::Display(d)) => assert_eq!(d.xlib_display(), DISPLAY),
        other => panic!("{:?}", other),
    }
    assert_eq!(server.calls, vec![Request::OpenDisplay { name: Some(":0".to_string()) }]);
}

#[test]
fn opening_a_display_that_is_not_there_fails() {
    let mut server = Server::new();
    let e = error(run(&mut server, Display::open_named("no-such-host:99")));
    assert_eq!(e, Error::ConnectionError);
    assert_eq!(server.calls.len(), 1);
}

#[test]
fn opening_a_name_with_a_nul_fails_without_a_call() {
    let mut server = Server::new();
    let e = error(run(&mut server, Display::open_named(":0\0")));
    assert_eq!(e, Error::ConnectionError);
    assert!(server.calls.is_empty());
    let e = error(run(&mut server, Display::open_named("\0")));
    assert_eq!(e, Error::ConnectionError);
    assert!(server.calls.is_empty());
}

#[test]
fn an_answer_of_another_call_counts_as_failure() {
    let task = Display::open().resume(Reply::Status(1));
    assert!(matches!(task, Task::Done(Err(Error::ConnectionError))));
    let task = Display::open().resume(Reply::Display { handle: 0, screens: 1, default_screen: 0 });
    assert!(matches!(task, Task::Done(Err(Error::ConnectionError))));
}

#[test]
fn a_default_screen_that_the_display_does_not_have_is_an_error() {
    let task = Display::open().resume(Reply::Display { handle: 9, screens: 2, default_screen: 2 });
    let display = match task {
        Task::Done(Ok(Value::Display(d))) => d,
        other => panic!("{:?}", other),
    };
    assert_eq!(display.screens(), 2);
    assert_eq!(display.screen_default(), Err(Error::ScreenError));
    assert!(matches!(display.screen(), Task::Done(Err(Error::ScreenError))));
    assert!(matches!(display.pointer(), Task::Done(Err(Error::ScreenError))));
    assert!(matches!(
        display.warp_pointer_absolute(Point::new(1, 1)),
        Task::Done(Err(Error::ScreenError))
    ));
    assert_eq!(
        display.screen_num(1).request(),
        Some(Request::ScreenOfDisplay { display: 9, number: 1 })
    );
    let task = Display::open().resume(Reply::Display { handle: 9, screens: 2, default_screen: -1 });
    match task {
        Task::Done(Ok(Value::Display(d))) => {
            assert_eq!(d.screen_default(), Err(Error::ScreenError))
        }
        other => panic!("{:?}", other),
    }
    let task = Display::open().resume(Reply::Display { handle: 9, screens: 2, default_screen: 1 });
    match task {
        Task::Done(Ok(Value::Display(d))) => assert_eq!(d.screen_default(), Ok(1)),
        other => panic!("{:?}", other),
    }
}

#[test]
fn closing_gives_the_call_that_closes() {
    let mut server = Server::new();
    let display = open(&mut server);
    assert_eq!(display.close(), Request::CloseDisplay { display: DISPLAY });
}

#[test]
fn a_task_that_is_over_asks_for_nothing_and_stays() {
    let task: Task = Task::Done(Err(Error::MapError));
    assert_eq!(task.request(), None);
    let task = task.resume(Reply::Status(1));
    assert!(matches!(task, Task::Done(Err(Error::MapError))));
    let task: Task = Task::Done(Ok(Value::Exists(true)));
    assert!(matches!(task.resume(Reply::Atom(1)), Task::Done(Ok(Value::Exists(true)))));
}

#[test]
fn the_default_screen_is_resolved() {
    let mut server = Server::new();
    let display = open(&mut server);
    server.calls.clear();
    match run(&mut server, display.screen()) {
        Ok(Value::Screen(s)) => {
            assert_eq!(s.xlib_screen(), SCREEN);
            assert_eq!(s.width(), 1920);
            assert_eq!(s.height(), 1080);
            assert_eq!(s.rectangle(), PositionedRectangle::new(0, 0, 1920, 1080));
        }
        other => panic!("{:?}", other),
    }
    assert_eq!(server.calls, vec![Request::ScreenOfDisplay { display: DISPLAY, number: 0 }]);
}

#[test]
fn a_screen_number_out_of_range_fails_without_a_call() {
    let mut server = Server::new();
    let display = open(&mut server);
    server.calls.clear();
    assert_eq!(error(run(&mut server, display.screen_num(1))), Error::ScreenError);
    assert_eq!(error(run(&mut server, display.screen_num(u32::MAX))), Error::ScreenError);
    assert_eq!(error(run(&mut server, display.screen_num(0x8000_0000))), Error::ScreenError);
    assert!(server.calls.is_empty());
}

#[test]
fn a_screen_that_xlib_does_not_give_fails() {
    let mut server = Server::new();
    let display = open(&mut server);
    server.refuse.push("XScreenOfDisplay");
    assert_eq!(error(run(&mut server, display.screen_num(0))), Error::ScreenError);
    assert_eq!(error(run(&mut server, display.screen())), Error::ScreenError);
    assert_eq!(error(run(&mut server, display.pointer())), Error::ScreenError);
}

#[test]
fn the_root_window_of_a_screen_is_resolved() {
    let mut server = Server::new();
    let display = open(&mut server);
    let screen = match run(&mut server, display.screen()) {
        Ok(Value::Screen(s)) => s,
        other => panic!("{:?}", other),
    };
    server.calls.clear();
    match run(&mut server, screen.root()) {
        Ok(Value::Window(w)) => {
            assert_eq!(w.id(), ID(ROOT));
            assert_eq!(w.size(), (1920, 1080));
        }
        other => panic!("{:?}", other),
    }
    assert_eq!(
        server.calls,
        vec![Request::GetWindowAttributes { display: DISPLAY, window: ROOT }]
    );
}

#[test]
fn a_window_is_resolved_with_its_snapshot() {
    let mut server = Server::new();
    let display = open(&mut server);
    let w = window(&mut server, &display, 0x01600009);
    assert_eq!(w.id(), ID(0x01600009));
    assert_eq!(w.x(), 100);
    assert_eq!(w.y(), 50);
    assert_eq!(w.width(), 300);
    assert_eq!(w.height(), 200);
    assert_eq!(w.position(), (100, 50));
    assert_eq!(w.size(), (300, 200));
    assert_eq!(w.border_width(), 1);
    assert!(w.mapped());
    assert!(w.visible());
    assert!(!w.ignored());
    assert_eq!(w.display().xlib_display(), DISPLAY);
    assert_eq!(w.screen().unwrap().xlib_screen(), SCREEN);
    assert_eq!(w.screen().unwrap().width(), 1920);
}

#[test]
fn a_window_that_is_not_there_is_not_found() {
    let mut server = Server::new();
    let display = open(&mut server);
    assert_eq!(error(run(&mut server, display.window(ID(0x999)))), Error::WindowNotFound);
    assert_eq!(error(run(&mut server, Window::new(&display, ID(0x999)))), Error::WindowNotFound);
}

#[test]
fn only_the_status_one_reads_attributes() {
    let mut server = Server::new();
    let display = open(&mut server);
    let task = display.window(ID(5)).resume(Reply::Attributes { status: 2, attrs: attrs(1, 2, 3, 4) });
    assert!(matches!(task, Task::Done(Err(Error::WindowNotFound))));
    let task = display.window(ID(5)).resume(Reply::Attributes { status: 1, attrs: attrs(1, 2, 3, 4) });
    match task {
        Task::Done(Ok(Value::Window(w))) => assert_eq!(w.position(), (1, 2)),
        other => panic!("{:?}", other),
    }
}

#[test]
fn moving_then_resizing_gives_the_place_and_the_size() {
    let mut server = Server::new();
    let display = open(&mut server);
    let id = ID::from_str("0x01600009").unwrap();
    assert_eq!(id, ID(0x01600009));
    let w = match run(&mut server, display.window(id)) {
        Ok(Value::Window(w)) => w,
        other => panic!("{:?}", other),
    };
    let w = changed(&mut server, w.reposition_absolute(10, 10));
    let w = changed(&mut server, w.resize_absolute(500, 400));
    assert_eq!(w.x(), 10);
    assert_eq!(w.y(), 10);
    assert_eq!(w.width(), 500);
    assert_eq!(w.height(), 400);
    assert_eq!(w.border_width(), 1);
}

#[test]
fn a_change_makes_three_calls_in_order() {
    let mut server = Server::new();
    let display = open(&mut server);
    let w = window(&mut server, &display, 0x01600009);
    server.calls.clear();
    let w = changed(&mut server, w.reposition_absolute(7, 8));
    assert_eq!(
        server.calls,
        vec![
            Request::ChangeWindowAttributes {
                display: DISPLAY,
                window: 0x01600009,
                mask: 0,
                border_pixel: 0,
                override_redirect: 0
            },
            Request::ConfigureWindow {
                display: DISPLAY,
                window: 0x01600009,
                value_mask: 3,
                x: 7,
                y: 8,
                width: 0,
                height: 0,
                border_width: 0,
                stack_mode: 0
            },
            Request::GetWindowAttributes { display: DISPLAY, window: 0x01600009 },
        ]
    );
    assert_eq!(w.position(), (7, 8));
    assert_eq!(w.size(), (300, 200));
}

#[test]
fn moving_leaves_the_size_and_the_border() {
    let mut server = Server::new();
    let display = open(&mut server);
    let before = window(&mut server, &display, 0x01600010);
    let after = changed(&mut server, before.reposition_absolute(-40, 900));
    assert_eq!(after.position(), (-40, 900));
    assert_eq!(after.width(), before.width());
    assert_eq!(after.height(), before.height());
    assert_eq!(after.border_width(), before.border_width());
    let mut batch = Changes::new();
    batch.x(1);
    batch.y(2);
    let again = changed(&mut server, after.change(&batch));
    assert_eq!(again.position(), (1, 2));
    assert_eq!(again.size(), before.size());
    assert_eq!(again.border_width(), before.border_width());
}

#[test]
fn relative_moves_start_from_the_snapshot() {
    let mut server = Server::new();
    let display = open(&mut server);
    let w = window(&mut server, &display, 0x01600009);
    let w = changed(&mut server, w.reposition_relative(-30, 5));
    assert_eq!(w.position(), (70, 55));
    let w = changed(&mut server, w.reposition_relative(0, -55));
    assert_eq!(w.position(), (70, 0));
}

#[test]
fn two_relative_resizes_are_one_by_the_sums() {
    let deltas = [((10, 20), (5, -7)), ((-100, 0), (100, 0)), ((0, 0), (0, 0)), ((1, 1), (-2, -2))];
    for ((a, b), (c, d)) in deltas {
        let mut twice = Server::new();
        let display = open(&mut twice);
        let w = window(&mut twice, &display, 0x01600009);
        let w = changed(&mut twice, w.resize_relative(a, b));
        let w = changed(&mut twice, w.resize_relative(c, d));

        let mut once = Server::new();
        let other = open(&mut once);
        let v = window(&mut once, &other, 0x01600009);
        let v = changed(&mut once, v.resize_relative(a + c, b + d));

        assert_eq!(w.size(), v.size());
        assert_eq!(w.size(), (300 + a + c, 200 + b + d));
        assert_eq!(w.position(), v.position());
        assert_eq!(w.border_width(), v.border_width());
    }
}

#[test]
fn border_stack_colour_and_ignore_are_batches_of_one() {
    let mut server = Server::new();
    let display = open(&mut server);
    let w = window(&mut server, &display, 0x01600009);
    let w = changed(&mut server, w.border_resize(5));
    assert_eq!(w.border_width(), 5);
    server.calls.clear();
    let w = changed(&mut server, w.restack(StackMode::Below));
    assert!(matches!(
        server.calls[1],
        Request::ConfigureWindow { value_mask: 0x40, stack_mode: 1, .. }
    ));
    let w = changed(&mut server, w.border_recolor(Color { r: 0xff, g: 0, b: 0xaa }));
    assert_eq!(server.entry(0x01600009).unwrap().border_pixel, 0xff00aa);
    assert!(!w.ignored());
    let w = changed(&mut server, w.ignore(true));
    assert!(w.ignored());
    let w = changed(&mut server, w.ignore(false));
    assert!(!w.ignored());
    assert_eq!(w.size(), (300, 200));
}

#[test]
fn a_change_stops_at_the_first_call_that_fails() {
    let mut server = Server::new();
    let display = open(&mut server);
    let w = window(&mut server, &display, 0x01600009);

    server.refuse = vec!["XChangeWindowAttributes"];
    server.calls.clear();
    assert_eq!(error(run(&mut server, w.reposition_absolute(1, 1))), Error::AttributeError);
    assert_eq!(server.calls.len(), 1);

    server.refuse = vec!["XConfigureWindow"];
    server.calls.clear();
    assert_eq!(error(run(&mut server, w.ignore(true))), Error::ConfigureError);
    assert_eq!(server.calls.len(), 2);
    assert_eq!(server.entry(0x01600009).unwrap().attrs.override_redirect, 1);

    server.refuse = vec!["XGetWindowAttributes"];
    server.calls.clear();
    assert_eq!(error(run(&mut server, w.resize_absolute(9, 9))), Error::WindowNotFound);
    assert_eq!(server.calls.len(), 3);
    assert_eq!(server.entry(0x01600009).unwrap().attrs.width, 9);
    assert_eq!(w.width(), 300);
}

#[test]
fn mapping_and_unmapping_read_the_state_anew() {
    let mut server = Server::new();
    let display = open(&mut server);
    let w = window(&mut server, &display, 0x01600009);
    server.calls.clear();
    let w = changed(&mut server, w.unmap());
    assert!(!w.mapped());
    assert!(!w.visible());
    let w = changed(&mut server, w.map());
    assert!(w.mapped());
    assert!(w.visible());
    assert_eq!(
        server.calls,
        vec![
            Request::UnmapWindow { display: DISPLAY, window: 0x01600009 },
            Request::GetWindowAttributes { display: DISPLAY, window: 0x01600009 },
            Request::MapWindow { display: DISPLAY, window: 0x01600009 },
            Request::GetWindowAttributes { display: DISPLAY, window: 0x01600009 },
        ]
    );
    server.refuse = vec!["XMapWindow", "XUnmapWindow"];
    assert_eq!(error(run(&mut server, w.map())), Error::MapError);
    assert_eq!(error(run(&mut server, w.unmap())), Error::UnmapError);
}

#[test]
fn a_mapped_window_under_an_unmapped_one_is_not_visible() {
    let mut server = Server::new();
    let display = open(&mut server);
    server.entry(0x01600010).unwrap().attrs.map_state = x11::xlib::IsUnviewable;
    let w = window(&mut server, &display, 0x01600010);
    assert!(w.mapped());
    assert!(!w.visible());
}

#[test]
fn updating_reads_what_others_have_changed() {
    let mut server = Server::new();
    let display = open(&mut server);
    let w = window(&mut server, &display, 0x01600009);
    server.entry(0x01600009).unwrap().attrs.x = 999;
    assert_eq!(w.x(), 100);
    let w = changed(&mut server, w.update());
    assert_eq!(w.x(), 999);
}

#[test]
fn destroying_and_killing_remove_the_window() {
    let mut server = Server::new();
    let display = open(&mut server);
    let w = window(&mut server, &display, 0x01600009);
    assert!(matches!(run(&mut server, w.still_exists()), Ok(Value::Exists(true))));
    assert!(matches!(run(&mut server, w.destroy()), Ok(Value::Unit)));
    assert!(matches!(run(&mut server, w.still_exists()), Ok(Value::Exists(false))));
    assert_eq!(error(run(&mut server, w.destroy())), Error::DestroyError);
    assert_eq!(error(run(&mut server, w.update())), Error::WindowNotFound);

    let v = window(&mut server, &display, 0x01600010);
    server.calls.clear();
    assert!(matches!(run(&mut server, v.kill()), Ok(Value::Unit)));
    assert_eq!(server.calls, vec![Request::KillClient { display: DISPLAY, resource: 0x01600010 }]);
    assert_eq!(error(run(&mut server, v.kill())), Error::DestroyError);
}

#[test]
fn a_status_above_zero_is_enough_for_an_effect() {
    let mut server = Server::new();
    let display = open(&mut server);
    let w = window(&mut server, &display, 0x01600009);
    assert!(matches!(w.destroy().resume(Reply::Status(2)), Task::Done(Ok(Value::Unit))));
    assert!(matches!(w.destroy().resume(Reply::Status(0)), Task::Done(Err(Error::DestroyError))));
    assert!(matches!(w.destroy().resume(Reply::Status(-1)), Task::Done(Err(Error::DestroyError))));
    assert!(matches!(w.focus().resume(Reply::Atom(1)), Task::Done(Err(Error::FocusError))));
    assert!(matches!(w.map().resume(Reply::Status(2)), Task::Done(Err(Error::MapError))));
}

#[test]
fn focusing_reverts_to_the_pointer_root_at_the_current_time() {
    let mut server = Server::new();
    let display = open(&mut server);
    let w = window(&mut server, &display, 0x01600010);
    server.calls.clear();
    assert!(matches!(run(&mut server, w.focus()), Ok(Value::Unit)));
    assert_eq!(
        server.calls,
        vec![Request::SetInputFocus {
            display: DISPLAY,
            window: 0x01600010,
            revert_to: x11::xlib::RevertToPointerRoot,
            time: x11::xlib::CurrentTime
        }]
    );
    match run(&mut server, display.focus()) {
        Ok(Value::Focus(Some(f))) => assert_eq!(f.id(), ID(0x01600010)),
        other => panic!("{:?}", other),
    }
    server.refuse = vec!["XSetInputFocus"];
    assert_eq!(error(run(&mut server, w.focus())), Error::FocusError);
}

#[test]
fn no_focus_and_the_pointer_root_are_no_window() {
    let mut server = Server::new();
    let display = open(&mut server);
    server.focus = 0;
    server.calls.clear();
    assert!(matches!(run(&mut server, display.focus()), Ok(Value::Focus(None))));
    server.focus = 1;
    assert!(matches!(run(&mut server, display.focus()), Ok(Value::Focus(None))));
    assert_eq!(server.calls.len(), 2);
    server.focus = 0x999;
    assert_eq!(error(run(&mut server, display.focus())), Error::WindowNotFound);
    server.refuse = vec!["XGetInputFocus"];
    assert_eq!(error(run(&mut server, display.focus())), Error::FocusError);
}

#[test]
fn children_are_resolved_in_their_order() {
    let mut server = Server::new();
    let display = open(&mut server);
    let root = window(&mut server, &display, ROOT);
    server.calls.clear();
    match run(&mut server, root.children()) {
        Ok(Value::Children(c)) => {
            assert_eq!(c.len(), 2);
            assert_eq!(c[0].id(), ID(0x01600009));
            assert_eq!(c[0].position(), (100, 50));
            assert_eq!(c[1].id(), ID(0x01600010));
            assert_eq!(c[1].size(), (70, 80));
        }
        other => panic!("{:?}", other),
    }
    assert_eq!(
        server.calls,
        vec![
            Request::QueryTree { display: DISPLAY, window: ROOT },
            Request::GetWindowAttributes { display: DISPLAY, window: 0x01600009 },
            Request::GetWindowAttributes { display: DISPLAY, window: 0x01600010 },
        ]
    );
}

#[test]
fn a_window_without_children_has_an_empty_list() {
    let mut server = Server::new();
    let display = open(&mut server);
    let w = window(&mut server, &display, 0x01600009);
    server.calls.clear();
    match run(&mut server, w.children()) {
        Ok(Value::Children(c)) => assert!(c.is_empty()),
        other => panic!("{:?}", other),
    }
    assert_eq!(server.calls.len(), 1);
    let task = w.children().resume(Reply::Tree { status: 1, count: 0, children: Some(vec![5]) });
    match task {
        Task::Done(Ok(Value::Children(c))) => assert!(c.is_empty()),
        other => panic!("{:?}", other),
    }
}

#[test]
fn children_that_are_counted_and_not_listed_are_an_error() {
    let mut server = Server::new();
    let display = open(&mut server);
    let root = window(&mut server, &display, ROOT);
    server.null_children = true;
    assert_eq!(error(run(&mut server, root.children())), Error::QueryError);
    server.null_children = false;
    server.refuse = vec!["XQueryTree"];
    assert_eq!(error(run(&mut server, root.children())), Error::QueryError);
}

#[test]
fn one_child_that_is_gone_fails_the_whole_list() {
    let mut server = Server::new();
    let display = open(&mut server);
    let root = window(&mut server, &display, ROOT);
    server.entry(ROOT).unwrap().children = vec![0x01600009, 0x999, 0x01600010];
    server.calls.clear();
    assert_eq!(error(run(&mut server, root.children())), Error::WindowNotFound);
    assert_eq!(server.calls.len(), 3);
}

#[test]
fn the_pointer_relative_to_a_window_and_to_the_root() {
    let mut server = Server::new();
    let display = open(&mut server);
    let w = window(&mut server, &display, 0x01600009);
    assert!(matches!(run(&mut server, w.pointer()), Ok(Value::Position(540, 430))));
    match run(&mut server, w.pointer_direct()) {
        Ok(Value::Pointer(p)) => assert_eq!(
            p,
            Pointer { pos: Point::new(640, 480), wpos: Some(Point::new(540, 430)) }
        ),
        other => panic!("{:?}", other),
    }
    match run(&mut server, display.pointer_direct(&w)) {
        Ok(Value::Pointer(p)) => assert_eq!(p.wpos, Some(Point::new(540, 430))),
        other => panic!("{:?}", other),
    }
    server.calls.clear();
    match run(&mut server, display.pointer()) {
        Ok(Value::Point(p)) => assert_eq!(p, Point::new(640, 480)),
        other => panic!("{:?}", other),
    }
    assert_eq!(
        server.calls,
        vec![
            Request::ScreenOfDisplay { display: DISPLAY, number: 0 },
            Request::GetWindowAttributes { display: DISPLAY, window: ROOT },
            Request::QueryPointer { display: DISPLAY, window: ROOT },
        ]
    );
}

#[test]
fn a_pointer_on_another_screen_has_no_place_in_the_window() {
    let mut server = Server::new();
    let display = open(&mut server);
    let w = window(&mut server, &display, 0x01600009);
    server.pointer_on_other_screen = true;
    assert_eq!(error(run(&mut server, w.pointer())), Error::NotSameScreen);
    match run(&mut server, w.pointer_direct()) {
        Ok(Value::Pointer(p)) => assert_eq!(p, Pointer { pos: Point::new(640, 480), wpos: None }),
        other => panic!("{:?}", other),
    }
    match run(&mut server, display.pointer()) {
        Ok(Value::Point(p)) => assert_eq!(p, Point::new(640, 480)),
        other => panic!("{:?}", other),
    }
    server.refuse = vec!["XQueryPointer"];
    assert_eq!(error(run(&mut server, w.pointer())), Error::PointerError);
    assert_eq!(error(run(&mut server, w.pointer_direct())), Error::PointerError);
    assert_eq!(error(run(&mut server, display.pointer())), Error::PointerError);
}

#[test]
fn the_pointer_is_warped_in_three_ways() {
    let mut server = Server::new();
    let display = open(&mut server);
    let w = window(&mut server, &display, 0x01600009);

    assert!(matches!(run(&mut server, w.warp_pointer(3, 4)), Ok(Value::Unit)));
    assert_eq!(server.pointer, (103, 54));

    assert!(matches!(
        run(&mut server, display.warp_pointer_relative(Point::new(-3, 6))),
        Ok(Value::Unit)
    ));
    assert_eq!(server.pointer, (100, 60));

    server.calls.clear();
    assert!(matches!(
        run(&mut server, display.warp_pointer_absolute(Point::new(11, 12))),
        Ok(Value::Unit)
    ));
    assert_eq!(server.pointer, (11, 12));
    assert_eq!(
        server.calls,
        vec![
            Request::ScreenOfDisplay { display: DISPLAY, number: 0 },
            Request::GetWindowAttributes { display: DISPLAY, window: ROOT },
            Request::WarpPointer { display: DISPLAY, dest: ROOT, x: 11, y: 12 },
        ]
    );

    server.refuse = vec!["XWarpPointer"];
    assert_eq!(error(run(&mut server, w.warp_pointer(0, 0))), Error::PointerError);
    assert_eq!(
        error(run(&mut server, display.warp_pointer_relative(Point::new(0, 0)))),
        Error::PointerError
    );
    assert_eq!(
        error(run(&mut server, display.warp_pointer_absolute(Point::new(0, 0)))),
        Error::PointerError
    );
}

#[test]
fn a_screen_reads_and_warps_the_pointer_on_its_root() {
    let mut server = Server::new();
    let display = open(&mut server);
    let screen = match run(&mut server, display.screen_num(0)) {
        Ok(Value::Screen(s)) => s,
        other => panic!("{:?}", other),
    };
    match run(&mut server, screen.pointer()) {
        Ok(Value::Point(p)) => assert_eq!(p, Point::new(640, 480)),
        other => panic!("{:?}", other),
    }
    assert!(matches!(run(&mut server, screen.warp_pointer(Point::new(1, 2))), Ok(Value::Unit)));
    assert_eq!(server.pointer, (1, 2));
    server.windows.retain(|e| e.id != ROOT);
    assert_eq!(error(run(&mut server, screen.pointer())), Error::WindowNotFound);
    assert_eq!(
        error(run(&mut server, screen.warp_pointer(Point::new(1, 2)))),
        Error::WindowNotFound
    );
    assert_eq!(error(run(&mut server, screen.root())), Error::WindowNotFound);
}

#[test]
fn an_atom_is_resolved_by_its_name() {
    let mut server = Server::new();
    let display = open(&mut server);
    server.calls.clear();
    match run(&mut server, display.atom("WM_NAME")) {
        Ok(Value::Atom(a)) => {
            assert_eq!(a.id(), 107);
            assert_eq!(a.name, "WM_NAME");
            assert_eq!(a.clone(), a);
        }
        other => panic!("{:?}", other),
    }
    assert_eq!(
        server.calls,
        vec![Request::InternAtom { display: DISPLAY, atom_name: "WM_NAME".to_string() }]
    );
    server.refuse = vec!["XInternAtom"];
    assert_eq!(error(run(&mut server, display.atom("WM_NAME"))), Error::AtomError);
    server.calls.clear();
    assert_eq!(error(run(&mut server, display.atom("WM\0NAME"))), Error::AtomError);
    assert!(server.calls.is_empty());
}
