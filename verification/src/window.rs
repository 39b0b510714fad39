//! Windows: their identifiers, the snapshot of their attributes, batches of
//! changes, and the operations on them.

use crate::color::Color;
use crate::display::{Display, DisplayView};
use crate::err::Error;
use crate::hex;
use crate::protocol::{
    RawAttributes, Request, CW_BORDER_PIXEL, CW_BORDER_WIDTH, CW_HEIGHT, CW_OVERRIDE_REDIRECT,
    CW_STACK_MODE, CW_WIDTH, CW_X, CW_Y, IS_UNMAPPED, IS_VIEWABLE,
};
use crate::screen::Screen;
use crate::task::{PointerUse, Task, TaskView, WindowUse};
use vstd::prelude::*;
use vstd::string::*;

verus! {

/// Where a window goes in the stack of its siblings.
#[derive(Copy, Clone, Debug, PartialEq, Eq, Structural)]
pub enum StackMode {
    /// To the top.
    Above,
    /// To the bottom.
    Below,
    /// To the top if a sibling covers it, else to the bottom if it covers a
    /// sibling.
    Opposite,
}

impl StackMode {
    /// The number that stands for the mode in the X protocol.
    pub open spec fn spec_code(self) -> i32 {
        match self {
            StackMode::Above => 0,
            StackMode::Below => 1,
            StackMode::Opposite => 4,
        }
    }

    /// The number that stands for the mode in the X protocol.
    pub fn code(&self) -> (c: i32)
        ensures
            c == self.spec_code(),
    {
        match self {
            StackMode::Above => 0,
            StackMode::Below => 1,
            StackMode::Opposite => 4,
        }
    }
}

/// A batch of changes to a window, as a mathematical record: the values, and
/// the two masks that say which of them are set. A value whose bit is not in
/// its mask is not part of the batch.
pub struct ChangesView {
    pub x: i32,
    pub y: i32,
    pub width: i32,
    pub height: i32,
    pub border_width: i32,
    pub stack_mode: i32,
    pub border_pixel: u64,
    pub override_redirect: i32,
    /// Which values of the geometry and the stacking are set: bits of
    /// [`CW_X`], [`CW_Y`], [`CW_WIDTH`], [`CW_HEIGHT`], [`CW_BORDER_WIDTH`]
    /// and [`CW_STACK_MODE`].
    pub cmask: u16,
    /// Which attributes are set: bits of [`CW_BORDER_PIXEL`] and
    /// [`CW_OVERRIDE_REDIRECT`].
    pub amask: u64,
}

impl ChangesView {
    /// The batch in which nothing is set.
    pub open spec fn empty() -> ChangesView {
        ChangesView {
            x: 0,
            y: 0,
            width: 0,
            height: 0,
            border_width: 0,
            stack_mode: 0,
            border_pixel: 0,
            override_redirect: 0,
            cmask: 0,
            amask: 0,
        }
    }

    /// The call that hands the attributes of the batch to the window
    /// `window` of `display`.
    pub open spec fn attributes_request(self, display: usize, window: u64) -> Request {
        Request::ChangeWindowAttributes {
            display,
            window,
            mask: self.amask,
            border_pixel: self.border_pixel,
            override_redirect: self.override_redirect,
        }
    }

    /// The call that hands the geometry and the stacking of the batch to the
    /// window `window` of `display`.
    pub open spec fn configure_request(self, display: usize, window: u64) -> Request {
        Request::ConfigureWindow {
            display,
            window,
            value_mask: self.cmask as u32,
            x: self.x,
            y: self.y,
            width: self.width,
            height: self.height,
            border_width: self.border_width,
            stack_mode: self.stack_mode,
        }
    }

    /// The attributes that the window has once a server has granted the
    /// whole batch to a window with the attributes `before`, and nothing else
    /// has touched the window: each value that is set replaces the one
    /// before, every other attribute stays. The border pixel and the stack
    /// mode are no part of the attributes.
    pub open spec fn granted(self, before: RawAttributes) -> RawAttributes {
        RawAttributes {
            x: if self.cmask & CW_X != 0 {
                self.x
            } else {
                before.x
            },
            y: if self.cmask & CW_Y != 0 {
                self.y
            } else {
                before.y
            },
            width: if self.cmask & CW_WIDTH != 0 {
                self.width
            } else {
                before.width
            },
            height: if self.cmask & CW_HEIGHT != 0 {
                self.height
            } else {
                before.height
            },
            border_width: if self.cmask & CW_BORDER_WIDTH != 0 {
                self.border_width
            } else {
                before.border_width
            },
            override_redirect: if self.amask & CW_OVERRIDE_REDIRECT != 0 {
                self.override_redirect
            } else {
                before.override_redirect
            },
            ..before
        }
    }
}

/// A batch of changes to a window: it is made empty, filled by the setters,
/// and applied in one go by [`Window::change`].
#[derive(Copy, Clone, Debug)]
pub struct Changes {
    x: i32,
    y: i32,
    width: i32,
    height: i32,
    border_width: i32,
    stack_mode: i32,
    border_pixel: u64,
    override_redirect: i32,
    cmask: u16,
    amask: u64,
}

impl View for Changes {
    type V = ChangesView;

    closed spec fn view(&self) -> ChangesView {
        ChangesView {
            x: self.x,
            y: self.y,
            width: self.width,
            height: self.height,
            border_width: self.border_width,
            stack_mode: self.stack_mode,
            border_pixel: self.border_pixel,
            override_redirect: self.override_redirect,
            cmask: self.cmask,
            amask: self.amask,
        }
    }
}

impl Changes {
    /// The empty batch.
    pub fn new() -> (c: Changes)
        ensures
            c@ == ChangesView::empty(),
    {
        Changes {
            x: 0,
            y: 0,
            width: 0,
            height: 0,
            border_width: 0,
            stack_mode: 0,
            border_pixel: 0,
            override_redirect: 0,
            cmask: 0,
            amask: 0,
        }
    }

    /// Empties the batch.
    pub fn reset(&mut self)
        ensures
            final(self)@ == ChangesView::empty(),
    {
        self.x = 0;
        self.y = 0;
        self.width = 0;
        self.height = 0;
        self.border_width = 0;
        self.stack_mode = 0;
        self.border_pixel = 0;
        self.override_redirect = 0;
        self.cmask = 0;
        self.amask = 0;
    }

    /// Sets the horizontal position.
    pub fn x(&mut self, x: i32)
        ensures
            final(self)@ == (ChangesView { x, cmask: old(self)@.cmask | CW_X, ..old(self)@ }),
    {
        self.x = x;
        self.cmask = self.cmask | CW_X;
    }

    /// Sets the vertical position.
    pub fn y(&mut self, y: i32)
        ensures
            final(self)@ == (ChangesView { y, cmask: old(self)@.cmask | CW_Y, ..old(self)@ }),
    {
        self.y = y;
        self.cmask = self.cmask | CW_Y;
    }

    /// Sets the width.
    pub fn width(&mut self, width: i32)
        ensures
            final(self)@ == (ChangesView {
                width,
                cmask: old(self)@.cmask | CW_WIDTH,
                ..old(self)@
            }),
    {
        self.width = width;
        self.cmask = self.cmask | CW_WIDTH;
    }

    /// Sets the height.
    pub fn height(&mut self, height: i32)
        ensures
            final(self)@ == (ChangesView {
                height,
                cmask: old(self)@.cmask | CW_HEIGHT,
                ..old(self)@
            }),
    {
        self.height = height;
        self.cmask = self.cmask | CW_HEIGHT;
    }

    /// Sets the width of the border.
    pub fn border_width(&mut self, border_width: i32)
        ensures
            final(self)@ == (ChangesView {
                border_width,
                cmask: old(self)@.cmask | CW_BORDER_WIDTH,
                ..old(self)@
            }),
    {
        self.border_width = border_width;
        self.cmask = self.cmask | CW_BORDER_WIDTH;
    }

    /// Sets the place in the stack.
    pub fn stack(&mut self, stack: StackMode)
        ensures
            final(self)@ == (ChangesView {
                stack_mode: stack.spec_code(),
                cmask: old(self)@.cmask | CW_STACK_MODE,
                ..old(self)@
            }),
    {
        self.stack_mode = stack.code();
        self.cmask = self.cmask | CW_STACK_MODE;
    }

    /// Sets the colour of the border: its pixel is the packed colour.
    pub fn border_color(&mut self, border_color: Color)
        ensures
            final(self)@ == (ChangesView {
                border_pixel: border_color.spec_pack() as u64,
                amask: old(self)@.amask | CW_BORDER_PIXEL,
                ..old(self)@
            }),
    {
        let c: i32 = border_color.pack();
        self.border_pixel = c as u64;
        self.amask = self.amask | CW_BORDER_PIXEL;
    }

    /// Sets whether window managers are to leave the window alone: the
    /// override-redirect flag is 1 for `true` and 0 for `false`.
    pub fn ignore(&mut self, ignore: bool)
        ensures
            final(self)@ == (ChangesView {
                override_redirect: if ignore {
                    1i32
                } else {
                    0i32
                },
                amask: old(self)@.amask | CW_OVERRIDE_REDIRECT,
                ..old(self)@
            }),
    {
        self.override_redirect = if ignore {
            1
        } else {
            0
        };
        self.amask = self.amask | CW_OVERRIDE_REDIRECT;
    }

    /// The call that hands the attributes of the batch to the window
    /// `window` of `display`.
    pub fn attributes_request(&self, display: usize, window: u64) -> (r: Request)
        ensures
            r == self@.attributes_request(display, window),
    {
        Request::ChangeWindowAttributes {
            display,
            window,
            mask: self.amask,
            border_pixel: self.border_pixel,
            override_redirect: self.override_redirect,
        }
    }

    /// The call that hands the geometry and the stacking of the batch to the
    /// window `window` of `display`.
    pub fn configure_request(&self, display: usize, window: u64) -> (r: Request)
        ensures
            r == self@.configure_request(display, window),
    {
        Request::ConfigureWindow {
            display,
            window,
            value_mask: self.cmask as u32,
            x: self.x,
            y: self.y,
            width: self.width,
            height: self.height,
            border_width: self.border_width,
            stack_mode: self.stack_mode,
        }
    }

    /// The attributes that the window has once a server has granted the
    /// batch to a window with the attributes `before`: see
    /// [`ChangesView::granted`].
    pub fn granted(&self, before: &RawAttributes) -> (after: RawAttributes)
        ensures
            after == self@.granted(*before),
    {
        RawAttributes {
            x: if self.cmask & CW_X != 0 {
                self.x
            } else {
                before.x
            },
            y: if self.cmask & CW_Y != 0 {
                self.y
            } else {
                before.y
            },
            width: if self.cmask & CW_WIDTH != 0 {
                self.width
            } else {
                before.width
            },
            height: if self.cmask & CW_HEIGHT != 0 {
                self.height
            } else {
                before.height
            },
            border_width: if self.cmask & CW_BORDER_WIDTH != 0 {
                self.border_width
            } else {
                before.border_width
            },
            map_state: before.map_state,
            override_redirect: if self.amask & CW_OVERRIDE_REDIRECT != 0 {
                self.override_redirect
            } else {
                before.override_redirect
            },
            root: before.root,
            screen: before.screen,
        }
    }
}

/// The identifier of a window: 64 bits that only the server can read.
#[derive(Copy, Clone, Debug, PartialEq, Eq, Structural)]
pub struct ID(pub u64);

impl ID {
    /// Whether `s` is an identifier as text: `0x` and at least one
    /// hexadecimal digit, denoting a number of 64 bits.
    pub open spec fn is_text(s: Seq<char>) -> bool {
        &&& s.len() >= 3
        &&& s[0] == '0'
        &&& s[1] == 'x'
        &&& hex::readable(s, 2)
    }

    /// The identifier as text: `0x` and sixteen hexadecimal digits in lower
    /// case.
    pub open spec fn spec_text(self) -> Seq<char> {
        seq!['0', 'x'] + hex::text(self.0 as nat, 16)
    }

    /// Reads an identifier from text: `0x` and hexadecimal digits, of either
    /// case.
    ///
    /// Any other text is refused with [`Error::ParseError`]: text without the
    /// prefix or without a digit after it, a decimal number, a sign, a
    /// character that is no hexadecimal digit, or a number above 64 bits.
    pub fn from_str(s: &str) -> (r: Result<ID, Error>)
        ensures
            r is Ok <==> ID::is_text(s@),
            r is Ok ==> r->Ok_0.0 as nat == hex::number(s@.subrange(2, s@.len() as int)),
            r is Err ==> r->Err_0 == Error::ParseError,
    {
        if s.unicode_len() < 3 {
            return Err(Error::ParseError);
        }
        if s.get_char(0) != '0' || s.get_char(1) != 'x' {
            return Err(Error::ParseError);
        }
        match hex::read(s, 2) {
            Some(v) => Ok(ID(v)),
            None => Err(Error::ParseError),
        }
    }

    /// The identifier as text, of a fixed width: `0x` and sixteen
    /// hexadecimal digits in lower case.
    pub fn to_string(&self) -> (s: String)
        ensures
            s@ == self.spec_text(),
    {
        let mut s = String::from_str("0x");
        proof {
            reveal_strlit("0x");
            assert(s@ =~= seq!['0', 'x']);
        }
        hex::write(&mut s, self.0, 16);
        s
    }
}

impl std::str::FromStr for ID {
    type Err = Error;

    /// Reads an identifier from text, as [`ID::from_str`] does.
    fn from_str(s: &str) -> (r: Result<ID, Error>)
        ensures
            r is Ok <==> ID::is_text(s@),
            r is Ok ==> r->Ok_0.0 as nat == hex::number(s@.subrange(2, s@.len() as int)),
            r is Err ==> r->Err_0 == Error::ParseError,
    {
        ID::from_str(s)
    }
}

impl From<u64> for ID {
    fn from(u: u64) -> (id: ID) {
        ID(u)
    }
}

impl vstd::std_specs::convert::FromSpecImpl<u64> for ID {
    open spec fn obeys_from_spec() -> bool {
        true
    }

    open spec fn from_spec(u: u64) -> ID {
        ID(u)
    }
}

impl From<ID> for u64 {
    fn from(id: ID) -> (u: u64) {
        id.0
    }
}

impl vstd::std_specs::convert::FromSpecImpl<ID> for u64 {
    open spec fn obeys_from_spec() -> bool {
        true
    }

    open spec fn from_spec(id: ID) -> u64 {
        id.0
    }
}

/// An identifier written as text reads back as itself.
pub proof fn lemma_id_reads_back(id: ID)
    ensures
        ID::is_text(id.spec_text()),
        hex::number(id.spec_text().subrange(2, id.spec_text().len() as int)) == id.0,
{
    let t = id.spec_text();
    let digits = hex::text(id.0 as nat, 16);
    hex::lemma_text_shape(id.0 as nat, 16);
    hex::lemma_number_of_text(id.0 as nat, 16);
    hex::lemma_pow16_values();
    assert(t.subrange(2, t.len() as int) =~= digits);
    assert forall|i: int| 0 <= i < digits.len() implies (#[trigger] hex::digit_value(
        digits[i],
    )) is Some by {
        assert(hex::is_lower_digit(digits[i]));
    }
}

/// Text of the fixed width, `0x` and sixteen hexadecimal digits in lower
/// case, is an identifier, and the identifier that it reads as is written as
/// the same text.
pub proof fn lemma_text_round_trip(s: Seq<char>)
    requires
        s.len() == 18,
        s[0] == '0',
        s[1] == 'x',
        hex::is_lower_digits(s.subrange(2, 18)),
    ensures
        ID::is_text(s),
        ID(hex::number(s.subrange(2, 18)) as u64).spec_text() == s,
{
    let digits = s.subrange(2, 18);
    hex::lemma_number_bound(digits);
    hex::lemma_text_of_number(digits);
    hex::lemma_pow16_values();
    assert forall|i: int| 0 <= i < digits.len() implies (#[trigger] hex::digit_value(
        digits[i],
    )) is Some by {
        assert(hex::is_lower_digit(digits[i]));
    }
    assert(seq!['0', 'x'] + digits =~= s);
}

/// A window, as a mathematical record.
pub struct WindowView {
    /// The identifier of the window.
    pub id: ID,
    /// The connection that the window was resolved on.
    pub display: DisplayView,
    /// The attributes of the window as they were when last read.
    pub attrs: RawAttributes,
}

/// A window of the server, with a snapshot of its attributes.
///
/// The snapshot is read when the window is resolved. It is as old as that:
/// an operation that changes the window gives a new `Window` with a new
/// snapshot, and leaves this one as it was.
#[derive(Debug)]
pub struct Window<'d> {
    w: ID,
    d: &'d Display,
    attrs: RawAttributes,
}

impl<'d> View for Window<'d> {
    type V = WindowView;

    closed spec fn view(&self) -> WindowView {
        WindowView { id: self.w, display: self.d@, attrs: self.attrs }
    }
}

impl WindowView {
    /// The task that applies the batch of changes `batch` to the window, at
    /// its first step, which hands over the attributes of the batch.
    pub open spec fn change(self, batch: ChangesView) -> TaskView {
        TaskView::ChangingAttributes { display: self.display, id: self.id, changes: batch }
    }

    /// The window after a server has granted `batch` and the snapshot has
    /// been read anew.
    pub open spec fn granted(self, batch: ChangesView) -> WindowView {
        WindowView { attrs: batch.granted(self.attrs), ..self }
    }

    /// The batch of [`Window::reposition_absolute`].
    pub open spec fn reposition_absolute(self, x: i32, y: i32) -> ChangesView {
        ChangesView { x, y, cmask: CW_X | CW_Y, ..ChangesView::empty() }
    }

    /// The batch of [`Window::reposition_relative`].
    pub open spec fn reposition_relative(self, x: i32, y: i32) -> ChangesView {
        self.reposition_absolute((self.attrs.x + x) as i32, (self.attrs.y + y) as i32)
    }

    /// The batch of [`Window::resize_absolute`].
    pub open spec fn resize_absolute(self, w: i32, h: i32) -> ChangesView {
        ChangesView { width: w, height: h, cmask: CW_WIDTH | CW_HEIGHT, ..ChangesView::empty() }
    }

    /// The batch of [`Window::resize_relative`].
    pub open spec fn resize_relative(self, w: i32, h: i32) -> ChangesView {
        self.resize_absolute((self.attrs.width + w) as i32, (self.attrs.height + h) as i32)
    }
}

impl<'d> Window<'d> {
    /// Resolves the window `id` of the display `d`: the task reads the
    /// attributes of the window, and gives the window where there is one.
    pub fn new(d: &'d Display, id: ID) -> (task: Task<'d>)
        ensures
            task@ == (TaskView::LookingUp { display: d@, id, then: WindowUse::Give }),
    {
        Task::LookingUp { display: d, id, then: WindowUse::Give }
    }

    /// The window `id` of `d` with the attributes `attrs`, as they were just
    /// read.
    pub(crate) fn from_attributes(d: &'d Display, id: ID, attrs: RawAttributes) -> (w: Window<
        'd,
    >)
        ensures
            w@ == (WindowView { id, display: d@, attrs }),
    {
        Window { w: id, d, attrs }
    }

    /// Reads the attributes anew. The task gives the window with the new
    /// snapshot, or fails with [`Error::WindowNotFound`].
    pub fn update(&self) -> (task: Task<'d>)
        ensures
            task@ == (TaskView::LookingUp {
                display: self@.display,
                id: self@.id,
                then: WindowUse::Give,
            }),
    {
        Task::LookingUp { display: self.d, id: self.w, then: WindowUse::Give }
    }

    /// Moves the window to the place (`x`, `y`) of its parent.
    pub fn reposition_absolute(&self, x: i32, y: i32) -> (task: Task<'d>)
        ensures
            task@ == self@.change(self@.reposition_absolute(x, y)),
    {
        let mut c = Changes::new();
        c.x(x);
        c.y(y);
        proof {
            lemma_masks();
        }
        self.change(&c)
    }

    /// Moves the window by `x` pixels to the right and `y` pixels down from
    /// where the snapshot has it.
    pub fn reposition_relative(&self, x: i32, y: i32) -> (task: Task<'d>)
        requires
            i32::MIN <= self@.attrs.x + x <= i32::MAX,
            i32::MIN <= self@.attrs.y + y <= i32::MAX,
        ensures
            task@ == self@.change(self@.reposition_relative(x, y)),
    {
        let mut c = Changes::new();
        c.x(self.x() + x);
        c.y(self.y() + y);
        proof {
            lemma_masks();
        }
        self.change(&c)
    }

    /// Gives the window the width `w` and the height `h`.
    pub fn resize_absolute(&self, w: i32, h: i32) -> (task: Task<'d>)
        ensures
            task@ == self@.change(self@.resize_absolute(w, h)),
    {
        let mut c = Changes::new();
        c.width(w);
        c.height(h);
        proof {
            lemma_masks();
        }
        self.change(&c)
    }

    /// Makes the window `w` pixels wider and `h` pixels higher than the
    /// snapshot has it.
    pub fn resize_relative(&self, w: i32, h: i32) -> (task: Task<'d>)
        requires
            i32::MIN <= self@.attrs.width + w <= i32::MAX,
            i32::MIN <= self@.attrs.height + h <= i32::MAX,
        ensures
            task@ == self@.change(self@.resize_relative(w, h)),
    {
        let mut c = Changes::new();
        c.width(self.width() + w);
        c.height(self.height() + h);
        proof {
            lemma_masks();
        }
        self.change(&c)
    }

    /// Gives the border of the window the width `b`.
    pub fn border_resize(&self, b: i32) -> (task: Task<'d>)
        ensures
            task@ == self@.change(
                ChangesView { border_width: b, cmask: CW_BORDER_WIDTH, ..ChangesView::empty() },
            ),
    {
        let mut c = Changes::new();
        c.border_width(b);
        proof {
            lemma_masks();
        }
        self.change(&c)
    }

    /// Moves the window in the stack of its siblings as `m` says.
    pub fn restack(&self, m: StackMode) -> (task: Task<'d>)
        ensures
            task@ == self@.change(
                ChangesView {
                    stack_mode: m.spec_code(),
                    cmask: CW_STACK_MODE,
                    ..ChangesView::empty()
                },
            ),
    {
        let mut c = Changes::new();
        c.stack(m);
        proof {
            lemma_masks();
        }
        self.change(&c)
    }

    /// Gives the border of the window the colour `color`.
    pub fn border_recolor(&self, color: Color) -> (task: Task<'d>)
        ensures
            task@ == self@.change(
                ChangesView {
                    border_pixel: color.spec_pack() as u64,
                    amask: CW_BORDER_PIXEL,
                    ..ChangesView::empty()
                },
            ),
    {
        let mut c = Changes::new();
        c.border_color(color);
        proof {
            lemma_masks();
        }
        self.change(&c)
    }

    /// Sets or clears the override-redirect flag of the window.
    pub fn ignore(&self, ignore: bool) -> (task: Task<'d>)
        ensures
            task@ == self@.change(
                ChangesView {
                    override_redirect: if ignore {
                        1i32
                    } else {
                        0i32
                    },
                    amask: CW_OVERRIDE_REDIRECT,
                    ..ChangesView::empty()
                },
            ),
    {
        let mut c = Changes::new();
        c.ignore(ignore);
        proof {
            lemma_masks();
        }
        self.change(&c)
    }

    /// Maps the window, and reads its attributes anew.
    pub fn map(&self) -> (task: Task<'d>)
        ensures
            task@ == (TaskView::Mapping { display: self@.display, id: self@.id }),
    {
        Task::Mapping { display: self.d, id: self.w }
    }

    /// Unmaps the window, and reads its attributes anew.
    pub fn unmap(&self) -> (task: Task<'d>)
        ensures
            task@ == (TaskView::Unmapping { display: self@.display, id: self@.id }),
    {
        Task::Unmapping { display: self.d, id: self.w }
    }

    /// Applies the batch `c` to the window.
    ///
    /// The task makes up to three calls, each only after the one before has
    /// succeeded: it hands over the attributes of the batch, then its
    /// geometry and stacking, and then reads the attributes of the window
    /// anew. Both of the first two calls are made whatever the batch holds.
    /// What a call has changed stays changed when a later one fails.
    pub fn change(&self, c: &Changes) -> (task: Task<'d>)
        ensures
            task@ == self@.change(c@),
    {
        Task::ChangingAttributes { display: self.d, id: self.w, changes: *c }
    }

    /// Destroys the window. Once the task has succeeded, the window is gone:
    /// nothing more is to be asked of it.
    pub fn destroy(&self) -> (task: Task<'d>)
        ensures
            task@ == (TaskView::Destroying { display: self@.display, id: self@.id }),
    {
        Task::Destroying { display: self.d, id: self.w }
    }

    /// Destroys the window and closes the connection of the client that
    /// made it. Once the task has succeeded, the window is gone: nothing more
    /// is to be asked of it.
    pub fn kill(&self) -> (task: Task<'d>)
        ensures
            task@ == (TaskView::Killing { display: self@.display, id: self@.id }),
    {
        Task::Killing { display: self.d, id: self.w }
    }

    /// Gives the window the input focus. The focus goes back to the root
    /// window of the pointer's screen when the window is no longer viewable,
    /// and changes at the server's current time.
    pub fn focus(&self) -> (task: Task<'d>)
        ensures
            task@ == (TaskView::Focusing { display: self@.display, id: self@.id }),
    {
        Task::Focusing { display: self.d, id: self.w }
    }

    /// Resolves the children of the window, bottom-most first.
    pub fn children(&self) -> (task: Task<'d>)
        ensures
            task@ == (TaskView::ReadingTree { display: self@.display, id: self@.id }),
    {
        Task::ReadingTree { display: self.d, id: self.w }
    }

    /// The screen that the window is on, as the snapshot records it; `None`
    /// where the snapshot records no screen.
    pub fn screen(&self) -> (s: Option<Screen<'d>>)
        ensures
            s is Some <==> self@.attrs.screen.handle != 0,
            s is Some ==> s->0@ == (crate::screen::ScreenView {
                display: self@.display,
                raw: self@.attrs.screen,
            }),
    {
        if self.attrs.screen.handle != 0 {
            Some(Screen::new_unchecked(self.d, self.attrs.screen))
        } else {
            None
        }
    }

    /// Reads where the pointer is: relative to the root window that it is
    /// on, and relative to this window where both are on one screen.
    pub fn pointer_direct(&self) -> (task: Task<'d>)
        ensures
            task@ == (TaskView::ReadingPointer {
                display: self@.display,
                id: self@.id,
                want: PointerUse::Direct,
            }),
    {
        Task::ReadingPointer { display: self.d, id: self.w, want: PointerUse::Direct }
    }

    /// Reads where the pointer is relative to this window. The task fails
    /// with [`Error::NotSameScreen`] where the pointer is on another screen.
    pub fn pointer(&self) -> (task: Task<'d>)
        ensures
            task@ == (TaskView::ReadingPointer {
                display: self@.display,
                id: self@.id,
                want: PointerUse::Relative,
            }),
    {
        Task::ReadingPointer { display: self.d, id: self.w, want: PointerUse::Relative }
    }

    /// Moves the pointer to the place (`x`, `y`) of this window.
    pub fn warp_pointer(&self, x: i32, y: i32) -> (task: Task<'d>)
        ensures
            task@ == (TaskView::Warping { display: self@.display, dest: self@.id.0, x, y }),
    {
        Task::Warping { display: self.d, dest: self.w.0, x, y }
    }

    /// Asks whether the window still exists: the task reads its attributes
    /// and gives whether the call succeeded. It never fails.
    pub fn still_exists(&self) -> (task: Task<'d>)
        ensures
            task@ == (TaskView::LookingUp {
                display: self@.display,
                id: self@.id,
                then: WindowUse::Exists,
            }),
    {
        Task::LookingUp { display: self.d, id: self.w, then: WindowUse::Exists }
    }

    pub fn id(&self) -> (id: ID)
        ensures
            id == self@.id,
    {
        self.w
    }

    /// The connection that the window was resolved on.
    pub fn display(&self) -> (d: &'d Display)
        ensures
            d@ == self@.display,
    {
        self.d
    }

    pub fn x(&self) -> (x: i32)
        ensures
            x == self@.attrs.x,
    {
        self.attrs.x
    }

    pub fn y(&self) -> (y: i32)
        ensures
            y == self@.attrs.y,
    {
        self.attrs.y
    }

    pub fn width(&self) -> (w: i32)
        ensures
            w == self@.attrs.width,
    {
        self.attrs.width
    }

    pub fn height(&self) -> (h: i32)
        ensures
            h == self@.attrs.height,
    {
        self.attrs.height
    }

    pub fn position(&self) -> (p: (i32, i32))
        ensures
            p == (self@.attrs.x, self@.attrs.y),
    {
        (self.x(), self.y())
    }

    pub fn size(&self) -> (s: (i32, i32))
        ensures
            s == (self@.attrs.width, self@.attrs.height),
    {
        (self.width(), self.height())
    }

    pub fn border_width(&self) -> (b: i32)
        ensures
            b == self@.attrs.border_width,
    {
        self.attrs.border_width
    }

    /// Whether window managers are to leave the window alone.
    pub fn ignored(&self) -> (b: bool)
        ensures
            b == (self@.attrs.override_redirect == 1),
    {
        self.attrs.override_redirect == 1
    }

    /// Whether the window is mapped, as all its ancestors are.
    pub fn visible(&self) -> (b: bool)
        ensures
            b == (self@.attrs.map_state == IS_VIEWABLE),
    {
        self.attrs.map_state == IS_VIEWABLE
    }

    /// Whether the window is mapped.
    pub fn mapped(&self) -> (b: bool)
        ensures
            b == (self@.attrs.map_state != IS_UNMAPPED),
    {
        self.attrs.map_state != IS_UNMAPPED
    }
}

/// How the bits of the masks combine: setting one bit, or two, in an empty
/// mask gives that bit, or both, and no bit of another value.
proof fn lemma_masks()
    ensures
        0u16 | CW_X == CW_X,
        0u16 | CW_WIDTH == CW_WIDTH,
        0u16 | CW_BORDER_WIDTH == CW_BORDER_WIDTH,
        0u16 | CW_STACK_MODE == CW_STACK_MODE,
        0u64 | CW_BORDER_PIXEL == CW_BORDER_PIXEL,
        0u64 | CW_OVERRIDE_REDIRECT == CW_OVERRIDE_REDIRECT,
        (CW_X | CW_Y) & CW_X != 0,
        (CW_X | CW_Y) & CW_Y != 0,
        (CW_X | CW_Y) & CW_WIDTH == 0,
        (CW_X | CW_Y) & CW_HEIGHT == 0,
        (CW_X | CW_Y) & CW_BORDER_WIDTH == 0,
        (CW_X | CW_Y) & CW_STACK_MODE == 0,
        (CW_WIDTH | CW_HEIGHT) & CW_X == 0,
        (CW_WIDTH | CW_HEIGHT) & CW_Y == 0,
        (CW_WIDTH | CW_HEIGHT) & CW_WIDTH != 0,
        (CW_WIDTH | CW_HEIGHT) & CW_HEIGHT != 0,
        (CW_WIDTH | CW_HEIGHT) & CW_BORDER_WIDTH == 0,
        0u64 & CW_OVERRIDE_REDIRECT == 0,
{
    assert(0u16 | 0x1 == 0x1 && 0u16 | 0x4 == 0x4 && 0u16 | 0x10 == 0x10 && 0u16 | 0x40 == 0x40)
        by (bit_vector);
    assert(0u64 | 0x8 == 0x8 && 0u64 | 0x200 == 0x200 && 0u64 & 0x200 == 0) by (bit_vector);
    assert((0x1u16 | 0x2) & 0x1 != 0 && (0x1u16 | 0x2) & 0x2 != 0 && (0x1u16 | 0x2) & 0x4 == 0 && (
    0x1u16 | 0x2) & 0x8 == 0 && (0x1u16 | 0x2) & 0x10 == 0 && (0x1u16 | 0x2) & 0x40 == 0)
        by (bit_vector);
    assert((0x4u16 | 0x8) & 0x1 == 0 && (0x4u16 | 0x8) & 0x2 == 0 && (0x4u16 | 0x8) & 0x4 != 0 && (
    0x4u16 | 0x8) & 0x8 != 0 && (0x4u16 | 0x8) & 0x10 == 0) by (bit_vector);
}

/// Setting the bit of one value in a mask sets that bit and changes the bit
/// of no other value.
proof fn lemma_bits(m: u16, a: u64)
    by (bit_vector)
    ensures
        (m | 0x01) & 0x01 != 0,
        (m | 0x02) & 0x02 != 0,
        (m | 0x04) & 0x04 != 0,
        (m | 0x08) & 0x08 != 0,
        (m | 0x10) & 0x10 != 0,
        (m | 0x01) & 0x02 == m & 0x02,
        (m | 0x01) & 0x04 == m & 0x04,
        (m | 0x01) & 0x08 == m & 0x08,
        (m | 0x01) & 0x10 == m & 0x10,
        (m | 0x02) & 0x01 == m & 0x01,
        (m | 0x02) & 0x04 == m & 0x04,
        (m | 0x02) & 0x08 == m & 0x08,
        (m | 0x02) & 0x10 == m & 0x10,
        (m | 0x04) & 0x01 == m & 0x01,
        (m | 0x04) & 0x02 == m & 0x02,
        (m | 0x04) & 0x08 == m & 0x08,
        (m | 0x04) & 0x10 == m & 0x10,
        (m | 0x08) & 0x01 == m & 0x01,
        (m | 0x08) & 0x02 == m & 0x02,
        (m | 0x08) & 0x04 == m & 0x04,
        (m | 0x08) & 0x10 == m & 0x10,
        (m | 0x10) & 0x01 == m & 0x01,
        (m | 0x10) & 0x02 == m & 0x02,
        (m | 0x10) & 0x04 == m & 0x04,
        (m | 0x10) & 0x08 == m & 0x08,
        (m | 0x40) & 0x01 == m & 0x01,
        (m | 0x40) & 0x02 == m & 0x02,
        (m | 0x40) & 0x04 == m & 0x04,
        (m | 0x40) & 0x08 == m & 0x08,
        (m | 0x40) & 0x10 == m & 0x10,
        (a | 0x200) & 0x200 != 0,
        (a | 0x008) & 0x200 == a & 0x200,
{
}

/// Each setter changes what it sets and nothing else: once a server has
/// granted the batch, the window has the value that was set last, and in
/// every other attribute what the batch would have given without that
/// setter. The stack mode and the colour of the border show in no
/// attribute.
pub proof fn lemma_setters_are_independent(
    batch: ChangesView,
    before: RawAttributes,
    value: i32,
    pixel: u64,
)
    ensures
        (ChangesView { x: value, cmask: batch.cmask | CW_X, ..batch }).granted(before) == (
        RawAttributes { x: value, ..batch.granted(before) }),
        (ChangesView { y: value, cmask: batch.cmask | CW_Y, ..batch }).granted(before) == (
        RawAttributes { y: value, ..batch.granted(before) }),
        (ChangesView { width: value, cmask: batch.cmask | CW_WIDTH, ..batch }).granted(before) == (
        RawAttributes { width: value, ..batch.granted(before) }),
        (ChangesView { height: value, cmask: batch.cmask | CW_HEIGHT, ..batch }).granted(before)
            == (RawAttributes { height: value, ..batch.granted(before) }),
        (ChangesView { border_width: value, cmask: batch.cmask | CW_BORDER_WIDTH, ..batch }).granted(
            before,
        ) == (RawAttributes { border_width: value, ..batch.granted(before) }),
        (ChangesView { stack_mode: value, cmask: batch.cmask | CW_STACK_MODE, ..batch }).granted(
            before,
        ) == batch.granted(before),
        (ChangesView {
            override_redirect: value,
            amask: batch.amask | CW_OVERRIDE_REDIRECT,
            ..batch
        }).granted(before) == (RawAttributes { override_redirect: value, ..batch.granted(before) }),
        (ChangesView { border_pixel: pixel, amask: batch.amask | CW_BORDER_PIXEL, ..batch }).granted(
            before,
        ) == batch.granted(before),
{
    lemma_bits(batch.cmask, batch.amask);
}

/// A batch in which only the position is set leaves the size of the window
/// and the width of its border as they are: a window that is moved, and
/// touched by nothing else, has the width, the height and the border width
/// that it had, and the position that was asked for.
pub proof fn lemma_position_leaves_size(batch: ChangesView, before: RawAttributes)
    requires
        batch.cmask == CW_X | CW_Y,
        batch.amask == 0,
    ensures
        batch.granted(before).width == before.width,
        batch.granted(before).height == before.height,
        batch.granted(before).border_width == before.border_width,
        batch.granted(before) == (RawAttributes { x: batch.x, y: batch.y, ..before }),
{
    lemma_masks();
}

/// Resizing a window relatively by (`a`, `b`) and then by (`c`, `d`) leaves
/// it as resizing it once by (`a + c`, `b + d`) does, where the server grants
/// each request, nothing else touches the window, and each sum is a size of
/// 32 bits.
pub proof fn lemma_resize_relative_composes(w: WindowView, a: i32, b: i32, c: i32, d: i32)
    requires
        i32::MIN <= w.attrs.width + a <= i32::MAX,
        i32::MIN <= w.attrs.height + b <= i32::MAX,
        i32::MIN <= w.attrs.width + a + c <= i32::MAX,
        i32::MIN <= w.attrs.height + b + d <= i32::MAX,
        i32::MIN <= a + c <= i32::MAX,
        i32::MIN <= b + d <= i32::MAX,
    ensures
        ({
            let once = w.granted(w.resize_relative(a, b));
            let twice = once.granted(once.resize_relative(c, d));
            twice == w.granted(w.resize_relative((a + c) as i32, (b + d) as i32))
        }),
{
    lemma_masks();
}

/// Moving a window to a place and then giving it a size leaves it at that
/// place with that size, where the server grants each request and nothing
/// else touches the window.
pub proof fn lemma_move_then_resize(w: WindowView, x: i32, y: i32, width: i32, height: i32)
    ensures
        ({
            let moved = w.granted(w.reposition_absolute(x, y));
            let sized = moved.granted(moved.resize_absolute(width, height));
            sized == (WindowView {
                attrs: RawAttributes { x, y, width, height, ..w.attrs },
                ..w
            })
        }),
{
    lemma_masks();
}

} // verus!
