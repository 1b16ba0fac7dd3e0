//! The launcher window's gizmo logic: the layout cursor, the focus
//! machine, and button click resolution. The host draws the cards and
//! text and polls the mouse; every decision about focus, clicks and
//! layout is verified here.

use vstd::prelude::*;
use crate::math::Vec2;

verus! {

/// How many gizmos one frame may lay out.
pub const GIZMO_COUNT: i32 = 64;

/// A button's width in fixed-point screen units.
pub const BUTTON_WIDTH: i64 = 160 * 65536;

/// A button's height in fixed-point screen units.
pub const BUTTON_HEIGHT: i64 = 32 * 65536;

/// The vertical gap the cursor advances past a button.
pub const BUTTON_SHIFT: i64 = 8 * 65536;

/// The mouse facts one gizmo step reads: the cursor position in
/// fixed-point screen units and the left button's edges this frame.
#[derive(Clone, Copy, PartialEq, Eq, Structural, Debug)]
pub struct MouseState {
    pub position: Vec2,
    pub pressed: bool,
    pub released: bool,
}

/// An axis-aligned screen rectangle in fixed-point units.
#[derive(Clone, Copy, PartialEq, Eq, Structural, Debug)]
pub struct Rect {
    pub x: i64,
    pub y: i64,
    pub width: i64,
    pub height: i64,
}

/// Whether a point lies in a rectangle, borders included.
pub open spec fn rect_contains(r: Rect, p: Vec2) -> bool {
    &&& r.x <= p.x <= r.x + r.width
    &&& r.y <= p.y <= r.y + r.height
}

/// Tests a point against a rectangle, borders included.
pub fn rect_contains_point(r: &Rect, p: Vec2) -> (b: bool)
    ensures
        b == rect_contains(*r, p),
{
    (r.x as i128) <= (p.x as i128) && (p.x as i128) <= (r.x as i128) + (r.width as i128) && (
    r.y as i128) <= (p.y as i128) && (p.y as i128) <= (r.y as i128) + (r.height as i128)
}

/// The launcher window's widget state: the layout cursor, which gizmo
/// holds the focus, and how many gizmos this frame has laid out. The
/// font and textures it is drawn with stay with the host.
pub struct Window {
    point: Vec2,
    focus: Option<i32>,
    count: i32,
}

/// One gizmo's interaction state for the current frame.
#[derive(Clone, Copy, PartialEq, Eq, Structural, Debug)]
pub struct State {
    pub hover: bool,
    pub focus: bool,
    pub click: bool,
}

impl Window {
    /// The layout cursor.
    pub closed spec fn point_spec(self) -> Vec2 {
        self.point
    }

    /// The gizmo holding the focus, by its frame index.
    pub closed spec fn focus_spec(self) -> Option<i32> {
        self.focus
    }

    /// How many gizmos this frame has laid out so far.
    pub closed spec fn count_spec(self) -> int {
        self.count as int
    }

    pub fn new() -> (r: Window)
        ensures
            r.point_spec() == Vec2::zero_spec(),
            r.focus_spec() is None,
            r.count_spec() == 0,
    {
        Window { point: Vec2 { x: 0, y: 0 }, focus: None, count: 0 }
    }

    /// Begins a frame: the cursor returns to the origin and the gizmo
    /// count restarts; a held focus carries over between frames.
    pub fn begin(&mut self)
        ensures
            final(self).point_spec() == Vec2::zero_spec(),
            final(self).count_spec() == 0,
            final(self).focus_spec() == old(self).focus_spec(),
    {
        self.point = Vec2 { x: 0, y: 0 };
        self.count = 0;
    }

    /// Moves the layout cursor.
    pub fn point(&mut self, point: Vec2)
        ensures
            final(self).point_spec() == point,
            final(self).count_spec() == old(self).count_spec(),
            final(self).focus_spec() == old(self).focus_spec(),
    {
        self.point = point;
    }

    /// The layout cursor, for the host to draw at.
    pub fn cursor(&self) -> (r: Vec2)
        ensures
            r == self.point_spec(),
    {
        self.point
    }

    /// The gizmo holding the focus, for the host's animations.
    pub fn focused(&self) -> (r: Option<i32>)
        ensures
            r == self.focus_spec(),
    {
        self.focus
    }

    /// How many gizmos this frame has laid out so far.
    pub fn gizmo_count(&self) -> (r: i32)
        ensures
            r == self.count_spec(),
    {
        self.count
    }
}

/// Whether the gizmo under the cursor grabs the focus this step: the
/// cursor is over it, the button was just pressed, and nothing else
/// holds the focus.
pub open spec fn grabs_focus(w: Window, rectangle: Rect, mouse: MouseState) -> bool {
    rect_contains(rectangle, mouse.position) && w.focus_spec() is None && mouse.pressed
}

/// The focus after the grab step of one gizmo.
pub open spec fn focus_after_grab(w: Window, rectangle: Rect, mouse: MouseState) -> Option<i32> {
    if grabs_focus(w, rectangle, mouse) {
        Some(w.count_spec() as i32)
    } else {
        w.focus_spec()
    }
}

impl State {
    /// Resolves one gizmo's interaction: an unfocused gizmo under a
    /// fresh press takes the focus; the focused gizmo reports focus, and
    /// on release reports a click if the cursor is still over it and
    /// lets the focus go.
    pub fn get(window: &mut Window, rectangle: Rect, mouse: MouseState) -> (r: State)
        ensures
            r.hover == rect_contains(rectangle, mouse.position),
            r.focus == (focus_after_grab(*old(window), rectangle, mouse) == Some(
                old(window).count_spec() as i32,
            )),
            r.click == (r.focus && mouse.released && r.hover),
            final(window).count_spec() == old(window).count_spec(),
            final(window).point_spec() == old(window).point_spec(),
            final(window).focus_spec() == (if r.focus && mouse.released {
                None::<i32>
            } else {
                focus_after_grab(*old(window), rectangle, mouse)
            }),
    {
        let mut state = State { hover: false, focus: false, click: false };
        let hover = rect_contains_point(&rectangle, mouse.position);
        if hover {
            if window.focus.is_none() && mouse.pressed {
                window.focus = Some(window.count);
            }
            state.hover = true;
        }
        match window.focus {
            Some(focus) => {
                if focus == window.count {
                    if mouse.released {
                        if hover {
                            state.click = true;
                        }
                        window.focus = None;
                    }
                    state.focus = true;
                }
            },
            None => {},
        }
        state
    }
}

/// The rectangle a button laid out at cursor `p` occupies.
pub open spec fn button_rect(p: Vec2) -> Rect {
    Rect { x: p.x, y: p.y, width: BUTTON_WIDTH, height: BUTTON_HEIGHT }
}

impl Window {
    /// Lays out one button at the cursor, resolves its interaction, and
    /// advances the cursor past it; returns whether it was clicked. The
    /// host draws the card and its label against the same rectangle.
    pub fn button(&mut self, mouse: MouseState) -> (click: bool)
        requires
            0 <= old(self).count_spec() < GIZMO_COUNT,
            old(self).point_spec().y + BUTTON_HEIGHT + BUTTON_SHIFT <= i64::MAX,
        ensures
            click == (focus_after_grab(*old(self), button_rect(old(self).point_spec()), mouse)
                == Some(old(self).count_spec() as i32) && mouse.released && rect_contains(
                button_rect(old(self).point_spec()),
                mouse.position,
            )),
            final(self).count_spec() == old(self).count_spec() + 1,
            final(self).point_spec() == (Vec2 {
                x: old(self).point_spec().x,
                y: (old(self).point_spec().y + BUTTON_HEIGHT + BUTTON_SHIFT) as i64,
            }),
            final(self).focus_spec() == (if focus_after_grab(
                *old(self),
                button_rect(old(self).point_spec()),
                mouse,
            ) == Some(old(self).count_spec() as i32) && mouse.released {
                None::<i32>
            } else {
                focus_after_grab(*old(self), button_rect(old(self).point_spec()), mouse)
            }),
    {
        let rectangle = Rect {
            x: self.point.x,
            y: self.point.y,
            width: BUTTON_WIDTH,
            height: BUTTON_HEIGHT,
        };
        let state = State::get(self, rectangle, mouse);
        self.point = Vec2 { x: self.point.x, y: self.point.y + (BUTTON_HEIGHT + BUTTON_SHIFT) };
        self.count = self.count + 1;
        state.click
    }
}

} // verus!
