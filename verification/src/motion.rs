//! Where the pet window goes: its default place in a monitor's work area,
//! keeping a restored position on screen, and dragging with the mouse.

use vstd::prelude::*;

verus! {

/// The part of a monitor that windows may use (without the taskbar).
#[derive(Debug, Clone, Copy, PartialEq, Eq, Structural)]
pub struct WorkArea {
    pub left: i32,
    pub top: i32,
    pub right: i32,
    pub bottom: i32,
}

/// A window position in physical pixels.
#[derive(Debug, Clone, Copy, PartialEq, Eq, Structural)]
pub struct Position {
    pub x: i32,
    pub y: i32,
}

pub open spec fn max_int(a: int, b: int) -> int {
    if a >= b {
        a
    } else {
        b
    }
}

pub open spec fn clamp_int(v: int, lo: int, hi: int) -> int {
    if v < lo {
        lo
    } else if v > hi {
        hi
    } else {
        v
    }
}

pub open spec fn fits_i32(v: int) -> bool {
    i32::MIN <= v <= i32::MAX
}

/// The bottom-right corner of the work area, `margin` pixels in from both
/// edges, but never left of or above the work area.
pub open spec fn spec_default_position(
    area: WorkArea,
    width: int,
    height: int,
    margin: int,
) -> (int, int) {
    let max_x = max_int(area.right - width, area.left as int);
    let max_y = max_int(area.bottom - height, area.top as int);
    (max_int(max_x - margin, area.left as int), max_int(max_y - margin, area.top as int))
}

pub fn default_position_in_work_area(
    area: WorkArea,
    width: i32,
    height: i32,
    margin: i32,
) -> (position: Position)
    requires
        fits_i32(area.right - width),
        fits_i32(area.bottom - height),
        fits_i32(max_int(area.right - width, area.left as int) - margin),
        fits_i32(max_int(area.bottom - height, area.top as int) - margin),
    ensures
        (position.x as int, position.y as int) == spec_default_position(area, width as int, height as int, margin as int),
{
    let dx = area.right - width;
    let max_x = if dx >= area.left {
        dx
    } else {
        area.left
    };
    let dy = area.bottom - height;
    let max_y = if dy >= area.top {
        dy
    } else {
        area.top
    };
    let px = max_x - margin;
    let py = max_y - margin;
    Position {
        x: if px >= area.left {
            px
        } else {
            area.left
        },
        y: if py >= area.top {
            py
        } else {
            area.top
        },
    }
}

/// A position moved back inside the work area so that the window's top-left
/// corner stays within it and, room permitting, the whole window does.
pub open spec fn spec_clamp_position(
    p: Position,
    area: WorkArea,
    width: int,
    height: int,
) -> (int, int) {
    let max_x = max_int(area.right - width, area.left as int);
    let max_y = max_int(area.bottom - height, area.top as int);
    (clamp_int(p.x as int, area.left as int, max_x), clamp_int(p.y as int, area.top as int, max_y))
}

/// Where a restored window goes: clamped to the work area of the monitor
/// under it, or left as it is when no monitor was found.
pub fn restore_position(
    position: Position,
    area: Option<WorkArea>,
    width: i32,
    height: i32,
) -> (placed: Position)
    requires
        area matches Some(a) ==> fits_i32(a.right - width) && fits_i32(a.bottom - height),
    ensures
        match area {
            Some(a) => (placed.x as int, placed.y as int) == spec_clamp_position(position, a, width as int, height as int),
            None => placed == position,
        },
{
    match area {
        None => position,
        Some(a) => {
            let dx = a.right - width;
            let max_x = if dx >= a.left {
                dx
            } else {
                a.left
            };
            let dy = a.bottom - height;
            let max_y = if dy >= a.top {
                dy
            } else {
                a.top
            };
            let x = if position.x < a.left {
                a.left
            } else if position.x > max_x {
                max_x
            } else {
                position.x
            };
            let y = if position.y < a.top {
                a.top
            } else if position.y > max_y {
                max_y
            } else {
                position.y
            };
            Position { x, y }
        },
    }
}

/// The state of a mouse drag of the pet window.
#[derive(Debug, Clone, Copy, PartialEq, Eq, Structural)]
pub struct DragState {
    pub dragging: bool,
    pub offset_x: i32,
    pub offset_y: i32,
}

impl DragState {
    pub fn new() -> (state: DragState)
        ensures
            !state.dragging,
            state.offset_x == 0,
            state.offset_y == 0,
    {
        DragState { dragging: false, offset_x: 0, offset_y: 0 }
    }

    /// The drag starts: remember where in the window the cursor grabbed it.
    pub fn start(&mut self, cursor: Position, window: Position)
        requires
            fits_i32(cursor.x - window.x),
            fits_i32(cursor.y - window.y),
        ensures
            final(self).dragging,
            final(self).offset_x == cursor.x - window.x,
            final(self).offset_y == cursor.y - window.y,
    {
        self.dragging = true;
        self.offset_x = cursor.x - window.x;
        self.offset_y = cursor.y - window.y;
    }

    /// Where the window goes for a cursor position while dragging: under the
    /// cursor at the grab offset, kept inside the work area when there is one.
    /// None when no drag is in progress.
    pub fn target(
        &self,
        cursor: Position,
        area: Option<WorkArea>,
        width: i32,
        height: i32,
    ) -> (target: Option<Position>)
        requires
            fits_i32(cursor.x - self.offset_x),
            fits_i32(cursor.y - self.offset_y),
            area matches Some(a) ==> fits_i32(a.right - width) && fits_i32(a.bottom - height)
                && a.left <= a.right - width && a.top <= a.bottom - height,
        ensures
            !self.dragging ==> target is None,
            self.dragging ==> (target matches Some(t) && match area {
                Some(a) => t.x == clamp_int(cursor.x - self.offset_x, a.left as int, a.right - width)
                    && t.y == clamp_int(cursor.y - self.offset_y, a.top as int, a.bottom - height),
                None => t.x == cursor.x - self.offset_x && t.y == cursor.y - self.offset_y,
            }),
    {
        if !self.dragging {
            return None;
        }
        let mut x = cursor.x - self.offset_x;
        let mut y = cursor.y - self.offset_y;
        if let Some(a) = area {
            let max_x = a.right - width;
            let max_y = a.bottom - height;
            x = if x < a.left {
                a.left
            } else if x > max_x {
                max_x
            } else {
                x
            };
            y = if y < a.top {
                a.top
            } else if y > max_y {
                max_y
            } else {
                y
            };
        }
        Some(Position { x, y })
    }

    /// The drag ends.
    pub fn end(&mut self)
        ensures
            !final(self).dragging,
            final(self).offset_x == old(self).offset_x,
            final(self).offset_y == old(self).offset_y,
    {
        self.dragging = false;
    }
}

/// When the window fits, the default position keeps the whole window inside
/// the work area.
pub proof fn law_default_position_inside_work_area(
    area: WorkArea,
    width: int,
    height: int,
    margin: int,
)
    requires
        0 <= margin,
        0 <= width <= area.right - area.left,
        0 <= height <= area.bottom - area.top,
    ensures
        area.left <= spec_default_position(area, width, height, margin).0,
        spec_default_position(area, width, height, margin).0 + width <= area.right,
        area.top <= spec_default_position(area, width, height, margin).1,
        spec_default_position(area, width, height, margin).1 + height <= area.bottom,
{
}

/// A restored position always lies in the work area, and so does the whole
/// window when it fits.
pub proof fn law_restored_position_on_screen(p: Position, area: WorkArea, width: int, height: int)
    requires
        area.left <= area.right,
        area.top <= area.bottom,
    ensures
        area.left <= spec_clamp_position(p, area, width, height).0,
        area.top <= spec_clamp_position(p, area, width, height).1,
        0 <= width <= area.right - area.left ==> spec_clamp_position(p, area, width, height).0 + width <= area.right,
        0 <= height <= area.bottom - area.top ==> spec_clamp_position(p, area, width, height).1 + height <= area.bottom,
        area.left <= p.x <= area.right - width && area.top <= p.y <= area.bottom - height
            ==> spec_clamp_position(p, area, width, height) == (p.x as int, p.y as int),
{
}

/// While dragging over a work area that can hold the window, the window
/// never leaves it.
pub proof fn law_drag_stays_in_work_area(
    cursor_x: int,
    cursor_y: int,
    area: WorkArea,
    width: int,
    height: int,
)
    requires
        area.left <= area.right - width,
        area.top <= area.bottom - height,
        width >= 0,
        height >= 0,
    ensures
        area.left <= clamp_int(cursor_x, area.left as int, area.right - width),
        clamp_int(cursor_x, area.left as int, area.right - width) + width <= area.right,
        area.top <= clamp_int(cursor_y, area.top as int, area.bottom - height),
        clamp_int(cursor_y, area.top as int, area.bottom - height) + height <= area.bottom,
{
}

} // verus!
