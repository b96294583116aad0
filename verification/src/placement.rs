//! The popover placement engine: pure geometry from an anchor rectangle, a
//! click point, the monitor and the window's outer size to a target window
//! position.
//!
//! Default placement is directly below the anchor, left-aligned with it. Two
//! flips are judged against the click point relative to the monitor's
//! midlines, and a fixed visual gap pushes the window away from the anchor.
//! Coordinates are carried in one space, physical pixels or logical units,
//! never mixed; the gap is given in physical pixels and is scaled down by
//! the monitor's scale factor when the computation runs in logical units.
//! Callers working in fractional logical units round to these integer units.

use vstd::prelude::*;

verus! {

/// The coordinate space of the anchor rectangle and of the result.
#[derive(Clone, Copy, Debug, PartialEq, Eq, Structural)]
pub enum CoordSpace {
    Physical,
    Logical,
}

/// The window's outer size, in the computation's coordinate space.
#[derive(Clone, Copy, Debug, PartialEq, Eq, Structural)]
pub struct WindowSize {
    pub width: u32,
    pub height: u32,
}

/// The containing monitor: its size in physical pixels and its scale factor
/// in thousandths (so a factor of 2.0 is 2000).
#[derive(Clone, Copy, Debug, PartialEq, Eq, Structural)]
pub struct MonitorInfo {
    pub width: u32,
    pub height: u32,
    pub scale_milli: u32,
}

/// Everything the engine reads. Anchor and click are in the same space; the
/// window size and monitor are absent when the host cannot determine them,
/// and then the flips are skipped.
#[derive(Clone, Copy, Debug, PartialEq, Eq, Structural)]
pub struct PlacementInput {
    pub space: CoordSpace,
    pub anchor_x: i64,
    pub anchor_y: i64,
    pub anchor_w: i64,
    pub anchor_h: i64,
    pub click_x: i64,
    pub click_y: i64,
    pub window: Option<WindowSize>,
    pub monitor: Option<MonitorInfo>,
}

/// The target position for the window's top-left corner, in the input's
/// coordinate space.
#[derive(Clone, Copy, Debug, PartialEq, Eq, Structural)]
pub struct Position {
    pub x: i64,
    pub y: i64,
}

/// The bounds under which the engine is exact: screen-sized magnitudes and a
/// positive scale factor.
pub open spec fn input_bounded(i: PlacementInput) -> bool {
    &&& -0x4000_0000 <= i.anchor_x <= 0x4000_0000
    &&& -0x4000_0000 <= i.anchor_y <= 0x4000_0000
    &&& 0 <= i.anchor_w <= 0x4000_0000
    &&& 0 <= i.anchor_h <= 0x4000_0000
    &&& match i.monitor {
        Option::None => true,
        Option::Some(m) => m.scale_milli >= 1,
    }
}

/// The monitor's scale factor in thousandths; without a monitor the factor
/// defaults to one.
pub open spec fn scale_milli_of(i: PlacementInput) -> int {
    match i.monitor {
        Option::None => 1000,
        Option::Some(m) => m.scale_milli as int,
    }
}

/// The visual gap between anchor and window: a fixed number of physical
/// pixels, divided by the scale factor when the computation runs in logical
/// units.
pub open spec fn gap_of(i: PlacementInput) -> int {
    match i.space {
        CoordSpace::Physical => 20,
        CoordSpace::Logical => 20000int / scale_milli_of(i),
    }
}

/// Both flips need the window size and the monitor; without either, only the
/// default below-the-anchor placement plus the gap applies.
pub open spec fn flips_enabled(i: PlacementInput) -> bool {
    i.window is Some && i.monitor is Some
}

/// The vertical flip: a click in the lower half of the monitor shows the
/// window above the anchor instead, clearing a bottom-of-screen taskbar.
pub open spec fn shows_above(i: PlacementInput) -> bool {
    flips_enabled(i) && match i.monitor {
        Option::None => false,
        Option::Some(m) => i.click_y > m.height as int / 2,
    }
}

/// The horizontal flip: a click in the right half of the monitor aligns the
/// window's right edge approximately with the anchor's right edge, clamped
/// to the screen's left border.
pub open spec fn shows_right_aligned(i: PlacementInput) -> bool {
    flips_enabled(i) && match i.monitor {
        Option::None => false,
        Option::Some(m) => i.click_x > m.width as int / 2,
    }
}

/// The horizontal coordinate of the placement.
pub open spec fn placed_x(i: PlacementInput) -> int {
    if shows_right_aligned(i) {
        let w = match i.window {
            Option::None => 0int,
            Option::Some(s) => s.width as int,
        };
        let xr = i.anchor_x + i.anchor_w - w / 2 - 10;
        if xr < 0 {
            0
        } else {
            xr
        }
    } else {
        i.anchor_x as int
    }
}

/// The vertical coordinate of the placement: below the anchor, or above it
/// after a vertical flip, pushed away from the anchor by the gap.
pub open spec fn placed_y(i: PlacementInput) -> int {
    if shows_above(i) {
        let h = match i.window {
            Option::None => 0int,
            Option::Some(s) => s.height as int,
        };
        i.anchor_y - h - gap_of(i)
    } else {
        i.anchor_y + i.anchor_h + gap_of(i)
    }
}

/// Computes the popover position for one click.
pub fn place_popover(i: &PlacementInput) -> (r: Position)
    requires
        input_bounded(*i),
    ensures
        r.x as int == placed_x(*i),
        r.y as int == placed_y(*i),
{
    let mut x: i64 = i.anchor_x;
    let mut y: i64;

    let gap: i64 = match i.space {
        CoordSpace::Physical => 20,
        CoordSpace::Logical => {
            let scale: u32 = match i.monitor {
                Option::None => 1000,
                Option::Some(m) => m.scale_milli,
            };
            (20000u32 / scale) as i64
        },
    };

    let mut above = false;
    if let (Option::Some(w), Option::Some(m)) = (i.window, i.monitor) {
        above = i.click_y > (m.height / 2) as i64;
        if i.click_x > (m.width / 2) as i64 {
            let xr = i.anchor_x + i.anchor_w - (w.width / 2) as i64 - 10;
            x = if xr < 0 {
                0
            } else {
                xr
            };
        }
    }

    if above {
        let h: i64 = match i.window {
            Option::None => 0,
            Option::Some(w) => w.height as i64,
        };
        y = i.anchor_y - h - gap;
    } else {
        y = i.anchor_y + i.anchor_h + gap;
    }

    Position { x, y }
}

} // verus!
