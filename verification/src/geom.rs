//! Screen geometry: rectangles, configured rectangles and colors.
use vstd::prelude::*;

verus! {

/// A rectangle on the screen: top-left corner and size in pixels.
#[derive(Clone, Copy, Debug, PartialEq, Eq, Structural)]
pub struct Rect {
    pub x: i32,
    pub y: i32,
    pub w: u32,
    pub h: u32,
}

impl Rect {
    /// The rectangle with top-left corner `(x, y)`, width `w` and height `h`.
    pub fn new(x: i32, y: i32, w: u32, h: u32) -> (r: Rect)
        ensures
            r == (Rect { x, y, w, h }),
    {
        Rect { x, y, w, h }
    }

    /// The rectangle with top-left corner `(x, y)`, width `w` and height `h`.
    pub open spec fn new_spec(x: i32, y: i32, w: u32, h: u32) -> Rect {
        Rect { x, y, w, h }
    }

    /// The x coordinate just right of the rectangle.
    pub open spec fn spec_right(self) -> int {
        self.x + self.w
    }

    /// The y coordinate just below the rectangle.
    pub open spec fn spec_bottom(self) -> int {
        self.y + self.h
    }

    /// Whether the right and bottom edges are representable as `i32`.
    pub open spec fn fits(self) -> bool {
        self.spec_right() <= i32::MAX && self.spec_bottom() <= i32::MAX
    }

    /// Whether point `(px, py)` lies in the rectangle (right and bottom
    /// edges excluded).
    pub open spec fn spec_contains(self, px: int, py: int) -> bool {
        self.x <= px < self.spec_right() && self.y <= py < self.spec_bottom()
    }

    /// The x coordinate just right of the rectangle.
    pub fn right(&self) -> (r: i32)
        requires
            self.fits(),
        ensures
            r == self.spec_right(),
    {
        (self.x as i64 + self.w as i64) as i32
    }

    /// The y coordinate just below the rectangle.
    pub fn bottom(&self) -> (r: i32)
        requires
            self.fits(),
        ensures
            r == self.spec_bottom(),
    {
        (self.y as i64 + self.h as i64) as i32
    }

    /// Whether point `(px, py)` lies in the rectangle.
    pub fn contains_point(&self, px: i32, py: i32) -> (r: bool)
        ensures
            r == self.spec_contains(px as int, py as int),
    {
        let px = px as i64;
        let py = py as i64;
        self.x as i64 <= px && px < self.x as i64 + self.w as i64 && self.y as i64 <= py && py
            < self.y as i64 + self.h as i64
    }

    /// The top-right corner: `(right, y)`.
    pub fn top_right(&self) -> (r: (i32, i32))
        requires
            self.fits(),
        ensures
            r.0 == self.spec_right(),
            r.1 == self.y,
    {
        (self.right(), self.y)
    }

    /// Moves the rectangle by `(dx, dy)`.
    pub fn offset(&mut self, dx: i32, dy: i32)
        requires
            i32::MIN <= old(self).x + dx <= i32::MAX,
            i32::MIN <= old(self).y + dy <= i32::MAX,
        ensures
            final(self).x == old(self).x + dx,
            final(self).y == old(self).y + dy,
            final(self).w == old(self).w,
            final(self).h == old(self).h,
    {
        self.x = self.x + dx;
        self.y = self.y + dy;
    }
}

/// A rectangle as configured: an `x` or `y` may be one of the centering
/// marks instead of a coordinate.
#[derive(Clone, Copy, Debug, PartialEq, Eq, Structural)]
pub struct CfgRect {
    pub x: i32,
    pub y: i32,
    pub w: u32,
    pub h: u32,
}

/// Coordinate mark: center on the screen.
pub const CENTERING_POS_FOR_SCREEN: i32 = -1000;
/// Coordinate mark: center on the main window.
pub const CENTERING_POS: i32 = -999;

/// The screen layout that configured rectangles are placed in.
#[derive(Clone, Copy, Debug, PartialEq, Eq, Structural)]
pub struct ScreenLayout {
    pub screen_w: u32,
    pub screen_h: u32,
    pub main_window: Rect,
    /// Height of the tabs above a window group (icon and text).
    pub tab_h: u32,
}

/// Whether configured rectangle `c` can be placed in `s`: a rectangle
/// centered on the screen or the main window is not larger than what it is
/// centered in, and the coordinates it gets stay within `i32`. A
/// coordinate that is not a centering mark asks nothing of the layout.
pub open spec fn cfg_rect_placeable(c: CfgRect, s: ScreenLayout) -> bool {
    &&& (c.x == CENTERING_POS_FOR_SCREEN ==> c.w <= s.screen_w <= i32::MAX)
    &&& (c.x == CENTERING_POS ==> {
        &&& c.w <= s.main_window.w <= i32::MAX
        &&& i32::MIN <= s.main_window.x + (s.main_window.w - c.w) / 2 <= i32::MAX
    })
    &&& (c.y == CENTERING_POS_FOR_SCREEN ==> c.h <= s.screen_h <= i32::MAX)
    &&& (c.y == CENTERING_POS ==> {
        &&& c.h + s.tab_h <= u32::MAX
        &&& if c.h + s.tab_h < s.main_window.h {
            &&& s.main_window.h <= i32::MAX
            &&& s.tab_h <= i32::MAX
            &&& i32::MIN <= s.main_window.y + (s.main_window.h - c.h) / 2 + s.tab_h / 2 <= i32::MAX
        } else {
            c.h <= s.screen_h <= i32::MAX
        }
    })
}

/// The x coordinate of configured rectangle `c`.
pub open spec fn cfg_x(c: CfgRect, s: ScreenLayout) -> int {
    if c.x == CENTERING_POS_FOR_SCREEN {
        (s.screen_w - c.w) / 2
    } else if c.x == CENTERING_POS {
        s.main_window.x + (s.main_window.w - c.w) / 2
    } else {
        c.x as int
    }
}

/// The y coordinate of configured rectangle `c`: centered on the screen, or
/// on the main window shifted down by half the tab height when the
/// rectangle and the tabs fit in the main window (else on the screen).
pub open spec fn cfg_y(c: CfgRect, s: ScreenLayout) -> int {
    if c.y == CENTERING_POS_FOR_SCREEN {
        (s.screen_h - c.h) / 2
    } else if c.y == CENTERING_POS {
        if c.h + s.tab_h < s.main_window.h {
            s.main_window.y + (s.main_window.h - c.h) / 2 + s.tab_h / 2
        } else {
            (s.screen_h - c.h) / 2
        }
    } else {
        c.y as int
    }
}

/// A rectangle centered on the screen or on the main window has as much
/// room on one side as on the other (up to one pixel): centered on the
/// screen, the space left of it equals the space right of it and the space
/// above it equals the space below it; centered on the main window, the
/// same holds within the main window horizontally, and vertically (when
/// the rectangle and the tabs fit) after a shift down by half the tab
/// height.
pub proof fn law_centered_rects(c: CfgRect, s: ScreenLayout)
    requires
        cfg_rect_placeable(c, s),
    ensures
        c.x == CENTERING_POS_FOR_SCREEN ==> {
            let left = cfg_x(c, s);
            let right = s.screen_w - (left + c.w);
            0 <= left && 0 <= right - left <= 1
        },
        c.y == CENTERING_POS_FOR_SCREEN ==> {
            let above = cfg_y(c, s);
            let below = s.screen_h - (above + c.h);
            0 <= above && 0 <= below - above <= 1
        },
        c.x == CENTERING_POS ==> {
            let left = cfg_x(c, s) - s.main_window.x;
            let right = s.main_window.spec_right() - (cfg_x(c, s) + c.w);
            0 <= left && 0 <= right - left <= 1
        },
        c.y == CENTERING_POS && c.h + s.tab_h < s.main_window.h ==> {
            let above = cfg_y(c, s) - s.tab_h / 2 - s.main_window.y;
            let below = s.main_window.spec_bottom() - (cfg_y(c, s) - s.tab_h / 2 + c.h);
            0 <= above && 0 <= below - above <= 1
        },
        c.y == CENTERING_POS && !(c.h + s.tab_h < s.main_window.h) ==> {
            let above = cfg_y(c, s);
            let below = s.screen_h - (above + c.h);
            0 <= above && 0 <= below - above <= 1
        },
{
}

/// Places configured rectangle `c` on the screen.
pub fn rect_from_cfg(c: CfgRect, s: ScreenLayout) -> (r: Rect)
    requires
        cfg_rect_placeable(c, s),
    ensures
        r.x == cfg_x(c, s),
        r.y == cfg_y(c, s),
        r.w == c.w,
        r.h == c.h,
{
    let x: i32 = if c.x == CENTERING_POS_FOR_SCREEN {
        ((s.screen_w - c.w) / 2) as i32
    } else if c.x == CENTERING_POS {
        s.main_window.x + ((s.main_window.w - c.w) / 2) as i32
    } else {
        c.x
    };
    let y: i32 = if c.y == CENTERING_POS_FOR_SCREEN {
        ((s.screen_h - c.h) / 2) as i32
    } else if c.y == CENTERING_POS {
        if c.h + s.tab_h < s.main_window.h {
            s.main_window.y + ((s.main_window.h - c.h) / 2) as i32 + (s.tab_h / 2) as i32
        } else {
            ((s.screen_h - c.h) / 2) as i32
        }
    } else {
        c.y
    };
    Rect::new(x, y, c.w, c.h)
}

/// An RGBA color.
#[derive(Clone, Copy, Debug, PartialEq, Eq, Structural)]
pub struct Color {
    pub r: u8,
    pub g: u8,
    pub b: u8,
    pub a: u8,
}

/// A color as configured: alpha may be left out.
#[derive(Clone, Copy, Debug, PartialEq, Eq, Structural)]
pub struct CfgColor {
    pub r: u8,
    pub g: u8,
    pub b: u8,
    pub a: Option<u8>,
}

/// The configured color; an omitted alpha means opaque (255).
pub fn color_from_cfg(c: CfgColor) -> (r: Color)
    ensures
        r.r == c.r && r.g == c.g && r.b == c.b,
        r.a == (match c.a { Some(a) => a, None => 255u8 }),
{
    match c.a {
        Some(a) => Color { r: c.r, g: c.g, b: c.b, a },
        None => Color { r: c.r, g: c.g, b: c.b, a: 255 },
    }
}

} // verus!
