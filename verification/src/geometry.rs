//! Screen-space geometry: displays, the overlay's anchor and the avatar's hit region.
//!
//! Coordinates are whole points with the origin at the bottom-left corner, so a
//! rectangle's `y` is its bottom edge. Inputs are 32-bit; everything computed
//! from them is 64-bit, which leaves no room for overflow.

use vstd::prelude::*;

verus! {

/// Logical width of the avatar sprite.
pub const AVATAR_WIDTH: i32 = 320;

/// Logical height of the avatar sprite.
pub const AVATAR_HEIGHT: i32 = 320;

/// How far the overlay hangs over the right edge of its display.
pub const ANCHOR_OFFSET_RIGHT: i64 = 40;

/// How far the overlay hangs below the bottom edge of its display.
pub const ANCHOR_OFFSET_DOWN: i64 = 60;

/// A pointer location.
#[derive(Clone, Copy, Debug, PartialEq, Eq, Structural)]
pub struct Point {
    pub x: i32,
    pub y: i32,
}

/// A display or panel rectangle.
#[derive(Clone, Copy, Debug, PartialEq, Eq, Structural)]
pub struct ScreenRect {
    pub x: i32,
    pub y: i32,
    pub width: i32,
    pub height: i32,
}

/// The bottom-left corner at which the overlay panel is placed.
#[derive(Clone, Copy, Debug, PartialEq, Eq, Structural)]
pub struct Anchor {
    pub x: i64,
    pub y: i64,
}

/// A display contains the points from its left and bottom edges up to, but not
/// including, its right and top edges.
pub open spec fn screen_contains(screen: ScreenRect, p: Point) -> bool {
    &&& screen.x <= p.x < screen.x + screen.width
    &&& screen.y <= p.y < screen.y + screen.height
}

/// The first display of `screens` that contains `p`, or `primary` when the
/// pointer is on none of them.
pub open spec fn spec_active_screen(p: Point, screens: Seq<ScreenRect>, primary: ScreenRect)
    -> ScreenRect
    decreases screens.len(),
{
    if screens.len() == 0 {
        primary
    } else if screen_contains(screens[0], p) {
        screens[0]
    } else {
        spec_active_screen(p, screens.drop_first(), primary)
    }
}

/// Bottom-right placement of a panel of the given width on `screen`.
pub open spec fn spec_anchor(screen: ScreenRect, width: i32) -> Anchor {
    Anchor {
        x: (screen.x + screen.width - width + ANCHOR_OFFSET_RIGHT) as i64,
        y: (screen.y - ANCHOR_OFFSET_DOWN) as i64,
    }
}

/// The avatar is centred horizontally in the panel and sits on its bottom edge;
/// its box includes all four edges. The horizontal test is written on doubled
/// coordinates so that an odd margin is not rounded.
pub open spec fn on_avatar(panel: ScreenRect, p: Point) -> bool {
    let left_twice = 2 * panel.x + panel.width - AVATAR_WIDTH;
    &&& left_twice <= 2 * p.x <= left_twice + 2 * AVATAR_WIDTH
    &&& panel.y <= p.y <= panel.y + AVATAR_HEIGHT
}

/// Whether a display contains a pointer location.
pub fn contains_point(screen: ScreenRect, p: Point) -> (r: bool)
    ensures
        r == screen_contains(screen, p),
{
    let px: i64 = p.x as i64;
    let py: i64 = p.y as i64;
    let left: i64 = screen.x as i64;
    let bottom: i64 = screen.y as i64;
    px >= left && px < left + screen.width as i64 && py >= bottom && py < bottom
        + screen.height as i64
}

/// Resolves the display under the pointer, falling back to the primary display
/// while the pointer is between displays.
pub fn active_screen(p: Point, screens: &Vec<ScreenRect>, primary: ScreenRect) -> (r: ScreenRect)
    ensures
        r == spec_active_screen(p, screens@, primary),
{
    let mut i: usize = 0;
    assert(screens@.skip(0) =~= screens@);
    while i < screens.len()
        invariant
            i <= screens.len(),
            spec_active_screen(p, screens@, primary) == spec_active_screen(
                p,
                screens@.skip(i as int),
                primary,
            ),
        decreases screens.len() - i,
    {
        let s = screens[i];
        proof {
            let rest = screens@.skip(i as int);
            assert(rest.drop_first() =~= screens@.skip(i + 1));
        }
        if contains_point(s, p) {
            return s;
        }
        i += 1;
    }
    primary
}

/// Where to put a panel of the given width on `screen`.
pub fn anchor_position(screen: ScreenRect, width: i32) -> (r: Anchor)
    ensures
        r == spec_anchor(screen, width),
{
    Anchor {
        x: screen.x as i64 + screen.width as i64 - width as i64 + ANCHOR_OFFSET_RIGHT,
        y: screen.y as i64 - ANCHOR_OFFSET_DOWN,
    }
}

/// Whether a pointer location falls on the avatar of a panel.
pub fn is_on_avatar(panel: ScreenRect, p: Point) -> (r: bool)
    ensures
        r == on_avatar(panel, p),
{
    let left_twice: i64 = 2 * (panel.x as i64) + panel.width as i64 - AVATAR_WIDTH as i64;
    let x_twice: i64 = 2 * (p.x as i64);
    let bottom: i64 = panel.y as i64;
    let y: i64 = p.y as i64;
    left_twice <= x_twice && x_twice <= left_twice + 2 * (AVATAR_WIDTH as i64) && bottom <= y && y
        <= bottom + AVATAR_HEIGHT as i64
}

} // verus!
