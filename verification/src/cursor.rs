//! Cursor coordinates and the clamping that keeps the radial menu on screen.

use vstd::prelude::*;

pub mod queries;

verus! {

/// Menu diameter in pixels.
pub const MENU_DIAMETER: i32 = 280;

/// Minimum margin from the screen edges in pixels.
pub const EDGE_MARGIN: i32 = 20;

/// Menu radius in pixels, half of the diameter.
pub const MENU_RADIUS: i32 = 140;

/// Smallest width and height of a screen on which the menu fits with its
/// margins.
pub const MIN_SCREEN_EXTENT: i32 = 320;

/// Screen dimensions in pixels.
#[derive(Debug, Clone, Copy, PartialEq, Eq, Structural)]
pub struct ScreenBounds {
    pub width: i32,
    pub height: i32,
}

impl Default for ScreenBounds {
    /// A common resolution, used until the screen was queried.
    fn default() -> (bounds: Self)
        ensures
            bounds == (ScreenBounds { width: 1920, height: 1080 }),
    {
        Self { width: 1920, height: 1080 }
    }
}

/// A cursor position in screen coordinates.
#[derive(Debug, Clone, Copy, PartialEq, Eq, Structural)]
pub struct CursorPosition {
    pub x: i32,
    pub y: i32,
}

impl Default for CursorPosition {
    fn default() -> (pos: Self)
        ensures
            pos == (CursorPosition { x: 0, y: 0 }),
    {
        Self { x: 0, y: 0 }
    }
}

/// The value within `[low, high]` that is nearest to `value`.
pub open spec fn spec_clamp(value: int, low: int, high: int) -> int {
    if value < low {
        low
    } else if value > high {
        high
    } else {
        value
    }
}

fn clamp(value: i32, low: i32, high: i32) -> (clamped: i32)
    requires
        low <= high,
    ensures
        clamped == spec_clamp(value as int, low as int, high as int),
{
    if value < low {
        low
    } else if value > high {
        high
    } else {
        value
    }
}

impl ScreenBounds {
    /// Whether the menu fits on the screen with its margins.
    pub open spec fn spec_fits_menu(&self) -> bool {
        self.width >= MIN_SCREEN_EXTENT && self.height >= MIN_SCREEN_EXTENT
    }

    /// Whether the menu fits on the screen with its margins. Only on such a
    /// screen can a position be clamped.
    #[verifier::when_used_as_spec(spec_fits_menu)]
    pub fn fits_menu(&self) -> (fits: bool)
        ensures
            fits == self.spec_fits_menu(),
    {
        self.width >= MIN_SCREEN_EXTENT && self.height >= MIN_SCREEN_EXTENT
    }
}

impl CursorPosition {
    /// The position at which the menu is centred for a cursor at `self`:
    /// each coordinate is moved into the range that keeps the whole menu and
    /// its margin on the screen.
    pub open spec fn spec_clamp_to_screen(&self, bounds: &ScreenBounds) -> CursorPosition {
        CursorPosition {
            x: spec_clamp(
                self.x as int,
                EDGE_MARGIN + MENU_RADIUS,
                bounds.width - EDGE_MARGIN - MENU_RADIUS,
            ) as i32,
            y: spec_clamp(
                self.y as int,
                EDGE_MARGIN + MENU_RADIUS,
                bounds.height - EDGE_MARGIN - MENU_RADIUS,
            ) as i32,
        }
    }

    /// Creates a cursor position.
    pub fn new(x: i32, y: i32) -> (pos: Self)
        ensures
            pos == (CursorPosition { x, y }),
    {
        Self { x, y }
    }

    /// Moves the position away from the screen edges, so that the menu fits
    /// on the screen around it.
    pub fn clamp_to_screen(&self, bounds: &ScreenBounds) -> (clamped: Self)
        requires
            bounds.spec_fits_menu(),
        ensures
            clamped == self.spec_clamp_to_screen(bounds),
            EDGE_MARGIN + MENU_RADIUS <= clamped.x <= bounds.width - EDGE_MARGIN - MENU_RADIUS,
            EDGE_MARGIN + MENU_RADIUS <= clamped.y <= bounds.height - EDGE_MARGIN - MENU_RADIUS,
    {
        let min_x: i32 = EDGE_MARGIN + MENU_RADIUS;
        let max_x: i32 = bounds.width - EDGE_MARGIN - MENU_RADIUS;
        let min_y: i32 = EDGE_MARGIN + MENU_RADIUS;
        let max_y: i32 = bounds.height - EDGE_MARGIN - MENU_RADIUS;
        Self { x: clamp(self.x, min_x, max_x), y: clamp(self.y, min_y, max_y) }
    }
}

/// A position that leaves room for the menu is not moved, and clamping a
/// clamped position changes nothing.
pub proof fn lemma_clamp_is_idempotent(pos: CursorPosition, bounds: ScreenBounds)
    requires
        bounds.spec_fits_menu(),
    ensures
        pos.spec_clamp_to_screen(&bounds).spec_clamp_to_screen(&bounds) == pos.spec_clamp_to_screen(
            &bounds,
        ),
        EDGE_MARGIN + MENU_RADIUS <= pos.x <= bounds.width - EDGE_MARGIN - MENU_RADIUS
            && EDGE_MARGIN + MENU_RADIUS <= pos.y <= bounds.height - EDGE_MARGIN - MENU_RADIUS
            ==> pos.spec_clamp_to_screen(&bounds) == pos,
{
}

} // verus!
