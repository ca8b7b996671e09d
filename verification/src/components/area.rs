use vstd::prelude::*;

verus! {

/// A rectangle of terminal cells: its top-left corner and its size.
#[derive(Clone, Copy, PartialEq, Eq, Structural, Debug)]
pub struct Area {
    pub x: u16,
    pub y: u16,
    pub width: u16,
    pub height: u16,
}

/// `a + b`, or `u16::MAX` where the sum does not fit.
pub open spec fn sat_add_u16(a: u16, b: u16) -> int {
    if a + b > u16::MAX {
        u16::MAX as int
    } else {
        a + b
    }
}

impl Area {
    /// The column just right of the area (saturating at the screen's edge).
    pub open spec fn spec_right(self) -> int {
        sat_add_u16(self.x, self.width)
    }

    /// The row just below the area (saturating at the screen's edge).
    pub open spec fn spec_bottom(self) -> int {
        sat_add_u16(self.y, self.height)
    }

    /// Whether the cell at (`col`, `row`) lies inside the area.
    pub open spec fn spec_contains(self, col: u16, row: u16) -> bool {
        &&& self.x <= col < self.spec_right()
        &&& self.y <= row < self.spec_bottom()
    }

    pub fn new(x: u16, y: u16, width: u16, height: u16) -> (r: Self)
        ensures
            r == (Area { x, y, width, height }),
    {
        Area { x, y, width, height }
    }

    /// Whether the cell at (`col`, `row`) lies inside the area.
    pub fn contains(&self, col: u16, row: u16) -> (r: bool)
        ensures
            r == self.spec_contains(col, row),
    {
        let right = self.x.saturating_add(self.width);
        let bottom = self.y.saturating_add(self.height);
        col >= self.x && col < right && row >= self.y && row < bottom
    }
}

/// A window of `width` by `height` cells centered on a screen of the given size, cut
/// down to the screen where it is larger.
pub open spec fn spec_centered_area(screen_width: u16, screen_height: u16, width: u16, height: u16) -> Area {
    Area {
        x: (if screen_width >= width { (screen_width - width) / 2 } else { 0 }) as u16,
        y: (if screen_height >= height { (screen_height - height) / 2 } else { 0 }) as u16,
        width: if width <= screen_width { width } else { screen_width },
        height: if height <= screen_height { height } else { screen_height },
    }
}

/// A centered window lies on the screen.
pub proof fn lemma_centered_area_fits(screen_width: u16, screen_height: u16, width: u16, height: u16)
    ensures
        spec_centered_area(screen_width, screen_height, width, height).x + spec_centered_area(
            screen_width,
            screen_height,
            width,
            height,
        ).width <= screen_width,
        spec_centered_area(screen_width, screen_height, width, height).y + spec_centered_area(
            screen_width,
            screen_height,
            width,
            height,
        ).height <= screen_height,
{
}

/// A window of `width` by `height` cells centered on the screen (see
/// `spec_centered_area`).
pub fn centered_area(screen_width: u16, screen_height: u16, width: u16, height: u16) -> (r: Area)
    ensures
        r == spec_centered_area(screen_width, screen_height, width, height),
{
    Area {
        x: screen_width.saturating_sub(width) / 2,
        y: screen_height.saturating_sub(height) / 2,
        width: if width <= screen_width { width } else { screen_width },
        height: if height <= screen_height { height } else { screen_height },
    }
}

} // verus!
