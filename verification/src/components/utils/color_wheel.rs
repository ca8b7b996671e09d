use vstd::prelude::*;

verus! {

/// The colors given in turn to chart lines.
#[derive(PartialEq, Eq, Structural, Clone, Copy, Debug)]
pub enum ColorWheel {
    Red,
    Blue,
    Cyan,
    Green,
    LightGreen,
    Magenta,
}

/// The number of colors on the wheel.
pub const WHEEL_SIZE: usize = 6;

/// The place of a color on the wheel.
pub open spec fn color_index(c: ColorWheel) -> int {
    match c {
        ColorWheel::Red => 0,
        ColorWheel::Blue => 1,
        ColorWheel::Cyan => 2,
        ColorWheel::Green => 3,
        ColorWheel::LightGreen => 4,
        ColorWheel::Magenta => 5,
    }
}

/// The color at place `i` of the wheel, counting round.
pub open spec fn color_at(i: int) -> ColorWheel {
    let k = i % (WHEEL_SIZE as int);
    if k == 0 {
        ColorWheel::Red
    } else if k == 1 {
        ColorWheel::Blue
    } else if k == 2 {
        ColorWheel::Cyan
    } else if k == 3 {
        ColorWheel::Green
    } else if k == 4 {
        ColorWheel::LightGreen
    } else {
        ColorWheel::Magenta
    }
}

/// The color that follows `c` on the wheel.
pub open spec fn rotated(c: ColorWheel) -> ColorWheel {
    color_at(color_index(c) + 1)
}

/// The name of a color as the terminal library parses it.
pub open spec fn color_name(c: ColorWheel) -> Seq<char> {
    match c {
        ColorWheel::Red => "red"@,
        ColorWheel::Blue => "blue"@,
        ColorWheel::Cyan => "cyan"@,
        ColorWheel::Green => "green"@,
        ColorWheel::LightGreen => "lightgreen"@,
        ColorWheel::Magenta => "magenta"@,
    }
}

/// Turning the wheel moves one place on, and six turns bring any color back.
pub proof fn lemma_wheel_turns_round(c: ColorWheel, i: int)
    requires
        0 <= i,
    ensures
        rotated(color_at(i)) == color_at(i + 1),
        rotated(rotated(rotated(rotated(rotated(rotated(c)))))) == c,
        color_at(color_index(c)) == c,
{
}

impl Default for ColorWheel {
    fn default() -> (r: Self)
        ensures
            r == ColorWheel::Red,
    {
        ColorWheel::Red
    }
}

impl ColorWheel {
    pub fn as_str(&self) -> (r: &'static str)
        ensures
            r@ == color_name(*self),
    {
        match self {
            ColorWheel::Red => "red",
            ColorWheel::Blue => "blue",
            ColorWheel::Cyan => "cyan",
            ColorWheel::Green => "green",
            ColorWheel::LightGreen => "lightgreen",
            ColorWheel::Magenta => "magenta",
        }
    }

    fn position(&self) -> (r: usize)
        ensures
            r == color_index(*self),
    {
        match self {
            ColorWheel::Red => 0,
            ColorWheel::Blue => 1,
            ColorWheel::Cyan => 2,
            ColorWheel::Green => 3,
            ColorWheel::LightGreen => 4,
            ColorWheel::Magenta => 5,
        }
    }

    /// Moves to the next color, from the last back to the first.
    pub fn rotate(&mut self)
        ensures
            *final(self) == rotated(*old(self)),
    {
        let next_idx = (self.position() + 1) % WHEEL_SIZE;
        *self = Self::from_index(next_idx);
    }

    /// The color at place `index`, counting round the wheel.
    pub fn from_index(index: usize) -> (r: Self)
        ensures
            r == color_at(index as int),
    {
        let k = index % WHEEL_SIZE;
        if k == 0 {
            ColorWheel::Red
        } else if k == 1 {
            ColorWheel::Blue
        } else if k == 2 {
            ColorWheel::Cyan
        } else if k == 3 {
            ColorWheel::Green
        } else if k == 4 {
            ColorWheel::LightGreen
        } else {
            ColorWheel::Magenta
        }
    }

    pub fn reset(&mut self)
        ensures
            *final(self) == ColorWheel::Red,
    {
        *self = Self::default();
    }
}

} // verus!
