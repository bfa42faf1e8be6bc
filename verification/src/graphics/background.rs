//! The clear colour of the next frame.

use vstd::prelude::*;
use crate::graphics::color::Color;

verus! {

/// The colour to clear the frame to, and whether a clear has been requested
/// since the last frame was presented.
#[derive(Debug, PartialEq, Eq, Structural, Clone, Copy)]
pub struct Background {
    pub color: Color,
    pub should_clear: bool,
}

/// Transparent black, the colour of a background that nobody has set.
pub open spec fn transparent() -> Color {
    Color { r: 0, g: 0, b: 0, a: 0 }
}

impl Background {
    /// The background with a clear to `color` requested.
    pub open spec fn cleared(color: Color) -> Background {
        Background { color, should_clear: true }
    }

    /// The background with no clear requested; the colour stays.
    pub open spec fn settled(self) -> Background {
        Background { color: self.color, should_clear: false }
    }

    /// The colour that the next frame starts from, if a clear was requested.
    pub open spec fn requested(self) -> Option<Color> {
        if self.should_clear {
            Some(self.color)
        } else {
            None
        }
    }

    /// Requests that the next frame is cleared to `color`.
    pub fn clear(&mut self, color: Color)
        ensures
            *final(self) == Background::cleared(color),
    {
        self.should_clear = true;
        self.color = color;
    }

    /// Withdraws the request. The colour is kept.
    pub fn reset(&mut self)
        ensures
            *final(self) == old(self).settled(),
    {
        self.should_clear = false;
    }

    /// The colour to clear to, if a clear was requested.
    pub fn clear_color(&self) -> (color: Option<Color>)
        ensures
            color == self.requested(),
    {
        if self.should_clear {
            Some(self.color)
        } else {
            None
        }
    }
}

impl Default for Background {
    /// Transparent black, and no clear requested.
    fn default() -> (background: Self)
        ensures
            background == (Background { color: transparent(), should_clear: false }),
    {
        Background { color: Color { r: 0, g: 0, b: 0, a: 0 }, should_clear: false }
    }
}

} // verus!
