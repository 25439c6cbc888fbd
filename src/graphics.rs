//! Settings for a top-level window on a display.

use vstd::prelude::*;
use crate::display::Display;

verus! {

/// The settings of a window to be created on a display.
pub struct WindowBuilder<'a> {
    display: &'a Display,
    offset: (i32, i32),
    size: (u32, u32),
    border_width: u32,
}

/// The value a [`WindowBuilder`] stands for.
pub ghost struct WindowSettings {
    pub offset: (i32, i32),
    pub size: (u32, u32),
    pub border_width: u32,
}

impl<'a> View for WindowBuilder<'a> {
    type V = WindowSettings;

    closed spec fn view(&self) -> WindowSettings {
        WindowSettings { offset: self.offset, size: self.size, border_width: self.border_width }
    }
}

impl Display {
    /// Settings for a new window: 600 by 400 pixels at the origin, with no
    /// border.
    pub fn new_window(&self) -> (r: WindowBuilder<'_>)
        ensures
            r@ == (WindowSettings { offset: (0, 0), size: (600, 400), border_width: 0 }),
    {
        WindowBuilder { display: self, offset: (0, 0), size: (600, 400), border_width: 0 }
    }
}

impl<'a> WindowBuilder<'a> {
    pub fn size(self, size: (u32, u32)) -> (r: WindowBuilder<'a>)
        ensures
            r@ == (WindowSettings { size, ..self@ }),
    {
        WindowBuilder { size, ..self }
    }

    pub fn offset(self, offset: (i32, i32)) -> (r: WindowBuilder<'a>)
        ensures
            r@ == (WindowSettings { offset, ..self@ }),
    {
        WindowBuilder { offset, ..self }
    }

    pub fn border_width(self, border_width: u32) -> (r: WindowBuilder<'a>)
        ensures
            r@ == (WindowSettings { border_width, ..self@ }),
    {
        WindowBuilder { border_width, ..self }
    }

    /// The chosen offset, size and border width.
    pub fn settings(&self) -> (r: ((i32, i32), (u32, u32), u32))
        ensures
            r == (self@.offset, self@.size, self@.border_width),
    {
        (self.offset, self.size, self.border_width)
    }
}

} // verus!
