//! Border widths, corner radii, colour and style of a box.
use vstd::prelude::*;

use super::{Rectangle, RectangleModel};

verus! {

#[derive(Clone, Copy, Debug, PartialEq, Eq, Structural)]
pub enum BorderStyle {
    NoBorder,
    Solid,
    Dotted,
    Dashed,
    Double,
    Groove,
    Ridge,
    Inset,
    Outset,
    Hidden,
}

#[derive(Clone, Copy, Debug, PartialEq, Eq, Structural)]
pub struct BorderRadius {
    pub top_left: i32,
    pub top_right: i32,
    pub bottom_left: i32,
    pub bottom_right: i32,
}

impl BorderRadius {
    pub fn to_array(&self) -> (r: [i32; 4])
        ensures
            r == [self.top_left, self.top_right, self.bottom_left, self.bottom_right],
    {
        [self.top_left, self.top_right, self.bottom_left, self.bottom_right]
    }
}

impl Default for BorderRadius {
    fn default() -> (r: Self)
        ensures
            r == (BorderRadius { top_left: 0, top_right: 0, bottom_left: 0, bottom_right: 0 }),
    {
        BorderRadius { top_left: 0, top_right: 0, bottom_left: 0, bottom_right: 0 }
    }
}

#[derive(Clone, Copy, Debug, PartialEq, Eq, Structural)]
pub struct BorderSize {
    pub top: i32,
    pub right: i32,
    pub bottom: i32,
    pub left: i32,
}

impl BorderSize {
    pub fn to_array(&self) -> (r: [i32; 4])
        ensures
            r == [self.top, self.right, self.bottom, self.left],
    {
        [self.top, self.right, self.bottom, self.left]
    }
}

impl Default for BorderSize {
    fn default() -> (r: Self)
        ensures
            r == (BorderSize { top: 0, right: 0, bottom: 0, left: 0 }),
    {
        BorderSize { top: 0, right: 0, bottom: 0, left: 0 }
    }
}

#[derive(Clone, Copy, Debug, PartialEq, Eq)]
pub struct Border {
    pub radius: BorderRadius,
    pub size: BorderSize,
    pub color: [u8; 4],
    pub style: BorderStyle,
}

/// No radius, no width, a transparent colour and a solid style.
pub open spec fn default_border() -> Border {
    Border {
        radius: BorderRadius { top_left: 0, top_right: 0, bottom_left: 0, bottom_right: 0 },
        size: BorderSize { top: 0, right: 0, bottom: 0, left: 0 },
        color: [0u8, 0u8, 0u8, 0u8],
        style: BorderStyle::Solid,
    }
}

impl Default for Border {
    fn default() -> (r: Self)
        ensures
            r == default_border(),
    {
        Border {
            radius: BorderRadius::default(),
            color: [0, 0, 0, 0],
            size: BorderSize::default(),
            style: BorderStyle::Solid,
        }
    }
}

impl Rectangle {
    pub fn set_border_size(self, top: i32, right: i32, bottom: i32, left: i32) -> (r: Self)
        ensures
            r@ == (RectangleModel {
                border: Border { size: BorderSize { top, right, bottom, left }, ..self@.border },
                ..self@
            }),
    {
        Rectangle {
            border: Border { size: BorderSize { top, right, bottom, left }, ..self.border },
            ..self
        }
    }

    pub fn set_border_color(self, r: u8, g: u8, b: u8, a: u8) -> (res: Self)
        ensures
            res@ == (RectangleModel { border: Border { color: [r, g, b, a], ..self@.border }, ..self@ }),
    {
        Rectangle { border: Border { color: [r, g, b, a], ..self.border }, ..self }
    }

    pub fn set_border_style(self, style: BorderStyle) -> (r: Self)
        ensures
            r@ == (RectangleModel { border: Border { style, ..self@.border }, ..self@ }),
    {
        Rectangle { border: Border { style, ..self.border }, ..self }
    }

    /// Sets the corner radii, clockwise from the top-left corner.
    pub fn set_border_radius(
        self,
        top_left: i32,
        top_right: i32,
        bottom_right: i32,
        bottom_left: i32,
    ) -> (r: Self)
        ensures
            r@ == (RectangleModel {
                border: Border {
                    radius: BorderRadius { top_left, top_right, bottom_left, bottom_right },
                    ..self@.border
                },
                ..self@
            }),
    {
        Rectangle {
            border: Border {
                radius: BorderRadius { top_left, top_right, bottom_right, bottom_left },
                ..self.border
            },
            ..self
        }
    }
}

} // verus!
