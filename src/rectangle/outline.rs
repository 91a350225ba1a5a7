//! The outline: a ring drawn outside the box's extents.
use vstd::prelude::*;

use super::{Rectangle, RectangleModel};

verus! {

#[derive(Clone, Copy, Debug, PartialEq, Eq, Structural)]
pub enum OutlineStyle {
    NoOutline,
    Solid,
    Dotted,
    Dashed,
    Double,
    Groove,
    Ridge,
    Hidden,
}

#[derive(Clone, Copy, Debug, PartialEq, Eq)]
pub struct Outline {
    pub width: i32,
    pub color: [u8; 4],
    pub style: OutlineStyle,
    pub offset: i32,
}

/// No width, no offset, a transparent colour and a solid style.
pub open spec fn default_outline() -> Outline {
    Outline { color: [0u8, 0u8, 0u8, 0u8], width: 0, style: OutlineStyle::Solid, offset: 0 }
}

impl Default for Outline {
    fn default() -> (r: Self)
        ensures
            r == default_outline(),
    {
        Outline { color: [0, 0, 0, 0], width: 0, style: OutlineStyle::Solid, offset: 0 }
    }
}

impl Rectangle {
    pub fn set_outline_width(self, width: i32) -> (r: Self)
        ensures
            r@ == (RectangleModel { outline: Outline { width, ..self@.outline }, ..self@ }),
    {
        Rectangle { outline: Outline { width, ..self.outline }, ..self }
    }

    pub fn set_outline_offset(self, offset: i32) -> (r: Self)
        ensures
            r@ == (RectangleModel { outline: Outline { offset, ..self@.outline }, ..self@ }),
    {
        Rectangle { outline: Outline { offset, ..self.outline }, ..self }
    }

    pub fn set_outline_color(self, r: u8, g: u8, b: u8, a: u8) -> (res: Self)
        ensures
            res@ == (RectangleModel { outline: Outline { color: [r, g, b, a], ..self@.outline }, ..self@ }),
    {
        Rectangle { outline: Outline { color: [r, g, b, a], ..self.outline }, ..self }
    }

    pub fn set_outline_style(self, style: OutlineStyle) -> (r: Self)
        ensures
            r@ == (RectangleModel { outline: Outline { style, ..self@.outline }, ..self@ }),
    {
        Rectangle { outline: Outline { style, ..self.outline }, ..self }
    }
}

} // verus!
