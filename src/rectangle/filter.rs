//! The filter channel handed to the shading stage. Amounts are percentages,
//! `hue_rotate` is in degrees and `blur` in logical pixels.
use vstd::prelude::*;

use super::{premultiplied, premultiply, Rectangle, RectangleModel};

verus! {

impl Rectangle {
    pub fn set_sepia(self, sepia: i32) -> (r: Self)
        ensures
            r@ == (RectangleModel { sepia, ..self@ }),
    {
        Rectangle { sepia, ..self }
    }

    /// Replaces the alpha of the background colour; the stored premultiplied
    /// colour follows.
    pub fn set_opacity(self, opacity: u8) -> (r: Self)
        ensures
            r@ == (RectangleModel {
                color: [self@.color[0], self@.color[1], self@.color[2], opacity],
                background_color: premultiplied([self@.color[0], self@.color[1], self@.color[2], opacity]),
                ..self@
            }),
    {
        let color = [self.color[0], self.color[1], self.color[2], opacity];
        Rectangle { color, background_color: premultiply(color), ..self }
    }

    pub fn set_blur(self, blur: i32) -> (r: Self)
        ensures
            r@ == (RectangleModel { blur, ..self@ }),
    {
        Rectangle { blur, ..self }
    }

    pub fn set_brightness(self, brightness: i32) -> (r: Self)
        ensures
            r@ == (RectangleModel { brightness, ..self@ }),
    {
        Rectangle { brightness, ..self }
    }

    pub fn set_contrast(self, contrast: i32) -> (r: Self)
        ensures
            r@ == (RectangleModel { contrast, ..self@ }),
    {
        Rectangle { contrast, ..self }
    }

    pub fn set_grayscale(self, grayscale: i32) -> (r: Self)
        ensures
            r@ == (RectangleModel { grayscale, ..self@ }),
    {
        Rectangle { grayscale, ..self }
    }

    pub fn set_hue_rotate(self, hue_rotate: i32) -> (r: Self)
        ensures
            r@ == (RectangleModel { hue_rotate, ..self@ }),
    {
        Rectangle { hue_rotate, ..self }
    }

    pub fn set_invert(self, invert: i32) -> (r: Self)
        ensures
            r@ == (RectangleModel { invert, ..self@ }),
    {
        Rectangle { invert, ..self }
    }

    pub fn set_saturate(self, saturate: i32) -> (r: Self)
        ensures
            r@ == (RectangleModel { saturate, ..self@ }),
    {
        Rectangle { saturate, ..self }
    }
}

} // verus!
