//! The 2D transform of a box: scale in percent, angles in degrees, translation in
//! logical pixels.
use vstd::prelude::*;

use super::{Rectangle, RectangleModel};

verus! {

impl Rectangle {
    pub fn set_scale(self, x: i32, y: i32) -> (r: Self)
        ensures
            r@ == (RectangleModel { scale: [x, y], ..self@ }),
    {
        Rectangle { scale: [x, y], ..self }
    }

    pub fn set_skew(self, x: i32, y: i32) -> (r: Self)
        ensures
            r@ == (RectangleModel { skew: [x, y], ..self@ }),
    {
        Rectangle { skew: [x, y], ..self }
    }

    pub fn set_rotate(self, rotation: i32) -> (r: Self)
        ensures
            r@ == (RectangleModel { rotate: rotation, ..self@ }),
    {
        Rectangle { rotate: rotation, ..self }
    }

    pub fn set_translate(self, translate: [i32; 2]) -> (r: Self)
        ensures
            r@ == (RectangleModel { translate, ..self@ }),
    {
        Rectangle { translate, ..self }
    }
}

} // verus!
