//! A background image description. Nothing draws it yet.
use vstd::prelude::*;

verus! {

pub enum ImageSize {
    Cover,
    Contain,
    Dimensions(u32, u32),
}

pub enum ImageRepeat {
    Repeat,
    NoRepeat,
    RepeatX,
    RepeatY,
    Space,
    Round,
}

pub struct Image {
    pub path: Option<String>,
    pub size: ImageSize,
    pub position: (u32, u32),
    pub repeat: ImageRepeat,
}

} // verus!
