//! The per-surface style and placement: which screen edge the bar sits on, how
//! thick it is, its margins, its stacking layer and its background colour.
use vstd::prelude::*;

verus! {

/// The screen edge a surface sits on.
#[derive(Clone, Copy, Debug, PartialEq, Eq, Structural)]
pub enum Position {
    Left,
    Right,
    Top,
    Bottom,
}

#[derive(Clone, Copy, Debug, PartialEq, Eq, Structural)]
pub struct Margin {
    pub left: u32,
    pub right: u32,
    pub top: u32,
    pub bottom: u32,
}

impl Default for Margin {
    fn default() -> (r: Self)
        ensures
            r == (Margin { left: 0, right: 0, top: 0, bottom: 0 }),
    {
        Margin { left: 0, right: 0, top: 0, bottom: 0 }
    }
}

/// The compositor's stacking layers, from the lowest to the highest.
#[derive(Clone, Copy, Debug, PartialEq, Eq, Structural)]
pub enum Layer {
    Background,
    Bottom,
    Top,
    Overlay,
}

/// The set of screen edges a surface is pinned to.
#[derive(Clone, Copy, Debug, PartialEq, Eq, Structural)]
pub struct Anchor {
    pub top: bool,
    pub bottom: bool,
    pub left: bool,
    pub right: bool,
}

/// The edges a surface at `position` is pinned to: its own edge and the two
/// edges across it, so that it spans the whole side of the screen.
pub open spec fn anchor_for(position: Position) -> Anchor {
    match position {
        Position::Top => Anchor { top: true, bottom: false, left: true, right: true },
        Position::Bottom => Anchor { top: false, bottom: true, left: true, right: true },
        Position::Left => Anchor { top: true, bottom: true, left: true, right: false },
        Position::Right => Anchor { top: true, bottom: true, left: false, right: true },
    }
}

/// A length reported by the compositor, negative values taken as zero.
pub open spec fn length_of(v: i32) -> u32 {
    if v < 0 {
        0
    } else {
        v as u32
    }
}

/// The surface size to request on an output of the given logical size: the full
/// length of the side the bar sits on, and `size` across it.
pub open spec fn surface_size_for(config: Config, width: i32, height: i32) -> (u32, u32) {
    match config.position {
        Position::Top | Position::Bottom => (length_of(width), config.size),
        Position::Left | Position::Right => (config.size, length_of(height)),
    }
}

#[derive(Clone, Copy, Debug, PartialEq, Eq)]
pub struct Config {
    /// Thickness of the bar across the edge it sits on, in logical pixels.
    pub size: u32,
    pub margin: Margin,
    pub position: Position,
    pub layer: Layer,
    /// Straight-alpha RGBA.
    pub background_color: [u8; 4],
}

/// The configuration a new surface starts with.
pub open spec fn default_config() -> Config {
    Config {
        size: 500,
        margin: Margin { left: 0, right: 0, top: 0, bottom: 0 },
        position: Position::Left,
        layer: Layer::Top,
        background_color: [0u8, 0u8, 0u8, 0u8],
    }
}

impl Default for Config {
    fn default() -> (r: Self)
        ensures
            r == default_config(),
    {
        Config {
            size: 500,
            margin: Margin::default(),
            position: Position::Left,
            layer: Layer::Top,
            background_color: [0, 0, 0, 0],
        }
    }
}

impl Config {
    pub fn anchor(&self) -> (r: Anchor)
        ensures
            r == anchor_for(self.position),
    {
        match self.position {
            Position::Top => Anchor { top: true, bottom: false, left: true, right: true },
            Position::Bottom => Anchor { top: false, bottom: true, left: true, right: true },
            Position::Left => Anchor { top: true, bottom: true, left: true, right: false },
            Position::Right => Anchor { top: true, bottom: true, left: false, right: true },
        }
    }

    pub fn surface_size(&self, width: i32, height: i32) -> (r: (u32, u32))
        ensures
            r == surface_size_for(*self, width, height),
    {
        let w: u32 = if width < 0 { 0 } else { width as u32 };
        let h: u32 = if height < 0 { 0 } else { height as u32 };
        match self.position {
            Position::Top | Position::Bottom => (w, self.size),
            Position::Left | Position::Right => (self.size, h),
        }
    }
}

} // verus!
