//! The box model: one styled rectangle, its extents and its GPU instance record.
//!
//! Lengths are logical pixels. Colours are RGBA with 8 bits per channel, where an
//! alpha of 255 is fully opaque. Filter amounts and scale factors are percentages
//! (100 is the identity), angles are degrees.
use vstd::prelude::*;

pub mod border;
pub mod filter;
pub mod image;
pub mod outline;
pub mod transform;

use crate::buffers::Instance;
pub use border::{Border, BorderRadius, BorderSize, BorderStyle};
pub use outline::{Outline, OutlineStyle};

verus! {

/// Whether padding and border are added to the authored size (`ContentBox`) or
/// carved out of it (`BorderBox`).
#[derive(Clone, Copy, Debug, PartialEq, Eq, Structural)]
pub enum BoxSizing {
    ContentBox,
    BorderBox,
}

#[derive(Clone, Copy, Debug, PartialEq, Eq)]
pub struct BoxShadow {
    pub x_offset: i32,
    pub y_offset: i32,
    pub softness: i32,
    pub color: [u8; 4],
    pub inset: bool,
}

impl Default for BoxShadow {
    fn default() -> (r: Self)
        ensures
            r == (BoxShadow { x_offset: 0, y_offset: 0, softness: 0, color: [0u8, 0u8, 0u8, 0u8], inset: false }),
    {
        BoxShadow { x_offset: 0, y_offset: 0, softness: 0, color: [0, 0, 0, 0], inset: false }
    }
}

#[derive(Clone, Copy, Debug, PartialEq, Eq, Structural)]
pub struct PaddingSize {
    pub top: i32,
    pub right: i32,
    pub bottom: i32,
    pub left: i32,
}

impl PaddingSize {
    pub fn to_array(&self) -> (r: [i32; 4])
        ensures
            r == [self.top, self.right, self.bottom, self.left],
    {
        [self.top, self.right, self.bottom, self.left]
    }
}

impl Default for PaddingSize {
    fn default() -> (r: Self)
        ensures
            r == (PaddingSize { top: 0, right: 0, bottom: 0, left: 0 }),
    {
        PaddingSize { top: 0, right: 0, bottom: 0, left: 0 }
    }
}

/// The layout rectangle of a box: its position and its effective size.
#[derive(Clone, Copy, Debug, PartialEq, Eq, Structural)]
pub struct Extents {
    pub x: i64,
    pub y: i64,
    pub width: i64,
    pub height: i64,
}

/// One visual box. Its fields are set through the builder-style setters and read
/// through `get_extents` and `get_instance`.
#[derive(Clone, Copy, Debug)]
pub struct Rectangle {
    x: i32,
    y: i32,
    width: i32,
    height: i32,
    color: [u8; 4],
    background_color: [u8; 4],
    padding: PaddingSize,
    box_sizing: BoxSizing,
    border: Border,
    outline: Outline,
    box_shadow: BoxShadow,
    blur: i32,
    brightness: i32,
    contrast: i32,
    grayscale: i32,
    hue_rotate: i32,
    invert: i32,
    saturate: i32,
    sepia: i32,
    scale: [i32; 2],
    rotate: i32,
    skew: [i32; 2],
    translate: [i32; 2],
}

/// What a `Rectangle` holds. `color` is the background colour as it was set;
/// `background_color` is the same colour premultiplied by its alpha, the only form
/// that reaches the instance record.
pub struct RectangleModel {
    pub x: i32,
    pub y: i32,
    pub width: i32,
    pub height: i32,
    pub color: [u8; 4],
    pub background_color: [u8; 4],
    pub padding: PaddingSize,
    pub box_sizing: BoxSizing,
    pub border: Border,
    pub outline: Outline,
    pub box_shadow: BoxShadow,
    pub blur: i32,
    pub brightness: i32,
    pub contrast: i32,
    pub grayscale: i32,
    pub hue_rotate: i32,
    pub invert: i32,
    pub saturate: i32,
    pub sepia: i32,
    pub scale: [i32; 2],
    pub rotate: i32,
    pub skew: [i32; 2],
    pub translate: [i32; 2],
}

impl View for Rectangle {
    type V = RectangleModel;

    closed spec fn view(&self) -> RectangleModel {
        RectangleModel {
            x: self.x,
            y: self.y,
            width: self.width,
            height: self.height,
            color: self.color,
            background_color: self.background_color,
            padding: self.padding,
            box_sizing: self.box_sizing,
            border: self.border,
            outline: self.outline,
            box_shadow: self.box_shadow,
            blur: self.blur,
            brightness: self.brightness,
            contrast: self.contrast,
            grayscale: self.grayscale,
            hue_rotate: self.hue_rotate,
            invert: self.invert,
            saturate: self.saturate,
            sepia: self.sepia,
            scale: self.scale,
            rotate: self.rotate,
            skew: self.skew,
            translate: self.translate,
        }
    }
}

/// One colour channel scaled by an alpha in `0..=255`, rounded to the nearest integer.
pub open spec fn scale_channel(c: u8, a: u8) -> u8 {
    ((c * a + 127) / 255) as u8
}

/// A straight-alpha colour turned into its premultiplied form.
pub open spec fn premultiplied(c: [u8; 4]) -> [u8; 4] {
    [scale_channel(c[0], c[3]), scale_channel(c[1], c[3]), scale_channel(c[2], c[3]), c[3]]
}

fn scale_by_alpha(c: u8, a: u8) -> (r: u8)
    ensures
        r == scale_channel(c, a),
        r as int == (c * a + 127) / 255,
{
    assert((c as u32) * (a as u32) <= 255 * 255) by (nonlinear_arith)
        requires
            c <= 255,
            a <= 255,
    ;
    let p: u32 = (c as u32) * (a as u32) + 127;
    (p / 255) as u8
}

/// Multiplies the colour channels of `c` by its alpha channel.
pub fn premultiply(c: [u8; 4]) -> (r: [u8; 4])
    ensures
        r == premultiplied(c),
{
    [scale_by_alpha(c[0], c[3]), scale_by_alpha(c[1], c[3]), scale_by_alpha(c[2], c[3]), c[3]]
}

/// Premultiplying by a full alpha leaves every channel as it is, so applying it
/// to a colour that is already premultiplied, with alpha 255, changes nothing.
pub proof fn premultiply_opaque_is_identity(r: u8, g: u8, b: u8)
    ensures
        premultiplied([r, g, b, 255u8]) == [r, g, b, 255u8],
{
    assert forall|c: u8| scale_channel(c, 255u8) == c by {
        assert((c * 255 + 127) / 255 == c as int) by (nonlinear_arith);
    }
    assert(scale_channel(r, 255u8) == r);
    assert(scale_channel(g, 255u8) == g);
    assert(scale_channel(b, 255u8) == b);
}

/// The extents of a box: `ContentBox` adds padding and border widths to the
/// authored size, `BorderBox` keeps it; the position passes through.
pub open spec fn extents_of(m: RectangleModel) -> Extents {
    match m.box_sizing {
        BoxSizing::ContentBox => Extents {
            x: m.x as i64,
            y: m.y as i64,
            width: (m.width + m.padding.left + m.padding.right + m.border.size.left
                + m.border.size.right) as i64,
            height: (m.height + m.padding.top + m.padding.bottom + m.border.size.top
                + m.border.size.bottom) as i64,
        },
        BoxSizing::BorderBox => Extents {
            x: m.x as i64,
            y: m.y as i64,
            width: m.width as i64,
            height: m.height as i64,
        },
    }
}

/// How far the draw rectangle reaches past the extents on each side.
pub open spec fn outline_reach(m: RectangleModel) -> int {
    m.outline.width + m.outline.offset
}

/// The instance record of a box.
pub open spec fn instance_of(m: RectangleModel) -> Instance {
    let e = extents_of(m);
    let grow = outline_reach(m);
    Instance {
        dimensions: [
            (e.x - grow) as i64,
            (e.y - grow) as i64,
            (e.width + 2 * grow) as i64,
            (e.height + 2 * grow) as i64,
        ],
        color: m.background_color,
        border_radius: [
            m.border.radius.top_left,
            m.border.radius.top_right,
            m.border.radius.bottom_left,
            m.border.radius.bottom_right,
        ],
        border_size: [m.border.size.top, m.border.size.right, m.border.size.bottom, m.border.size.left],
        border_color: m.border.color,
        outline: [m.outline.width, m.outline.offset],
        outline_color: m.outline.color,
        filter: [m.brightness, m.saturate, m.contrast, m.invert],
        grayscale: m.grayscale,
        scale: m.scale,
        rotation: m.rotate,
        translate: m.translate,
        skew: m.skew,
    }
}

/// The box that `Rectangle::default` gives.
pub open spec fn default_model() -> RectangleModel {
    RectangleModel {
        x: 0,
        y: 0,
        width: 1,
        height: 1,
        color: [0u8, 0u8, 0u8, 0u8],
        background_color: [0u8, 0u8, 0u8, 0u8],
        padding: PaddingSize { top: 0, right: 0, bottom: 0, left: 0 },
        box_sizing: BoxSizing::ContentBox,
        border: border::default_border(),
        outline: outline::default_outline(),
        box_shadow: BoxShadow { x_offset: 0, y_offset: 0, softness: 0, color: [0u8, 0u8, 0u8, 0u8], inset: false },
        blur: 0,
        brightness: 0,
        contrast: 100,
        grayscale: 0,
        hue_rotate: 0,
        invert: 0,
        saturate: 100,
        sepia: 0,
        scale: [100i32, 100i32],
        rotate: 0,
        skew: [0i32, 0i32],
        translate: [0i32, 0i32],
    }
}

impl Rectangle {
    pub fn set_coordinates(self, x: i32, y: i32) -> (r: Self)
        ensures
            r@ == (RectangleModel { x, y, ..self@ }),
    {
        Rectangle { x, y, ..self }
    }

    pub fn set_boxshadow_offset(self, x_offset: i32, y_offset: i32) -> (r: Self)
        ensures
            r@ == (RectangleModel { box_shadow: BoxShadow { x_offset, y_offset, ..self@.box_shadow }, ..self@ }),
    {
        Rectangle { box_shadow: BoxShadow { x_offset, y_offset, ..self.box_shadow }, ..self }
    }

    pub fn set_boxshadow_softness(self, softness: i32) -> (r: Self)
        ensures
            r@ == (RectangleModel { box_shadow: BoxShadow { softness, ..self@.box_shadow }, ..self@ }),
    {
        Rectangle { box_shadow: BoxShadow { softness, ..self.box_shadow }, ..self }
    }

    pub fn set_boxshadow_color(self, r: u8, g: u8, b: u8, a: u8) -> (res: Self)
        ensures
            res@ == (RectangleModel { box_shadow: BoxShadow { color: [r, g, b, a], ..self@.box_shadow }, ..self@ }),
    {
        Rectangle { box_shadow: BoxShadow { color: [r, g, b, a], ..self.box_shadow }, ..self }
    }

    pub fn set_size(self, width: i32, height: i32) -> (r: Self)
        ensures
            r@ == (RectangleModel { width, height, ..self@ }),
    {
        Rectangle { width, height, ..self }
    }

    pub fn set_box_sizing(self, box_sizing: BoxSizing) -> (r: Self)
        ensures
            r@ == (RectangleModel { box_sizing, ..self@ }),
    {
        Rectangle { box_sizing, ..self }
    }

    pub fn set_padding(self, top: i32, right: i32, bottom: i32, left: i32) -> (r: Self)
        ensures
            r@ == (RectangleModel { padding: PaddingSize { top, right, bottom, left }, ..self@ }),
    {
        Rectangle { padding: PaddingSize { top, right, bottom, left }, ..self }
    }

    /// Sets the background colour. It is stored premultiplied:
    /// `[r·a, g·a, b·a, a]`, each product divided by 255 and rounded.
    pub fn set_background_color(self, r: u8, g: u8, b: u8, a: u8) -> (res: Self)
        ensures
            res@ == (RectangleModel {
                color: [r, g, b, a],
                background_color: premultiplied([r, g, b, a]),
                ..self@
            }),
            res@.background_color == [scale_channel(r, a), scale_channel(g, a), scale_channel(b, a), a],
    {
        let color = [r, g, b, a];
        Rectangle { color, background_color: premultiply(color), ..self }
    }

    /// The stored background colour, premultiplied by its alpha.
    pub fn background_color(&self) -> (r: [u8; 4])
        ensures
            r == self@.background_color,
    {
        self.background_color
    }

    pub fn get_extents(&self) -> (r: Extents)
        ensures
            r == extents_of(self@),
            r.x == self@.x,
            r.y == self@.y,
            self@.box_sizing == BoxSizing::ContentBox ==> {
                &&& r.width == self@.width + self@.padding.left + self@.padding.right
                    + self@.border.size.left + self@.border.size.right
                &&& r.height == self@.height + self@.padding.top + self@.padding.bottom
                    + self@.border.size.top + self@.border.size.bottom
            },
            self@.box_sizing == BoxSizing::BorderBox ==> r.width == self@.width && r.height
                == self@.height,
    {
        let (width, height) = match self.box_sizing {
            BoxSizing::ContentBox => (
                self.width as i64 + self.padding.left as i64 + self.padding.right as i64
                    + self.border.size.left as i64 + self.border.size.right as i64,
                self.height as i64 + self.padding.top as i64 + self.padding.bottom as i64
                    + self.border.size.top as i64 + self.border.size.bottom as i64,
            ),
            BoxSizing::BorderBox => (self.width as i64, self.height as i64),
        };
        Extents { x: self.x as i64, y: self.y as i64, width, height }
    }

    /// The instance record: the extents grown by `outline.width + outline.offset`
    /// on every side, then the colours, radii, border widths, outline, filters and
    /// transform as they are stored.
    pub fn get_instance(&self) -> (r: Instance)
        ensures
            r == instance_of(self@),
            r.dimensions[0] == extents_of(self@).x - outline_reach(self@),
            r.dimensions[1] == extents_of(self@).y - outline_reach(self@),
            r.dimensions[2] == extents_of(self@).width + 2 * outline_reach(self@),
            r.dimensions[3] == extents_of(self@).height + 2 * outline_reach(self@),
            r.color == self@.background_color,
    {
        let extents = self.get_extents();
        let grow: i64 = self.outline.width as i64 + self.outline.offset as i64;
        let x = extents.x - grow;
        let y = extents.y - grow;
        let width = extents.width + grow * 2;
        let height = extents.height + grow * 2;
        Instance {
            dimensions: [x, y, width, height],
            color: self.background_color,
            border_radius: self.border.radius.to_array(),
            border_size: self.border.size.to_array(),
            border_color: self.border.color,
            outline: [self.outline.width, self.outline.offset],
            outline_color: self.outline.color,
            filter: [self.brightness, self.saturate, self.contrast, self.invert],
            grayscale: self.grayscale,
            scale: self.scale,
            rotation: self.rotate,
            translate: self.translate,
            skew: self.skew,
        }
    }
}

impl Default for Rectangle {
    fn default() -> (r: Self)
        ensures
            r@ == default_model(),
    {
        Rectangle {
            blur: 0,
            x: 0,
            y: 0,
            width: 1,
            height: 1,
            padding: PaddingSize::default(),
            color: [0, 0, 0, 0],
            background_color: [0, 0, 0, 0],
            border: Border::default(),
            outline: Outline::default(),
            box_sizing: BoxSizing::ContentBox,
            box_shadow: BoxShadow::default(),
            brightness: 0,
            contrast: 100,
            grayscale: 0,
            hue_rotate: 0,
            invert: 0,
            saturate: 100,
            sepia: 0,
            scale: [100, 100],
            rotate: 0,
            skew: [0, 0],
            translate: [0, 0],
        }
    }
}

} // verus!
