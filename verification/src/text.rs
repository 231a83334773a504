//! Plain data describing styled text: fonts, colors, alignment. The glyph
//! rasterization and GPU work that consumes these values is presentation
//! and lives outside this library.

use vstd::prelude::*;

verus! {

/// A typeface at a pixel size.
#[derive(Debug, Clone, Copy, PartialEq, Eq, Structural, Hash)]
pub enum Font {
    SpaceMono400(u32),
}

impl Font {
    /// The pixel size this font is rasterized at.
    pub fn size(&self) -> (r: u32)
        ensures
            *self matches Font::SpaceMono400(size) && r == size,
    {
        match self {
            Font::SpaceMono400(size) => *size,
        }
    }
}

/// Why a glyph could not be rasterized.
#[derive(Debug, Clone, Copy, PartialEq, Eq, Structural)]
pub enum RasterizationError {
    NoTextureSpace,
}

/// A character together with the font it is drawn in.
#[derive(Debug, Clone, Copy, PartialEq, Eq, Structural, Hash)]
pub struct StyledCharacter {
    pub character: char,
    pub font: Font,
}

/// An RGBA color, one byte per channel.
#[derive(Debug, Clone, Copy, PartialEq, Eq, Structural)]
pub struct Color {
    pub red: u8,
    pub green: u8,
    pub blue: u8,
    pub alpha: u8,
}

impl Color {
    pub fn new(red: u8, green: u8, blue: u8, alpha: u8) -> (r: Self)
        ensures
            r == (Color { red, green, blue, alpha }),
    {
        Self { red, green, blue, alpha }
    }
}

/// A run of text in one font and color.
#[derive(Debug, Clone, Copy)]
pub struct StyledText<'a> {
    pub text: &'a str,
    pub font: Font,
    pub color: Color,
}

impl<'a> StyledText<'a> {
    /// The default styling: opaque white at size 60.
    pub fn default_styling(text: &'a str) -> (r: Self)
        ensures
            r.text@ == text@,
            r.font == Font::SpaceMono400(60u32),
            r.color == (Color { red: 255u8, green: 255u8, blue: 255u8, alpha: 255u8 }),
    {
        Self { text, font: Font::SpaceMono400(60), color: Color::new(255, 255, 255, 255) }
    }
}

/// Where to align on one axis, in pixels: the start, end or center of the
/// text box pinned to the coordinate, or centered in the window.
#[derive(Debug, Clone, Copy, PartialEq, Eq, Structural)]
pub enum AxisAlign {
    Start(i32),
    End(i32),
    Center(i32),
    WindowCenter,
}

impl Default for AxisAlign {
    /// Aligned to the start at coordinate zero.
    fn default() -> (r: Self)
        ensures
            r == AxisAlign::Start(0i32),
    {
        AxisAlign::Start(0)
    }
}

/// Alignment for a block of text. Maximum width and height are optional
/// and default to the window dimensions.
#[derive(Debug, Clone, Copy, PartialEq, Eq, Structural)]
pub struct TextAlignment {
    pub x: AxisAlign,
    pub y: AxisAlign,
    pub max_width: Option<u32>,
    pub max_height: Option<u32>,
}

impl Default for TextAlignment {
    /// Both axes at their default, no size cap.
    fn default() -> (r: Self)
        ensures
            r == (TextAlignment {
                x: AxisAlign::Start(0i32),
                y: AxisAlign::Start(0i32),
                max_width: None::<u32>,
                max_height: None::<u32>,
            }),
    {
        TextAlignment { x: AxisAlign::Start(0), y: AxisAlign::Start(0), max_width: None, max_height: None }
    }
}

impl TextAlignment {
    pub fn new(x: AxisAlign, y: AxisAlign) -> (r: Self)
        ensures
            r == (TextAlignment { x, y, max_width: None::<u32>, max_height: None::<u32> }),
    {
        Self { x, y, max_width: None, max_height: None }
    }

    /// Pin the top-left corner of the text box to the given pixel.
    pub fn left_top(x: i32, y: i32) -> (r: Self)
        ensures
            r == (TextAlignment {
                x: AxisAlign::Start(x),
                y: AxisAlign::Start(y),
                max_width: None::<u32>,
                max_height: None::<u32>,
            }),
    {
        Self { x: AxisAlign::Start(x), y: AxisAlign::Start(y), max_width: None, max_height: None }
    }
}

} // verus!
