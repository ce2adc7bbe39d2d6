//! The fixed color and metric palette widgets draw with.
//!
//! The palette itself is a plain value; loading a font for text measurement
//! is backend work and stays outside the library. `ThemeLoader` is the token
//! an application receives once that work is done.

use vstd::prelude::*;

verus! {

/// An opaque RGB color value handed to the rendering backend.
#[derive(Debug, PartialEq, Eq, Structural, Clone, Copy)]
pub struct Color {
    pub r: u8,
    pub g: u8,
    pub b: u8,
}

impl Color {
    /// Build a color from its three channels.
    pub fn rgb(r: u8, g: u8, b: u8) -> (c: Color)
        ensures
            c == (Color { r, g, b }),
    {
        Color { r, g, b }
    }
}

/// The colors every widget draws with.
#[derive(Debug, PartialEq, Eq, Structural, Clone, Copy)]
pub struct ThemeColor {
    pub background: Color,
    pub light_background: Color,
    pub dark_background: Color,
    pub light_border: Color,
    pub dark_border: Color,
    pub text: Color,
}

/// The default palette.
pub open spec fn spec_theme_color() -> ThemeColor {
    ThemeColor {
        background: Color { r: 0xD4, g: 0xD4, b: 0xD4 },
        light_background: Color { r: 0xFF, g: 0xFF, b: 0xFF },
        dark_background: Color { r: 0xC0, g: 0xC0, b: 0xC0 },
        light_border: Color { r: 0xF0, g: 0xF0, b: 0xF0 },
        dark_border: Color { r: 0x70, g: 0x70, b: 0x70 },
        text: Color { r: 0x00, g: 0x00, b: 0x00 },
    }
}

impl Default for ThemeColor {
    /// The fixed default palette.
    fn default() -> (c: ThemeColor)
        ensures
            c == spec_theme_color(),
    {
        ThemeColor {
            background: Color { r: 0xD4, g: 0xD4, b: 0xD4 },
            light_background: Color { r: 0xFF, g: 0xFF, b: 0xFF },
            dark_background: Color { r: 0xC0, g: 0xC0, b: 0xC0 },
            light_border: Color { r: 0xF0, g: 0xF0, b: 0xF0 },
            dark_border: Color { r: 0x70, g: 0x70, b: 0x70 },
            text: Color { r: 0x00, g: 0x00, b: 0x00 },
        }
    }
}

/// The layout metrics widgets consult.
#[derive(Debug, PartialEq, Eq, Structural, Clone, Copy)]
pub struct ThemeLayout {
    /// Thickness of a scrollbar, and the side of its arrow boxes.
    pub size_scrollbar: u32,
}

/// The default metrics.
pub open spec fn spec_theme_layout() -> ThemeLayout {
    ThemeLayout { size_scrollbar: 20 }
}

impl Default for ThemeLayout {
    /// The fixed default metrics.
    fn default() -> (l: ThemeLayout)
        ensures
            l == spec_theme_layout(),
    {
        ThemeLayout { size_scrollbar: 20 }
    }
}

/// Token proving the theme (in particular its default font) has been loaded.
#[derive(Debug, Clone, Copy)]
pub struct ThemeLoader;

/// Why loading a theme failed.
#[derive(Debug, Clone)]
pub enum ThemeLoadError {
    /// The backend could not load the default font; carries its message.
    LoadFontError(String),
}

impl ThemeLoadError {
    /// A human-readable description of the failure.
    pub fn message(&self) -> (m: String)
        ensures
            self matches ThemeLoadError::LoadFontError(s) ==> m@ == s@,
    {
        match self {
            ThemeLoadError::LoadFontError(s) => s.clone(),
        }
    }
}

/// The active color palette.
pub fn get_theme_color() -> (c: ThemeColor)
    ensures
        c == spec_theme_color(),
{
    ThemeColor::default()
}

/// The active layout metrics.
pub fn get_theme_layout() -> (l: ThemeLayout)
    ensures
        l == spec_theme_layout(),
{
    ThemeLayout::default()
}

/// The widgets' common background color.
pub fn get_background_color() -> (c: Color)
    ensures
        c == spec_theme_color().background,
{
    ThemeColor::default().background
}

/// The highlight border color.
pub fn get_light_border_color() -> (c: Color)
    ensures
        c == spec_theme_color().light_border,
{
    ThemeColor::default().light_border
}

/// The shadow border color.
pub fn get_dark_border_color() -> (c: Color)
    ensures
        c == spec_theme_color().dark_border,
{
    ThemeColor::default().dark_border
}

/// The color text is rendered in.
pub fn get_text_color() -> (c: Color)
    ensures
        c == spec_theme_color().text,
{
    ThemeColor::default().text
}

} // verus!
