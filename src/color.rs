//! Attribute bytes of the 16-colour text palette.
use vstd::prelude::*;

verus! {

/// The attribute byte for a foreground and a background colour: background
/// in the high nibble, the low four bits of the foreground in the low nibble.
pub open spec fn attribute(foreground: u8, background: u8) -> int {
    (background as int % 16) * 16 + foreground as int % 16
}

/// Namespace for the palette and the attribute presets.
pub struct Color;

impl Color {
    pub const BLACK: u8 = 0x0;
    pub const BLUE: u8 = 0x1;
    pub const GREEN: u8 = 0x2;
    pub const CYAN: u8 = 0x3;
    pub const RED: u8 = 0x4;
    pub const MAGENTA: u8 = 0x5;
    pub const BROWN: u8 = 0x6;
    pub const LIGHT_GRAY: u8 = 0x7;
    pub const DARK_GRAY: u8 = 0x8;
    pub const LIGHT_BLUE: u8 = 0x9;
    pub const LIGHT_GREEN: u8 = 0xa;
    pub const LIGHT_CYAN: u8 = 0xb;
    pub const LIGHT_RED: u8 = 0xc;
    pub const LIGHT_MAGENTA: u8 = 0xd;
    pub const YELLOW: u8 = 0xe;
    pub const WHITE: u8 = 0xf;

    /// Packs a foreground and a background colour into one attribute byte.
    /// Bits of the background above its low nibble fall off the byte.
    pub fn make_color(foreground: u8, background: u8) -> (r: u8)
        ensures
            r as int == attribute(foreground, background),
    {
        let r: u8 = (background << 4u8) | (foreground & 0x0Fu8);
        assert(r == ((background << 4u8) | (foreground & 0x0Fu8)));
        assert(((background << 4u8) | (foreground & 0x0Fu8)) as int
            == (background as int % 16) * 16 + foreground as int % 16) by (bit_vector);
        r
    }

    /// Red on black.
    pub fn error() -> (r: u8)
        ensures
            r as int == attribute(Color::RED, Color::BLACK),
            r == 0x04,
    {
        Self::make_color(Self::RED, Self::BLACK)
    }

    /// Yellow on black.
    pub fn warning() -> (r: u8)
        ensures
            r as int == attribute(Color::YELLOW, Color::BLACK),
            r == 0x0e,
    {
        Self::make_color(Self::YELLOW, Self::BLACK)
    }

    /// White on black, the colour of ordinary text.
    pub fn text_write() -> (r: u8)
        ensures
            r as int == attribute(Color::WHITE, Color::BLACK),
            r == 0x0f,
    {
        Self::WHITE
    }
}

} // verus!
