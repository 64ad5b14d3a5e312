//! Colours and text attributes of a cell.
//!
//! Both types list the same variants, under the same names, as the `Color` and
//! `Attribute` enums of crossterm, so that a program which talks to a terminal
//! through crossterm can turn one into the other variant by variant. Here they
//! are plain data: the renderer only ever compares them and hands them on.

use vstd::prelude::*;

verus! {

/// A foreground or background colour.
#[derive(Clone, Copy, Debug, PartialEq, Eq, Structural)]
pub enum Color {
    /// The terminal's own default colour.
    Reset,
    Black,
    DarkGrey,
    Red,
    DarkRed,
    Green,
    DarkGreen,
    Yellow,
    DarkYellow,
    Blue,
    DarkBlue,
    Magenta,
    DarkMagenta,
    Cyan,
    DarkCyan,
    White,
    Grey,
    /// A 24-bit colour.
    Rgb { r: u8, g: u8, b: u8 },
    /// An entry of the 256-colour palette.
    AnsiValue(u8),
}

/// A text attribute: how the character of a cell is drawn, apart from its colours.
#[derive(Clone, Copy, Debug, PartialEq, Eq, Structural)]
pub enum Attribute {
    /// No special style; switches every other attribute off.
    Reset,
    Bold,
    Dim,
    Italic,
    Underlined,
    DoubleUnderlined,
    Undercurled,
    Underdotted,
    Underdashed,
    SlowBlink,
    RapidBlink,
    Reverse,
    Hidden,
    CrossedOut,
    Fraktur,
    NoBold,
    NormalIntensity,
    NoItalic,
    NoUnderline,
    NoBlink,
    NoReverse,
    NoHidden,
    NotCrossedOut,
    Framed,
    Encircled,
    OverLined,
    NotFramedOrEncircled,
    NotOverLined,
}

} // verus!
