//! Colours and text emphasis.

use vstd::prelude::*;

verus! {

/// A terminal colour.
#[derive(Clone, Copy, Debug, PartialEq, Eq, Structural)]
pub enum Color {
    Reset,
    Black,
    Red,
    Green,
    Yellow,
    Blue,
    Magenta,
    Cyan,
    Gray,
    DarkGray,
    LightRed,
    LightGreen,
    LightYellow,
    LightBlue,
    LightMagenta,
    LightCyan,
    White,
    Rgb(u8, u8, u8),
    Indexed(u8),
}

/// A way of emphasising text.
#[derive(Clone, Copy, Debug, PartialEq, Eq, Structural)]
pub enum Modifier {
    Bold,
    Dim,
    Italic,
    Underlined,
    SlowBlink,
    RapidBlink,
    Reversed,
    Hidden,
    CrossedOut,
}

/// How a piece of the screen looks: each part that is `None` leaves what
/// is on the screen as it is.
#[derive(Clone, Copy, Debug, PartialEq, Eq, Structural)]
pub struct Style {
    pub fg: Option<Color>,
    pub bg: Option<Color>,
    pub modifier: Option<Modifier>,
}

impl Style {
    /// The style with the foreground colour `color`.
    pub fn fg(self, color: Color) -> (style: Style)
        ensures
            style == (Style { fg: Some(color), ..self }),
    {
        Style { fg: Some(color), bg: self.bg, modifier: self.modifier }
    }

    /// The style with the background colour `color`.
    pub fn bg(self, color: Color) -> (style: Style)
        ensures
            style == (Style { bg: Some(color), ..self }),
    {
        Style { fg: self.fg, bg: Some(color), modifier: self.modifier }
    }

    /// The style with the emphasis `modifier`.
    pub fn add_modifier(self, modifier: Modifier) -> (style: Style)
        ensures
            style == (Style { modifier: Some(modifier), ..self }),
    {
        Style { fg: self.fg, bg: self.bg, modifier: Some(modifier) }
    }

    /// The style that changes nothing.
    pub open spec fn plain() -> Style {
        Style { fg: None, bg: None, modifier: None }
    }
}

impl Default for Style {
    fn default() -> (style: Style)
        ensures
            style == Style::plain(),
    {
        Style { fg: None, bg: None, modifier: None }
    }
}

} // verus!
