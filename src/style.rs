//! Styling available through ANSI escape codes

use vstd::prelude::*;

use crate::color::Color;

verus! {

/// Collection of styling information for terminal-based output
#[derive(Debug, Clone, Copy, PartialEq, Eq, Structural)]
pub struct Style {
    /// Color of the text, if provided
    pub foreground: Option<Color>,
    /// Background color behind the text, if provided
    pub background: Option<Color>,
    /// Whether the text foreground and background colors are swapped
    pub inverse: bool,
    /// Whether the text is bold
    pub bold: bool,
    /// Whether the text is faint (decreased intensity); this does not override boldness
    pub faint: bool,
    /// Whether the text is italicized
    pub italic: bool,
    /// Underline style, if the text is underlined
    pub underline: Option<UnderlineStyle>,
    /// Whether the text has a strikethrough
    pub strikethrough: bool,
}

/// Styling for an underline: by default, an unspecified color and a straight shape
#[derive(Debug, Clone, Copy, PartialEq, Eq, Structural)]
pub struct UnderlineStyle {
    /// Color of the underline, if specified
    pub color: Option<Color>,
    /// Shape of the underline
    pub style: UnderlineShape,
}

/// The shape of the underline underneath some text; terminals that cannot draw a shape
/// fall back to `Straight`
#[derive(Debug, Clone, Copy, PartialEq, Eq, Structural)]
pub enum UnderlineShape {
    /// Normal, straight underlines (the default)
    Straight,
    /// Two straight lines instead of one
    Double,
    /// Wiggly underlines
    Curly,
    /// Dotted underlining
    Dotted,
    /// Dashed underlining
    Dashed,
}

impl Default for UnderlineShape {
    fn default() -> (r: Self)
        ensures
            r == UnderlineShape::Straight,
    {
        UnderlineShape::Straight
    }
}

impl Default for UnderlineStyle {
    fn default() -> (r: Self)
        ensures
            r == (UnderlineStyle { color: None, style: UnderlineShape::Straight }),
    {
        UnderlineStyle { color: None, style: UnderlineShape::Straight }
    }
}

impl Default for Style {
    fn default() -> (r: Self)
        ensures
            r == Style::plain(),
    {
        Style::new()
    }
}

impl Style {
    /// The style with no color, no underline and every flag off
    pub open spec fn plain() -> Style {
        Style {
            foreground: None,
            background: None,
            inverse: false,
            bold: false,
            faint: false,
            italic: false,
            underline: None,
            strikethrough: false,
        }
    }

    /// Returns a `Style` equivalent to the default
    pub fn new() -> (r: Self)
        ensures
            r == Style::plain(),
    {
        Style {
            foreground: None,
            background: None,
            inverse: false,
            bold: false,
            faint: false,
            italic: false,
            underline: None,
            strikethrough: false,
        }
    }

    /// Sets the foreground color of the text, or removes it if the color is `None`
    pub fn foreground(self, color: Option<Color>) -> (r: Self)
        ensures
            r == (Style { foreground: color, ..self }),
    {
        Style { foreground: color, ..self }
    }

    /// Sets the background color of the text, or removes it if the color is `None`
    pub fn background(self, color: Option<Color>) -> (r: Self)
        ensures
            r == (Style { background: color, ..self }),
    {
        Style { background: color, ..self }
    }

    /// Sets whether the foreground and background colors are swapped
    pub fn inverse(self, enabled: bool) -> (r: Self)
        ensures
            r == (Style { inverse: enabled, ..self }),
    {
        Style { inverse: enabled, ..self }
    }

    /// Sets whether the text is bold
    pub fn bold(self, enabled: bool) -> (r: Self)
        ensures
            r == (Style { bold: enabled, ..self }),
    {
        Style { bold: enabled, ..self }
    }

    /// Sets whether the text is faint (decreased intensity); this does not override boldness
    pub fn faint(self, enabled: bool) -> (r: Self)
        ensures
            r == (Style { faint: enabled, ..self }),
    {
        Style { faint: enabled, ..self }
    }

    /// Sets whether the text is italicized
    pub fn italic(self, enabled: bool) -> (r: Self)
        ensures
            r == (Style { italic: enabled, ..self }),
    {
        Style { italic: enabled, ..self }
    }

    /// Sets the underlining style of the text, or removes it if the style is `None`
    pub fn underline(self, style: Option<UnderlineStyle>) -> (r: Self)
        ensures
            r == (Style { underline: style, ..self }),
    {
        Style { underline: style, ..self }
    }

    /// Sets whether the text has a strikethrough
    pub fn strikethrough(self, enabled: bool) -> (r: Self)
        ensures
            r == (Style { strikethrough: enabled, ..self }),
    {
        Style { strikethrough: enabled, ..self }
    }
}

} // verus!
