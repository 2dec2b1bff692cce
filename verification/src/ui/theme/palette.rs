//! Colors, palettes and the themes that provide them.
use vstd::prelude::*;

use crate::storage::config::IconColorChoice;

verus! {

/// A terminal color: a named one or an RGB triple.
#[derive(Debug, Clone, Copy, PartialEq, Eq, Structural)]
pub enum Color {
    Red,
    Green,
    Blue,
    Yellow,
    Magenta,
    Cyan,
    White,
    Rgb(u8, u8, u8),
}

/// The colors of a theme.
#[derive(Debug, Clone, Copy, PartialEq, Eq, Structural)]
pub struct ThemePalette {
    pub bg: Color,
    pub bg_alt: Color,
    pub fg: Color,
    pub fg_muted: Color,
    pub primary: Color,
    pub secondary: Color,
    pub accent: Color,
    pub success: Color,
    pub warning: Color,
    pub error: Color,
    pub info: Color,
    pub border: Color,
    pub border_focused: Color,
    pub selection_bg: Color,
    pub selection_fg: Color,
    pub sensitive_mask: Color,
}

/// A theme: a name, whether it is light, and a palette.
pub trait Theme {
    /// The name of the theme.
    spec fn theme_name(&self) -> Seq<char>;

    /// Whether the theme has a light background.
    spec fn light(&self) -> bool;

    /// The palette of the theme.
    spec fn palette_spec(&self) -> ThemePalette;

    /// The name of the theme.
    fn name(&self) -> (r: &'static str)
        ensures
            r@ == self.theme_name(),
    ;

    /// Whether the theme has a light background.
    fn is_light(&self) -> (r: bool)
        ensures
            r == self.light(),
    ;

    /// The palette of the theme.
    fn palette(&self) -> (r: ThemePalette)
        ensures
            r == self.palette_spec(),
    ;
}

/// The color of icons for a choice: the theme's accent by default.
pub open spec fn icon_color(choice: IconColorChoice, theme: ThemePalette) -> Color {
    match choice {
        IconColorChoice::ThemeDefault => theme.accent,
        IconColorChoice::Red => Color::Red,
        IconColorChoice::Green => Color::Green,
        IconColorChoice::Blue => Color::Blue,
        IconColorChoice::Yellow => Color::Yellow,
        IconColorChoice::Magenta => Color::Magenta,
        IconColorChoice::Cyan => Color::Cyan,
        IconColorChoice::White => Color::White,
    }
}

impl IconColorChoice {
    /// The color of icons under `theme`.
    pub fn to_color(&self, theme: &ThemePalette) -> (r: Color)
        ensures
            r == icon_color(*self, *theme),
    {
        match self {
            IconColorChoice::ThemeDefault => theme.accent,
            IconColorChoice::Red => Color::Red,
            IconColorChoice::Green => Color::Green,
            IconColorChoice::Blue => Color::Blue,
            IconColorChoice::Yellow => Color::Yellow,
            IconColorChoice::Magenta => Color::Magenta,
            IconColorChoice::Cyan => Color::Cyan,
            IconColorChoice::White => Color::White,
        }
    }
}

} // verus!
