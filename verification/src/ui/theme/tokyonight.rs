//! The Tokyo Night themes (Night, Storm, Day).
use vstd::prelude::*;

use crate::ui::theme::palette::{Color, Theme, ThemePalette};

verus! {

/// The palette of Tokyo Night.
pub open spec fn tokyo_night_night_palette() -> ThemePalette {
    ThemePalette {
        bg: Color::Rgb(26, 27, 38),
        bg_alt: Color::Rgb(22, 22, 30),
        fg: Color::Rgb(192, 202, 245),
        fg_muted: Color::Rgb(86, 95, 137),
        primary: Color::Rgb(122, 162, 247),
        secondary: Color::Rgb(187, 154, 247),
        accent: Color::Rgb(255, 158, 100),
        success: Color::Rgb(158, 206, 106),
        warning: Color::Rgb(224, 175, 104),
        error: Color::Rgb(247, 118, 142),
        info: Color::Rgb(125, 207, 255),
        border: Color::Rgb(41, 46, 66),
        border_focused: Color::Rgb(122, 162, 247),
        selection_bg: Color::Rgb(52, 59, 88),
        selection_fg: Color::Rgb(192, 202, 245),
        sensitive_mask: Color::Rgb(86, 95, 137),
    }
}

/// Tokyo Night (dark theme)
pub struct TokyoNightNight;

impl Theme for TokyoNightNight {
    open spec fn theme_name(&self) -> Seq<char> {
        "Tokyo Night"@
    }

    open spec fn light(&self) -> bool {
        false
    }

    open spec fn palette_spec(&self) -> ThemePalette {
        tokyo_night_night_palette()
    }

    fn name(&self) -> (r: &'static str) {
        proof {
            reveal_strlit("Tokyo Night");
        }
        "Tokyo Night"
    }

    fn is_light(&self) -> (r: bool) {
        false
    }

    fn palette(&self) -> (r: ThemePalette) {
        ThemePalette {
            bg: Color::Rgb(26, 27, 38),
            bg_alt: Color::Rgb(22, 22, 30),
            fg: Color::Rgb(192, 202, 245),
            fg_muted: Color::Rgb(86, 95, 137),
            primary: Color::Rgb(122, 162, 247),
            secondary: Color::Rgb(187, 154, 247),
            accent: Color::Rgb(255, 158, 100),
            success: Color::Rgb(158, 206, 106),
            warning: Color::Rgb(224, 175, 104),
            error: Color::Rgb(247, 118, 142),
            info: Color::Rgb(125, 207, 255),
            border: Color::Rgb(41, 46, 66),
            border_focused: Color::Rgb(122, 162, 247),
            selection_bg: Color::Rgb(52, 59, 88),
            selection_fg: Color::Rgb(192, 202, 245),
            sensitive_mask: Color::Rgb(86, 95, 137),
        }
    }
}

/// The palette of Tokyo Night Storm.
pub open spec fn tokyo_night_storm_palette() -> ThemePalette {
    ThemePalette {
        bg: Color::Rgb(36, 40, 59),
        bg_alt: Color::Rgb(31, 35, 53),
        fg: Color::Rgb(192, 202, 245),
        fg_muted: Color::Rgb(86, 95, 137),
        primary: Color::Rgb(122, 162, 247),
        secondary: Color::Rgb(187, 154, 247),
        accent: Color::Rgb(255, 158, 100),
        success: Color::Rgb(158, 206, 106),
        warning: Color::Rgb(224, 175, 104),
        error: Color::Rgb(247, 118, 142),
        info: Color::Rgb(125, 207, 255),
        border: Color::Rgb(59, 66, 97),
        border_focused: Color::Rgb(122, 162, 247),
        selection_bg: Color::Rgb(63, 71, 106),
        selection_fg: Color::Rgb(192, 202, 245),
        sensitive_mask: Color::Rgb(86, 95, 137),
    }
}

/// Tokyo Night Storm (slightly lighter dark theme)
pub struct TokyoNightStorm;

impl Theme for TokyoNightStorm {
    open spec fn theme_name(&self) -> Seq<char> {
        "Tokyo Night Storm"@
    }

    open spec fn light(&self) -> bool {
        false
    }

    open spec fn palette_spec(&self) -> ThemePalette {
        tokyo_night_storm_palette()
    }

    fn name(&self) -> (r: &'static str) {
        proof {
            reveal_strlit("Tokyo Night Storm");
        }
        "Tokyo Night Storm"
    }

    fn is_light(&self) -> (r: bool) {
        false
    }

    fn palette(&self) -> (r: ThemePalette) {
        ThemePalette {
            bg: Color::Rgb(36, 40, 59),
            bg_alt: Color::Rgb(31, 35, 53),
            fg: Color::Rgb(192, 202, 245),
            fg_muted: Color::Rgb(86, 95, 137),
            primary: Color::Rgb(122, 162, 247),
            secondary: Color::Rgb(187, 154, 247),
            accent: Color::Rgb(255, 158, 100),
            success: Color::Rgb(158, 206, 106),
            warning: Color::Rgb(224, 175, 104),
            error: Color::Rgb(247, 118, 142),
            info: Color::Rgb(125, 207, 255),
            border: Color::Rgb(59, 66, 97),
            border_focused: Color::Rgb(122, 162, 247),
            selection_bg: Color::Rgb(63, 71, 106),
            selection_fg: Color::Rgb(192, 202, 245),
            sensitive_mask: Color::Rgb(86, 95, 137),
        }
    }
}

/// The palette of Tokyo Night Day.
pub open spec fn tokyo_night_day_palette() -> ThemePalette {
    ThemePalette {
        bg: Color::Rgb(212, 216, 232),
        bg_alt: Color::Rgb(199, 203, 219),
        fg: Color::Rgb(59, 66, 97),
        fg_muted: Color::Rgb(149, 157, 193),
        primary: Color::Rgb(52, 84, 138),
        secondary: Color::Rgb(92, 75, 163),
        accent: Color::Rgb(150, 84, 0),
        success: Color::Rgb(56, 113, 62),
        warning: Color::Rgb(143, 111, 0),
        error: Color::Rgb(143, 76, 90),
        info: Color::Rgb(0, 110, 128),
        border: Color::Rgb(175, 180, 200),
        border_focused: Color::Rgb(52, 84, 138),
        selection_bg: Color::Rgb(153, 158, 182),
        selection_fg: Color::Rgb(59, 66, 97),
        sensitive_mask: Color::Rgb(149, 157, 193),
    }
}

/// Tokyo Night Day (light theme)
pub struct TokyoNightDay;

impl Theme for TokyoNightDay {
    open spec fn theme_name(&self) -> Seq<char> {
        "Tokyo Night Day"@
    }

    open spec fn light(&self) -> bool {
        true
    }

    open spec fn palette_spec(&self) -> ThemePalette {
        tokyo_night_day_palette()
    }

    fn name(&self) -> (r: &'static str) {
        proof {
            reveal_strlit("Tokyo Night Day");
        }
        "Tokyo Night Day"
    }

    fn is_light(&self) -> (r: bool) {
        true
    }

    fn palette(&self) -> (r: ThemePalette) {
        ThemePalette {
            bg: Color::Rgb(212, 216, 232),
            bg_alt: Color::Rgb(199, 203, 219),
            fg: Color::Rgb(59, 66, 97),
            fg_muted: Color::Rgb(149, 157, 193),
            primary: Color::Rgb(52, 84, 138),
            secondary: Color::Rgb(92, 75, 163),
            accent: Color::Rgb(150, 84, 0),
            success: Color::Rgb(56, 113, 62),
            warning: Color::Rgb(143, 111, 0),
            error: Color::Rgb(143, 76, 90),
            info: Color::Rgb(0, 110, 128),
            border: Color::Rgb(175, 180, 200),
            border_focused: Color::Rgb(52, 84, 138),
            selection_bg: Color::Rgb(153, 158, 182),
            selection_fg: Color::Rgb(59, 66, 97),
            sensitive_mask: Color::Rgb(149, 157, 193),
        }
    }
}

} // verus!
