//! The Catppuccin themes (Latte, Frappé, Macchiato, Mocha).
use vstd::prelude::*;

use crate::ui::theme::palette::{Color, Theme, ThemePalette};

verus! {

/// The palette of Catppuccin Latte.
pub open spec fn catppuccin_latte_palette() -> ThemePalette {
    ThemePalette {
        bg: Color::Rgb(239, 241, 245),
        bg_alt: Color::Rgb(230, 233, 239),
        fg: Color::Rgb(76, 79, 105),
        fg_muted: Color::Rgb(140, 143, 161),
        primary: Color::Rgb(30, 102, 245),
        secondary: Color::Rgb(136, 57, 239),
        accent: Color::Rgb(220, 138, 120),
        success: Color::Rgb(64, 160, 43),
        warning: Color::Rgb(223, 142, 29),
        error: Color::Rgb(210, 15, 57),
        info: Color::Rgb(32, 159, 181),
        border: Color::Rgb(188, 192, 204),
        border_focused: Color::Rgb(30, 102, 245),
        selection_bg: Color::Rgb(188, 192, 204),
        selection_fg: Color::Rgb(76, 79, 105),
        sensitive_mask: Color::Rgb(140, 143, 161),
    }
}

/// Catppuccin Latte (light theme)
pub struct CatppuccinLatte;

impl Theme for CatppuccinLatte {
    open spec fn theme_name(&self) -> Seq<char> {
        "Catppuccin Latte"@
    }

    open spec fn light(&self) -> bool {
        true
    }

    open spec fn palette_spec(&self) -> ThemePalette {
        catppuccin_latte_palette()
    }

    fn name(&self) -> (r: &'static str) {
        proof {
            reveal_strlit("Catppuccin Latte");
        }
        "Catppuccin Latte"
    }

    fn is_light(&self) -> (r: bool) {
        true
    }

    fn palette(&self) -> (r: ThemePalette) {
        ThemePalette {
            bg: Color::Rgb(239, 241, 245),
            bg_alt: Color::Rgb(230, 233, 239),
            fg: Color::Rgb(76, 79, 105),
            fg_muted: Color::Rgb(140, 143, 161),
            primary: Color::Rgb(30, 102, 245),
            secondary: Color::Rgb(136, 57, 239),
            accent: Color::Rgb(220, 138, 120),
            success: Color::Rgb(64, 160, 43),
            warning: Color::Rgb(223, 142, 29),
            error: Color::Rgb(210, 15, 57),
            info: Color::Rgb(32, 159, 181),
            border: Color::Rgb(188, 192, 204),
            border_focused: Color::Rgb(30, 102, 245),
            selection_bg: Color::Rgb(188, 192, 204),
            selection_fg: Color::Rgb(76, 79, 105),
            sensitive_mask: Color::Rgb(140, 143, 161),
        }
    }
}

/// The palette of Catppuccin Frappé.
pub open spec fn catppuccin_frappe_palette() -> ThemePalette {
    ThemePalette {
        bg: Color::Rgb(48, 52, 70),
        bg_alt: Color::Rgb(41, 44, 60),
        fg: Color::Rgb(198, 208, 245),
        fg_muted: Color::Rgb(165, 173, 206),
        primary: Color::Rgb(140, 170, 238),
        secondary: Color::Rgb(202, 158, 230),
        accent: Color::Rgb(239, 159, 118),
        success: Color::Rgb(166, 209, 137),
        warning: Color::Rgb(229, 200, 144),
        error: Color::Rgb(231, 130, 132),
        info: Color::Rgb(129, 200, 190),
        border: Color::Rgb(81, 87, 109),
        border_focused: Color::Rgb(140, 170, 238),
        selection_bg: Color::Rgb(81, 87, 109),
        selection_fg: Color::Rgb(198, 208, 245),
        sensitive_mask: Color::Rgb(115, 121, 148),
    }
}

/// Catppuccin Frappé (medium-light dark theme)
pub struct CatppuccinFrappe;

impl Theme for CatppuccinFrappe {
    open spec fn theme_name(&self) -> Seq<char> {
        "Catppuccin Frapp\u{e9}"@
    }

    open spec fn light(&self) -> bool {
        false
    }

    open spec fn palette_spec(&self) -> ThemePalette {
        catppuccin_frappe_palette()
    }

    fn name(&self) -> (r: &'static str) {
        proof {
            reveal_strlit("Catppuccin Frapp\u{e9}");
        }
        "Catppuccin Frapp\u{e9}"
    }

    fn is_light(&self) -> (r: bool) {
        false
    }

    fn palette(&self) -> (r: ThemePalette) {
        ThemePalette {
            bg: Color::Rgb(48, 52, 70),
            bg_alt: Color::Rgb(41, 44, 60),
            fg: Color::Rgb(198, 208, 245),
            fg_muted: Color::Rgb(165, 173, 206),
            primary: Color::Rgb(140, 170, 238),
            secondary: Color::Rgb(202, 158, 230),
            accent: Color::Rgb(239, 159, 118),
            success: Color::Rgb(166, 209, 137),
            warning: Color::Rgb(229, 200, 144),
            error: Color::Rgb(231, 130, 132),
            info: Color::Rgb(129, 200, 190),
            border: Color::Rgb(81, 87, 109),
            border_focused: Color::Rgb(140, 170, 238),
            selection_bg: Color::Rgb(81, 87, 109),
            selection_fg: Color::Rgb(198, 208, 245),
            sensitive_mask: Color::Rgb(115, 121, 148),
        }
    }
}

/// The palette of Catppuccin Macchiato.
pub open spec fn catppuccin_macchiato_palette() -> ThemePalette {
    ThemePalette {
        bg: Color::Rgb(36, 39, 58),
        bg_alt: Color::Rgb(30, 32, 48),
        fg: Color::Rgb(202, 211, 245),
        fg_muted: Color::Rgb(165, 173, 203),
        primary: Color::Rgb(138, 173, 244),
        secondary: Color::Rgb(198, 160, 246),
        accent: Color::Rgb(245, 169, 127),
        success: Color::Rgb(166, 218, 149),
        warning: Color::Rgb(238, 212, 159),
        error: Color::Rgb(237, 135, 150),
        info: Color::Rgb(139, 213, 202),
        border: Color::Rgb(73, 77, 100),
        border_focused: Color::Rgb(138, 173, 244),
        selection_bg: Color::Rgb(73, 77, 100),
        selection_fg: Color::Rgb(202, 211, 245),
        sensitive_mask: Color::Rgb(110, 115, 141),
    }
}

/// Catppuccin Macchiato (medium-dark theme)
pub struct CatppuccinMacchiato;

impl Theme for CatppuccinMacchiato {
    open spec fn theme_name(&self) -> Seq<char> {
        "Catppuccin Macchiato"@
    }

    open spec fn light(&self) -> bool {
        false
    }

    open spec fn palette_spec(&self) -> ThemePalette {
        catppuccin_macchiato_palette()
    }

    fn name(&self) -> (r: &'static str) {
        proof {
            reveal_strlit("Catppuccin Macchiato");
        }
        "Catppuccin Macchiato"
    }

    fn is_light(&self) -> (r: bool) {
        false
    }

    fn palette(&self) -> (r: ThemePalette) {
        ThemePalette {
            bg: Color::Rgb(36, 39, 58),
            bg_alt: Color::Rgb(30, 32, 48),
            fg: Color::Rgb(202, 211, 245),
            fg_muted: Color::Rgb(165, 173, 203),
            primary: Color::Rgb(138, 173, 244),
            secondary: Color::Rgb(198, 160, 246),
            accent: Color::Rgb(245, 169, 127),
            success: Color::Rgb(166, 218, 149),
            warning: Color::Rgb(238, 212, 159),
            error: Color::Rgb(237, 135, 150),
            info: Color::Rgb(139, 213, 202),
            border: Color::Rgb(73, 77, 100),
            border_focused: Color::Rgb(138, 173, 244),
            selection_bg: Color::Rgb(73, 77, 100),
            selection_fg: Color::Rgb(202, 211, 245),
            sensitive_mask: Color::Rgb(110, 115, 141),
        }
    }
}

/// The palette of Catppuccin Mocha.
pub open spec fn catppuccin_mocha_palette() -> ThemePalette {
    ThemePalette {
        bg: Color::Rgb(30, 30, 46),
        bg_alt: Color::Rgb(24, 24, 37),
        fg: Color::Rgb(205, 214, 244),
        fg_muted: Color::Rgb(166, 173, 200),
        primary: Color::Rgb(137, 180, 250),
        secondary: Color::Rgb(203, 166, 247),
        accent: Color::Rgb(250, 179, 135),
        success: Color::Rgb(166, 227, 161),
        warning: Color::Rgb(249, 226, 175),
        error: Color::Rgb(243, 139, 168),
        info: Color::Rgb(148, 226, 213),
        border: Color::Rgb(69, 71, 90),
        border_focused: Color::Rgb(137, 180, 250),
        selection_bg: Color::Rgb(69, 71, 90),
        selection_fg: Color::Rgb(205, 214, 244),
        sensitive_mask: Color::Rgb(108, 112, 134),
    }
}

/// Catppuccin Mocha (dark theme) - Default
pub struct CatppuccinMocha;

impl Theme for CatppuccinMocha {
    open spec fn theme_name(&self) -> Seq<char> {
        "Catppuccin Mocha"@
    }

    open spec fn light(&self) -> bool {
        false
    }

    open spec fn palette_spec(&self) -> ThemePalette {
        catppuccin_mocha_palette()
    }

    fn name(&self) -> (r: &'static str) {
        proof {
            reveal_strlit("Catppuccin Mocha");
        }
        "Catppuccin Mocha"
    }

    fn is_light(&self) -> (r: bool) {
        false
    }

    fn palette(&self) -> (r: ThemePalette) {
        ThemePalette {
            bg: Color::Rgb(30, 30, 46),
            bg_alt: Color::Rgb(24, 24, 37),
            fg: Color::Rgb(205, 214, 244),
            fg_muted: Color::Rgb(166, 173, 200),
            primary: Color::Rgb(137, 180, 250),
            secondary: Color::Rgb(203, 166, 247),
            accent: Color::Rgb(250, 179, 135),
            success: Color::Rgb(166, 227, 161),
            warning: Color::Rgb(249, 226, 175),
            error: Color::Rgb(243, 139, 168),
            info: Color::Rgb(148, 226, 213),
            border: Color::Rgb(69, 71, 90),
            border_focused: Color::Rgb(137, 180, 250),
            selection_bg: Color::Rgb(69, 71, 90),
            selection_fg: Color::Rgb(205, 214, 244),
            sensitive_mask: Color::Rgb(108, 112, 134),
        }
    }
}

} // verus!
