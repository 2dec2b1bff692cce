//! Themes: the Catppuccin and Tokyo Night palettes.
use vstd::prelude::*;

pub mod catppuccin;
pub mod palette;
pub mod tokyonight;

use crate::storage::config::ThemeChoice;
use crate::ui::theme::catppuccin::{
    CatppuccinFrappe, CatppuccinLatte, CatppuccinMacchiato, CatppuccinMocha, catppuccin_frappe_palette,
    catppuccin_latte_palette, catppuccin_macchiato_palette, catppuccin_mocha_palette,
};
use crate::ui::theme::palette::{Theme, ThemePalette};
use crate::ui::theme::tokyonight::{
    TokyoNightDay, TokyoNightNight, TokyoNightStorm, tokyo_night_day_palette, tokyo_night_night_palette,
    tokyo_night_storm_palette,
};

verus! {

/// The palette of a theme choice.
pub open spec fn theme_palette(choice: ThemeChoice) -> ThemePalette {
    match choice {
        ThemeChoice::CatppuccinLatte => catppuccin_latte_palette(),
        ThemeChoice::CatppuccinFrappe => catppuccin_frappe_palette(),
        ThemeChoice::CatppuccinMacchiato => catppuccin_macchiato_palette(),
        ThemeChoice::CatppuccinMocha => catppuccin_mocha_palette(),
        ThemeChoice::TokyoNightNight => tokyo_night_night_palette(),
        ThemeChoice::TokyoNightStorm => tokyo_night_storm_palette(),
        ThemeChoice::TokyoNightDay => tokyo_night_day_palette(),
    }
}

/// The palette of a theme choice.
pub fn get_theme(choice: ThemeChoice) -> (r: ThemePalette)
    ensures
        r == theme_palette(choice),
{
    match choice {
        ThemeChoice::CatppuccinLatte => CatppuccinLatte.palette(),
        ThemeChoice::CatppuccinFrappe => CatppuccinFrappe.palette(),
        ThemeChoice::CatppuccinMacchiato => CatppuccinMacchiato.palette(),
        ThemeChoice::CatppuccinMocha => CatppuccinMocha.palette(),
        ThemeChoice::TokyoNightNight => TokyoNightNight.palette(),
        ThemeChoice::TokyoNightStorm => TokyoNightStorm.palette(),
        ThemeChoice::TokyoNightDay => TokyoNightDay.palette(),
    }
}

} // verus!
