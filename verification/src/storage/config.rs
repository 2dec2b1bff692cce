//! Application configuration and the theme and icon color choices.
use vstd::prelude::*;

verus! {

/// Application-wide configuration.
#[derive(Debug, Clone, Copy, PartialEq, Eq, Structural)]
pub struct AppConfig {
    /// Selected theme.
    pub theme: ThemeChoice,
    /// Clipboard timeout in seconds.
    pub clipboard_timeout_secs: u64,
    /// Whether auto-lock is on.
    pub auto_lock_enabled: bool,
    /// Auto-lock timeout in seconds.
    pub auto_lock_timeout_secs: u64,
    /// Whether Nerd Font icons are shown.
    pub show_icons: bool,
    /// Whether the mouse is used.
    pub mouse_enabled: bool,
    /// Icon color.
    pub icon_color: IconColorChoice,
}

/// The configuration used when none is stored.
pub open spec fn default_config() -> AppConfig {
    AppConfig {
        theme: ThemeChoice::CatppuccinMocha,
        clipboard_timeout_secs: 60,
        auto_lock_enabled: true,
        auto_lock_timeout_secs: 300,
        show_icons: true,
        mouse_enabled: true,
        icon_color: IconColorChoice::ThemeDefault,
    }
}

impl Default for AppConfig {
    fn default() -> (r: AppConfig)
        ensures
            r == default_config(),
    {
        AppConfig {
            theme: ThemeChoice::CatppuccinMocha,
            clipboard_timeout_secs: 60,
            auto_lock_enabled: true,
            auto_lock_timeout_secs: 300,
            show_icons: true,
            mouse_enabled: true,
            icon_color: IconColorChoice::ThemeDefault,
        }
    }
}

impl AppConfig {
    /// The configuration that was loaded, or the default where loading failed.
    pub fn load_or_default(loaded: Option<AppConfig>) -> (r: AppConfig)
        ensures
            r == match loaded {
                Some(c) => c,
                None => default_config(),
            },
    {
        match loaded {
            Some(c) => c,
            None => AppConfig::default(),
        }
    }
}

/// The available themes.
#[derive(Debug, Clone, Copy, PartialEq, Eq, Structural)]
pub enum ThemeChoice {
    CatppuccinLatte,
    CatppuccinFrappe,
    CatppuccinMacchiato,
    CatppuccinMocha,
    TokyoNightNight,
    TokyoNightStorm,
    TokyoNightDay,
}

impl Default for ThemeChoice {
    fn default() -> (r: ThemeChoice)
        ensures
            r == ThemeChoice::CatppuccinMocha,
    {
        ThemeChoice::CatppuccinMocha
    }
}

/// Display name of a theme.
pub open spec fn theme_name(t: ThemeChoice) -> Seq<char> {
    match t {
        ThemeChoice::CatppuccinLatte => "Catppuccin Latte"@,
        ThemeChoice::CatppuccinFrappe => "Catppuccin Frapp\u{e9}"@,
        ThemeChoice::CatppuccinMacchiato => "Catppuccin Macchiato"@,
        ThemeChoice::CatppuccinMocha => "Catppuccin Mocha"@,
        ThemeChoice::TokyoNightNight => "Tokyo Night"@,
        ThemeChoice::TokyoNightStorm => "Tokyo Night Storm"@,
        ThemeChoice::TokyoNightDay => "Tokyo Night Day"@,
    }
}

/// Every theme, in menu order.
pub open spec fn all_themes() -> Seq<ThemeChoice> {
    seq![
        ThemeChoice::CatppuccinLatte,
        ThemeChoice::CatppuccinFrappe,
        ThemeChoice::CatppuccinMacchiato,
        ThemeChoice::CatppuccinMocha,
        ThemeChoice::TokyoNightNight,
        ThemeChoice::TokyoNightStorm,
        ThemeChoice::TokyoNightDay,
    ]
}

impl ThemeChoice {
    /// Display name.
    pub fn display_name(&self) -> (r: &'static str)
        ensures
            r@ == theme_name(*self),
    {
        match self {
            ThemeChoice::CatppuccinLatte => "Catppuccin Latte",
            ThemeChoice::CatppuccinFrappe => "Catppuccin Frapp\u{e9}",
            ThemeChoice::CatppuccinMacchiato => "Catppuccin Macchiato",
            ThemeChoice::CatppuccinMocha => "Catppuccin Mocha",
            ThemeChoice::TokyoNightNight => "Tokyo Night",
            ThemeChoice::TokyoNightStorm => "Tokyo Night Storm",
            ThemeChoice::TokyoNightDay => "Tokyo Night Day",
        }
    }

    /// Every theme, in menu order.
    pub fn all() -> (r: &'static [ThemeChoice])
        ensures
            r@ == all_themes(),
    {
        let r: &'static [ThemeChoice] = &[
            ThemeChoice::CatppuccinLatte,
            ThemeChoice::CatppuccinFrappe,
            ThemeChoice::CatppuccinMacchiato,
            ThemeChoice::CatppuccinMocha,
            ThemeChoice::TokyoNightNight,
            ThemeChoice::TokyoNightStorm,
            ThemeChoice::TokyoNightDay,
        ];
        assert(r@ =~= all_themes());
        r
    }

    /// Whether the theme has a light background.
    pub fn is_light(&self) -> (r: bool)
        ensures
            r == (*self == ThemeChoice::CatppuccinLatte || *self == ThemeChoice::TokyoNightDay),
    {
        match self {
            ThemeChoice::CatppuccinLatte | ThemeChoice::TokyoNightDay => true,
            _ => false,
        }
    }
}

/// The available icon colors.
#[derive(Debug, Clone, Copy, PartialEq, Eq, Structural)]
pub enum IconColorChoice {
    ThemeDefault,
    Red,
    Green,
    Blue,
    Yellow,
    Magenta,
    Cyan,
    White,
}

impl Default for IconColorChoice {
    fn default() -> (r: IconColorChoice)
        ensures
            r == IconColorChoice::ThemeDefault,
    {
        IconColorChoice::ThemeDefault
    }
}

/// Display name of an icon color.
pub open spec fn icon_color_name(c: IconColorChoice) -> Seq<char> {
    match c {
        IconColorChoice::ThemeDefault => "Theme Default"@,
        IconColorChoice::Red => "Red"@,
        IconColorChoice::Green => "Green"@,
        IconColorChoice::Blue => "Blue"@,
        IconColorChoice::Yellow => "Yellow"@,
        IconColorChoice::Magenta => "Magenta"@,
        IconColorChoice::Cyan => "Cyan"@,
        IconColorChoice::White => "White"@,
    }
}

/// Every icon color, in menu order.
pub open spec fn all_icon_colors() -> Seq<IconColorChoice> {
    seq![
        IconColorChoice::ThemeDefault,
        IconColorChoice::Red,
        IconColorChoice::Green,
        IconColorChoice::Blue,
        IconColorChoice::Yellow,
        IconColorChoice::Magenta,
        IconColorChoice::Cyan,
        IconColorChoice::White,
    ]
}

impl IconColorChoice {
    /// Display name.
    pub fn display_name(&self) -> (r: &'static str)
        ensures
            r@ == icon_color_name(*self),
    {
        match self {
            IconColorChoice::ThemeDefault => "Theme Default",
            IconColorChoice::Red => "Red",
            IconColorChoice::Green => "Green",
            IconColorChoice::Blue => "Blue",
            IconColorChoice::Yellow => "Yellow",
            IconColorChoice::Magenta => "Magenta",
            IconColorChoice::Cyan => "Cyan",
            IconColorChoice::White => "White",
        }
    }

    /// Every icon color, in menu order.
    pub fn all() -> (r: &'static [IconColorChoice])
        ensures
            r@ == all_icon_colors(),
    {
        let r: &'static [IconColorChoice] = &[
            IconColorChoice::ThemeDefault,
            IconColorChoice::Red,
            IconColorChoice::Green,
            IconColorChoice::Blue,
            IconColorChoice::Yellow,
            IconColorChoice::Magenta,
            IconColorChoice::Cyan,
            IconColorChoice::White,
        ];
        assert(r@ =~= all_icon_colors());
        r
    }
}

} // verus!
