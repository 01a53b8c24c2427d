//! Colour themes of the reader.
use vstd::prelude::*;

verus! {

/// A terminal colour: a 24-bit RGB value, or the terminal's own default.
#[derive(Debug, Clone, Copy, PartialEq, Eq, Structural)]
pub enum Color {
    Rgb(u8, u8, u8),
    Reset,
}

/// The colours of one theme.
#[derive(Debug, Clone, Copy, PartialEq, Eq, Structural)]
pub struct Theme {
    pub bg: Color,
    pub surface: Color,
    pub border: Color,
    pub border_active: Color,
    pub text: Color,
    pub text_dim: Color,
    pub text_muted: Color,
    pub accent: Color,
    pub accent_soft: Color,
    pub highlight_bg: Color,
    pub search_match: Color,
}

/// The available themes, in cycling order.
#[derive(Debug, Clone, Copy, PartialEq, Eq, Structural)]
pub enum ThemeName {
    Slate,
    Midnight,
    Parchment,
    Gospel,
    Terminal,
}

impl Default for ThemeName {
    /// Slate.
    fn default() -> (t: Self)
        ensures
            t == ThemeName::Slate,
    {
        ThemeName::Slate
    }
}

/// The theme after `t` when cycling; Terminal wraps round to Slate.
pub open spec fn spec_next_theme(t: ThemeName) -> ThemeName {
    match t {
        ThemeName::Slate => ThemeName::Midnight,
        ThemeName::Midnight => ThemeName::Parchment,
        ThemeName::Parchment => ThemeName::Gospel,
        ThemeName::Gospel => ThemeName::Terminal,
        ThemeName::Terminal => ThemeName::Slate,
    }
}

/// Display name of a theme.
pub open spec fn spec_theme_label(t: ThemeName) -> Seq<char> {
    match t {
        ThemeName::Slate => "Slate"@,
        ThemeName::Midnight => "Midnight"@,
        ThemeName::Parchment => "Parchment"@,
        ThemeName::Gospel => "Gospel"@,
        ThemeName::Terminal => "Terminal"@,
    }
}

impl ThemeName {
    /// The theme after this one when cycling.
    pub fn next(self) -> (r: Self)
        ensures
            r == spec_next_theme(self),
    {
        match self {
            Self::Slate => Self::Midnight,
            Self::Midnight => Self::Parchment,
            Self::Parchment => Self::Gospel,
            Self::Gospel => Self::Terminal,
            Self::Terminal => Self::Slate,
        }
    }

    /// Display name of this theme.
    pub fn label(self) -> (r: &'static str)
        ensures
            r@ == spec_theme_label(self),
    {
        match self {
            Self::Slate => "Slate",
            Self::Midnight => "Midnight",
            Self::Parchment => "Parchment",
            Self::Gospel => "Gospel",
            Self::Terminal => "Terminal",
        }
    }
}

/// Cycling through the themes five times returns to the starting theme, and
/// no shorter number of steps does.
pub proof fn lemma_theme_cycle(t: ThemeName)
    ensures
        spec_next_theme(spec_next_theme(spec_next_theme(spec_next_theme(spec_next_theme(t)))))
            == t,
        spec_next_theme(t) != t,
        spec_next_theme(spec_next_theme(t)) != t,
        spec_next_theme(spec_next_theme(spec_next_theme(t))) != t,
        spec_next_theme(spec_next_theme(spec_next_theme(spec_next_theme(t)))) != t,
{
}

/// The colours of each theme.
pub open spec fn spec_theme(name: ThemeName) -> Theme {
    match name {
        ThemeName::Slate => Theme {
            bg: Color::Rgb(15, 23, 42),
            surface: Color::Rgb(30, 41, 59),
            border: Color::Rgb(51, 65, 85),
            border_active: Color::Rgb(96, 165, 250),
            text: Color::Rgb(226, 232, 240),
            text_dim: Color::Rgb(148, 163, 184),
            text_muted: Color::Rgb(100, 116, 139),
            accent: Color::Rgb(96, 165, 250),
            accent_soft: Color::Rgb(59, 130, 246),
            highlight_bg: Color::Rgb(30, 58, 95),
            search_match: Color::Rgb(251, 191, 36),
        },
        ThemeName::Midnight => Theme {
            bg: Color::Rgb(0, 0, 0),
            surface: Color::Rgb(10, 10, 10),
            border: Color::Rgb(39, 39, 42),
            border_active: Color::Rgb(250, 250, 250),
            text: Color::Rgb(250, 250, 250),
            text_dim: Color::Rgb(161, 161, 170),
            text_muted: Color::Rgb(113, 113, 122),
            accent: Color::Rgb(250, 250, 250),
            accent_soft: Color::Rgb(212, 212, 216),
            highlight_bg: Color::Rgb(39, 39, 42),
            search_match: Color::Rgb(250, 204, 21),
        },
        ThemeName::Parchment => Theme {
            bg: Color::Rgb(245, 240, 225),
            surface: Color::Rgb(237, 232, 214),
            border: Color::Rgb(196, 185, 154),
            border_active: Color::Rgb(139, 105, 20),
            text: Color::Rgb(61, 53, 32),
            text_dim: Color::Rgb(107, 94, 71),
            text_muted: Color::Rgb(156, 142, 117),
            accent: Color::Rgb(139, 105, 20),
            accent_soft: Color::Rgb(166, 124, 46),
            highlight_bg: Color::Rgb(221, 213, 190),
            search_match: Color::Rgb(194, 65, 12),
        },
        ThemeName::Gospel => Theme {
            bg: Color::Rgb(255, 255, 255),
            surface: Color::Rgb(248, 250, 252),
            border: Color::Rgb(226, 232, 240),
            border_active: Color::Rgb(37, 99, 235),
            text: Color::Rgb(15, 23, 42),
            text_dim: Color::Rgb(71, 85, 105),
            text_muted: Color::Rgb(148, 163, 184),
            accent: Color::Rgb(37, 99, 235),
            accent_soft: Color::Rgb(59, 130, 246),
            highlight_bg: Color::Rgb(219, 234, 254),
            search_match: Color::Rgb(234, 88, 12),
        },
        ThemeName::Terminal => Theme {
            bg: Color::Reset,
            surface: Color::Reset,
            border: Color::Rgb(107, 114, 128),
            border_active: Color::Rgb(34, 211, 238),
            text: Color::Reset,
            text_dim: Color::Rgb(156, 163, 175),
            text_muted: Color::Rgb(107, 114, 128),
            accent: Color::Rgb(34, 211, 238),
            accent_soft: Color::Rgb(6, 182, 212),
            highlight_bg: Color::Rgb(31, 41, 55),
            search_match: Color::Rgb(251, 191, 36),
        },
    }
}

/// The colours of theme `name`.
pub fn get_theme(name: ThemeName) -> (t: Theme)
    ensures
        t == spec_theme(name),
{
    match name {
        ThemeName::Slate => Theme {
            bg: Color::Rgb(15, 23, 42),
            surface: Color::Rgb(30, 41, 59),
            border: Color::Rgb(51, 65, 85),
            border_active: Color::Rgb(96, 165, 250),
            text: Color::Rgb(226, 232, 240),
            text_dim: Color::Rgb(148, 163, 184),
            text_muted: Color::Rgb(100, 116, 139),
            accent: Color::Rgb(96, 165, 250),
            accent_soft: Color::Rgb(59, 130, 246),
            highlight_bg: Color::Rgb(30, 58, 95),
            search_match: Color::Rgb(251, 191, 36),
        },
        ThemeName::Midnight => Theme {
            bg: Color::Rgb(0, 0, 0),
            surface: Color::Rgb(10, 10, 10),
            border: Color::Rgb(39, 39, 42),
            border_active: Color::Rgb(250, 250, 250),
            text: Color::Rgb(250, 250, 250),
            text_dim: Color::Rgb(161, 161, 170),
            text_muted: Color::Rgb(113, 113, 122),
            accent: Color::Rgb(250, 250, 250),
            accent_soft: Color::Rgb(212, 212, 216),
            highlight_bg: Color::Rgb(39, 39, 42),
            search_match: Color::Rgb(250, 204, 21),
        },
        ThemeName::Parchment => Theme {
            bg: Color::Rgb(245, 240, 225),
            surface: Color::Rgb(237, 232, 214),
            border: Color::Rgb(196, 185, 154),
            border_active: Color::Rgb(139, 105, 20),
            text: Color::Rgb(61, 53, 32),
            text_dim: Color::Rgb(107, 94, 71),
            text_muted: Color::Rgb(156, 142, 117),
            accent: Color::Rgb(139, 105, 20),
            accent_soft: Color::Rgb(166, 124, 46),
            highlight_bg: Color::Rgb(221, 213, 190),
            search_match: Color::Rgb(194, 65, 12),
        },
        ThemeName::Gospel => Theme {
            bg: Color::Rgb(255, 255, 255),
            surface: Color::Rgb(248, 250, 252),
            border: Color::Rgb(226, 232, 240),
            border_active: Color::Rgb(37, 99, 235),
            text: Color::Rgb(15, 23, 42),
            text_dim: Color::Rgb(71, 85, 105),
            text_muted: Color::Rgb(148, 163, 184),
            accent: Color::Rgb(37, 99, 235),
            accent_soft: Color::Rgb(59, 130, 246),
            highlight_bg: Color::Rgb(219, 234, 254),
            search_match: Color::Rgb(234, 88, 12),
        },
        ThemeName::Terminal => Theme {
            bg: Color::Reset,
            surface: Color::Reset,
            border: Color::Rgb(107, 114, 128),
            border_active: Color::Rgb(34, 211, 238),
            text: Color::Reset,
            text_dim: Color::Rgb(156, 163, 175),
            text_muted: Color::Rgb(107, 114, 128),
            accent: Color::Rgb(34, 211, 238),
            accent_soft: Color::Rgb(6, 182, 212),
            highlight_bg: Color::Rgb(31, 41, 55),
            search_match: Color::Rgb(251, 191, 36),
        },
    }
}

} // verus!
