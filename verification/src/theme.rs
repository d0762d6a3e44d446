//! The named colors of the dark theme.
use vstd::prelude::*;

verus! {

/// A color of the theme.
#[derive(Debug, Clone, Copy, PartialEq, Eq, Structural)]
pub enum Palette {
    BgBase,
    BgColumn,
    BgCard,
    BgCardSelected,
    BgInput,
    FgPrimary,
    FgSecondary,
    FgDim,
    FgAccent,
    FgBorder,
    FgBorderActive,
    StatusTodo,
    StatusInProgress,
    StatusDone,
    PriorityHigh,
    PriorityMedium,
    PriorityLow,
    PriorityNone,
    FgConfirm,
    /// The program name in the title line; this theme gives it the purple
    /// of the logo gradient.
    Title,
    /// The tagline in the title line; this theme gives it the dim grey of
    /// secondary text.
    TitleDim,
    CardAccentTodo,
    CardAccentInProgress,
    CardAccentDone,
}

/// The red, green and blue components of each theme color.
pub open spec fn palette_rgb(p: Palette) -> (u8, u8, u8) {
    match p {
        Palette::BgBase => (18, 18, 20),
        Palette::BgColumn => (25, 25, 28),
        Palette::BgCard => (32, 32, 36),
        Palette::BgCardSelected => (45, 42, 58),
        Palette::BgInput => (38, 38, 44),
        Palette::FgPrimary => (225, 225, 230),
        Palette::FgSecondary => (160, 160, 170),
        Palette::FgDim => (90, 90, 100),
        Palette::FgAccent => (129, 140, 248),
        Palette::FgBorder => (50, 50, 58),
        Palette::FgBorderActive => (99, 102, 241),
        Palette::StatusTodo => (148, 163, 184),
        Palette::StatusInProgress => (251, 191, 36),
        Palette::StatusDone => (52, 211, 153),
        Palette::PriorityHigh => (248, 113, 113),
        Palette::PriorityMedium => (251, 191, 36),
        Palette::PriorityLow => (96, 165, 250),
        Palette::PriorityNone => (90, 90, 100),
        Palette::FgConfirm => (248, 113, 113),
        Palette::Title => (168, 85, 247),
        Palette::TitleDim => (90, 90, 100),
        Palette::CardAccentTodo => (100, 116, 139),
        Palette::CardAccentInProgress => (245, 158, 11),
        Palette::CardAccentDone => (34, 197, 94),
    }
}

impl Palette {
    /// The red, green and blue components of the color.
    pub fn rgb(&self) -> (r: (u8, u8, u8))
        ensures
            r == palette_rgb(*self),
    {
        match self {
            Palette::BgBase => (18, 18, 20),
            Palette::BgColumn => (25, 25, 28),
            Palette::BgCard => (32, 32, 36),
            Palette::BgCardSelected => (45, 42, 58),
            Palette::BgInput => (38, 38, 44),
            Palette::FgPrimary => (225, 225, 230),
            Palette::FgSecondary => (160, 160, 170),
            Palette::FgDim => (90, 90, 100),
            Palette::FgAccent => (129, 140, 248),
            Palette::FgBorder => (50, 50, 58),
            Palette::FgBorderActive => (99, 102, 241),
            Palette::StatusTodo => (148, 163, 184),
            Palette::StatusInProgress => (251, 191, 36),
            Palette::StatusDone => (52, 211, 153),
            Palette::PriorityHigh => (248, 113, 113),
            Palette::PriorityMedium => (251, 191, 36),
            Palette::PriorityLow => (96, 165, 250),
            Palette::PriorityNone => (90, 90, 100),
            Palette::FgConfirm => (248, 113, 113),
            Palette::Title => (168, 85, 247),
            Palette::TitleDim => (90, 90, 100),
            Palette::CardAccentTodo => (100, 116, 139),
            Palette::CardAccentInProgress => (245, 158, 11),
            Palette::CardAccentDone => (34, 197, 94),
        }
    }
}

} // verus!
