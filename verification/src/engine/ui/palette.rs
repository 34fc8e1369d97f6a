//! The colours of the text interface.

use vstd::prelude::*;

verus! {

/// Which of the two colour sets is shown.
#[derive(Clone, Copy, Debug, PartialEq, Eq, Structural)]
pub enum Theme {
    Dark,
    Light,
}

/// A colour as red, green and blue.
pub type Rgb = (u8, u8, u8);

/// The colours of the text interface.
#[derive(Clone, Copy, Debug, PartialEq, Eq)]
pub struct Palette {
    pub theme: Theme,
    pub accent: Rgb,
    pub border: Rgb,
    pub border_accent: Rgb,
    pub highlight: Rgb,
    pub text_primary: Rgb,
    pub text_secondary: Rgb,
    pub background: Rgb,
    pub surface: Rgb,
    pub success: Rgb,
    pub warning: Rgb,
    pub error: Rgb,
}

/// The dark colours.
pub open spec fn dark_palette() -> Palette {
    Palette {
        theme: Theme::Dark,
        accent: (99, 102, 241),
        border: (55, 65, 81),
        border_accent: (139, 92, 246),
        highlight: (59, 130, 246),
        text_primary: (249, 250, 251),
        text_secondary: (156, 163, 175),
        background: (17, 24, 39),
        surface: (31, 41, 55),
        success: (34, 197, 94),
        warning: (245, 158, 11),
        error: (239, 68, 68),
    }
}

/// The light colours.
pub open spec fn light_palette() -> Palette {
    Palette {
        theme: Theme::Light,
        accent: (99, 102, 241),
        border: (209, 213, 219),
        border_accent: (139, 92, 246),
        highlight: (59, 130, 246),
        text_primary: (17, 24, 39),
        text_secondary: (75, 85, 99),
        background: (255, 255, 255),
        surface: (249, 250, 251),
        success: (34, 197, 94),
        warning: (245, 158, 11),
        error: (239, 68, 68),
    }
}

/// The colours of the other theme.
pub open spec fn toggled(theme: Theme) -> Palette {
    match theme {
        Theme::Dark => light_palette(),
        Theme::Light => dark_palette(),
    }
}

impl Default for Palette {
    fn default() -> (palette: Self)
        ensures
            palette == dark_palette(),
    {
        Palette::dark()
    }
}

impl Palette {
    /// The dark colours.
    pub fn dark() -> (palette: Self)
        ensures
            palette == dark_palette(),
    {
        Palette {
            theme: Theme::Dark,
            accent: (99, 102, 241),
            border: (55, 65, 81),
            border_accent: (139, 92, 246),
            highlight: (59, 130, 246),
            text_primary: (249, 250, 251),
            text_secondary: (156, 163, 175),
            background: (17, 24, 39),
            surface: (31, 41, 55),
            success: (34, 197, 94),
            warning: (245, 158, 11),
            error: (239, 68, 68),
        }
    }

    /// The light colours.
    pub fn light() -> (palette: Self)
        ensures
            palette == light_palette(),
    {
        Palette {
            theme: Theme::Light,
            accent: (99, 102, 241),
            border: (209, 213, 219),
            border_accent: (139, 92, 246),
            highlight: (59, 130, 246),
            text_primary: (17, 24, 39),
            text_secondary: (75, 85, 99),
            background: (255, 255, 255),
            surface: (249, 250, 251),
            success: (34, 197, 94),
            warning: (245, 158, 11),
            error: (239, 68, 68),
        }
    }

    /// Replaces the colours by those of the other theme, whatever they were.
    pub fn toggle_theme(&mut self)
        ensures
            *final(self) == toggled(old(self).theme),
    {
        *self = match self.theme {
            Theme::Dark => Palette::light(),
            Theme::Light => Palette::dark(),
        };
    }
}

} // verus!
