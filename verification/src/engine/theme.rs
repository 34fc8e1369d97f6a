//! The visual theme and its colours.

use vstd::prelude::*;

verus! {

/// A colour as red, green and blue.
pub type Rgb = (u8, u8, u8);

/// The colour that an array of three bytes holds.
pub open spec fn rgb(colour: [u8; 3]) -> Rgb {
    (colour[0], colour[1], colour[2])
}

/// The colours of a theme.
#[derive(Clone, Copy, Debug, PartialEq, Eq)]
pub struct ThemePalette {
    pub background_primary: [u8; 3],
    pub background_secondary: [u8; 3],
    pub background_tertiary: [u8; 3],
    pub text_primary: [u8; 3],
    pub text_secondary: [u8; 3],
    pub text_muted: [u8; 3],
    pub accent_primary: [u8; 3],
    pub accent_secondary: [u8; 3],
    pub success: [u8; 3],
    pub warning: [u8; 3],
    pub error: [u8; 3],
    pub border: [u8; 3],
    pub separator: [u8; 3],
    pub selection: [u8; 3],
}

/// Mathematical value of a [`ThemePalette`].
pub struct ThemePaletteView {
    pub background_primary: Rgb,
    pub background_secondary: Rgb,
    pub background_tertiary: Rgb,
    pub text_primary: Rgb,
    pub text_secondary: Rgb,
    pub text_muted: Rgb,
    pub accent_primary: Rgb,
    pub accent_secondary: Rgb,
    pub success: Rgb,
    pub warning: Rgb,
    pub error: Rgb,
    pub border: Rgb,
    pub separator: Rgb,
    pub selection: Rgb,
}

impl View for ThemePalette {
    type V = ThemePaletteView;

    open spec fn view(&self) -> ThemePaletteView {
        ThemePaletteView {
            background_primary: rgb(self.background_primary),
            background_secondary: rgb(self.background_secondary),
            background_tertiary: rgb(self.background_tertiary),
            text_primary: rgb(self.text_primary),
            text_secondary: rgb(self.text_secondary),
            text_muted: rgb(self.text_muted),
            accent_primary: rgb(self.accent_primary),
            accent_secondary: rgb(self.accent_secondary),
            success: rgb(self.success),
            warning: rgb(self.warning),
            error: rgb(self.error),
            border: rgb(self.border),
            separator: rgb(self.separator),
            selection: rgb(self.selection),
        }
    }
}

/// The colours of the dark theme: light text on dark backgrounds, with cyan
/// as the accent.
pub open spec fn dark_palette() -> ThemePaletteView {
    ThemePaletteView {
        background_primary: (33, 37, 43),
        background_secondary: (52, 58, 64),
        background_tertiary: (73, 80, 87),
        text_primary: (248, 249, 250),
        text_secondary: (222, 226, 230),
        text_muted: (173, 181, 189),
        accent_primary: (13, 202, 240),
        accent_secondary: (111, 66, 193),
        success: (25, 135, 84),
        warning: (255, 193, 7),
        error: (220, 53, 69),
        border: (73, 80, 87),
        separator: (108, 117, 125),
        selection: (13, 202, 240),
    }
}

/// The colours of the light theme: dark text on light backgrounds, with blue
/// as the accent.
pub open spec fn light_palette() -> ThemePaletteView {
    ThemePaletteView {
        background_primary: (255, 255, 255),
        background_secondary: (248, 249, 250),
        background_tertiary: (233, 236, 239),
        text_primary: (33, 37, 43),
        text_secondary: (73, 80, 87),
        text_muted: (108, 117, 125),
        accent_primary: (13, 110, 253),
        accent_secondary: (111, 66, 193),
        success: (25, 135, 84),
        warning: (255, 193, 7),
        error: (220, 53, 69),
        border: (222, 226, 230),
        separator: (173, 181, 189),
        selection: (13, 110, 253),
    }
}

/// The colours of the dark theme or of the light one.
pub open spec fn palette_for(dark_mode: bool) -> ThemePaletteView {
    if dark_mode {
        dark_palette()
    } else {
        light_palette()
    }
}

/// The name of the dark theme or of the light one.
pub open spec fn theme_name(dark_mode: bool) -> Seq<char> {
    if dark_mode {
        "Dark"@
    } else {
        "Light"@
    }
}

/// The hexadecimal digit of `value`, in lower case.
pub open spec fn hex_digit(value: nat) -> char {
    if value == 0 {
        '0'
    } else if value == 1 {
        '1'
    } else if value == 2 {
        '2'
    } else if value == 3 {
        '3'
    } else if value == 4 {
        '4'
    } else if value == 5 {
        '5'
    } else if value == 6 {
        '6'
    } else if value == 7 {
        '7'
    } else if value == 8 {
        '8'
    } else if value == 9 {
        '9'
    } else if value == 10 {
        'a'
    } else if value == 11 {
        'b'
    } else if value == 12 {
        'c'
    } else if value == 13 {
        'd'
    } else if value == 14 {
        'e'
    } else {
        'f'
    }
}

/// The two hexadecimal digits of a byte.
pub open spec fn hex_byte(value: u8) -> Seq<char> {
    seq![hex_digit((value / 16) as nat), hex_digit((value % 16) as nat)]
}

/// A colour in the notation of style sheets: `#`, then two lower-case
/// hexadecimal digits each for red, green and blue.
pub open spec fn hex_colour(colour: Rgb) -> Seq<char> {
    seq!['#'] + hex_byte(colour.0) + hex_byte(colour.1) + hex_byte(colour.2)
}

/// The theme of the application.
#[derive(Clone, Copy, Debug)]
pub struct Theme {
    pub dark_mode: bool,
    pub palette: ThemePalette,
}

impl Default for Theme {
    /// The dark theme.
    fn default() -> (theme: Self)
        ensures
            theme.dark_mode,
            theme.palette@ == dark_palette(),
    {
        Theme::new(true)
    }
}

impl Theme {
    /// The dark theme or the light one.
    pub fn new(dark_mode: bool) -> (theme: Self)
        ensures
            theme.dark_mode == dark_mode,
            theme.palette@ == palette_for(dark_mode),
    {
        Theme {
            dark_mode,
            palette: if dark_mode {
                ThemePalette::dark()
            } else {
                ThemePalette::light()
            },
        }
    }

    /// Changes from the dark theme to the light one or back, whatever colours
    /// the theme held.
    pub fn toggle(&mut self)
        ensures
            final(self).dark_mode == !old(self).dark_mode,
            final(self).palette@ == palette_for(!old(self).dark_mode),
    {
        self.dark_mode = !self.dark_mode;
        self.palette = if self.dark_mode {
            ThemePalette::dark()
        } else {
            ThemePalette::light()
        };
    }

    /// The name of the theme: `Dark` or `Light`.
    pub fn name(&self) -> (name: &'static str)
        ensures
            name@ == theme_name(self.dark_mode),
    {
        if self.dark_mode {
            "Dark"
        } else {
            "Light"
        }
    }
}

impl ThemePalette {
    /// The colours of the dark theme.
    pub fn dark() -> (palette: Self)
        ensures
            palette@ == dark_palette(),
    {
        ThemePalette {
            background_primary: [33, 37, 43],
            background_secondary: [52, 58, 64],
            background_tertiary: [73, 80, 87],
            text_primary: [248, 249, 250],
            text_secondary: [222, 226, 230],
            text_muted: [173, 181, 189],
            accent_primary: [13, 202, 240],
            accent_secondary: [111, 66, 193],
            success: [25, 135, 84],
            warning: [255, 193, 7],
            error: [220, 53, 69],
            border: [73, 80, 87],
            separator: [108, 117, 125],
            selection: [13, 202, 240],
        }
    }

    /// The colours of the light theme.
    pub fn light() -> (palette: Self)
        ensures
            palette@ == light_palette(),
    {
        ThemePalette {
            background_primary: [255, 255, 255],
            background_secondary: [248, 249, 250],
            background_tertiary: [233, 236, 239],
            text_primary: [33, 37, 43],
            text_secondary: [73, 80, 87],
            text_muted: [108, 117, 125],
            accent_primary: [13, 110, 253],
            accent_secondary: [111, 66, 193],
            success: [25, 135, 84],
            warning: [255, 193, 7],
            error: [220, 53, 69],
            border: [222, 226, 230],
            separator: [173, 181, 189],
            selection: [13, 110, 253],
        }
    }

    /// The colour in the notation of style sheets, such as `#ff8040`.
    pub fn rgb_to_hex(rgb: [u8; 3]) -> (text: String)
        ensures
            text@ == hex_colour(self::rgb(rgb)),
    {
        proof {
            reveal_strlit("#");
        }
        let text = "#".to_string().concat(hex_text(rgb[0] / 16)).concat(
            hex_text(rgb[0] % 16),
        ).concat(hex_text(rgb[1] / 16)).concat(hex_text(rgb[1] % 16)).concat(
            hex_text(rgb[2] / 16),
        ).concat(hex_text(rgb[2] % 16));
        assert(text@ =~= hex_colour(self::rgb(rgb)));
        text
    }
}

/// The text of one hexadecimal digit.
fn hex_text(value: u8) -> (text: &'static str)
    requires
        value < 16,
    ensures
        text@ == seq![hex_digit(value as nat)],
{
    proof {
        reveal_strlit("0");
        reveal_strlit("1");
        reveal_strlit("2");
        reveal_strlit("3");
        reveal_strlit("4");
        reveal_strlit("5");
        reveal_strlit("6");
        reveal_strlit("7");
        reveal_strlit("8");
        reveal_strlit("9");
        reveal_strlit("a");
        reveal_strlit("b");
        reveal_strlit("c");
        reveal_strlit("d");
        reveal_strlit("e");
        reveal_strlit("f");
    }
    let text = if value == 0 {
        "0"
    } else if value == 1 {
        "1"
    } else if value == 2 {
        "2"
    } else if value == 3 {
        "3"
    } else if value == 4 {
        "4"
    } else if value == 5 {
        "5"
    } else if value == 6 {
        "6"
    } else if value == 7 {
        "7"
    } else if value == 8 {
        "8"
    } else if value == 9 {
        "9"
    } else if value == 10 {
        "a"
    } else if value == 11 {
        "b"
    } else if value == 12 {
        "c"
    } else if value == 13 {
        "d"
    } else if value == 14 {
        "e"
    } else {
        "f"
    };
    assert(text@ =~= seq![hex_digit(value as nat)]);
    text
}

} // verus!
