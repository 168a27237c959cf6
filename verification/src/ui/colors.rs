//! Colours of the user interface: the colour values, the colour scheme,
//! and the parsing of colours written in the configuration file.

use vstd::prelude::*;
use vstd::string::*;

use crate::text::{
    captures,
    chars_of,
    eq_str,
    groups_view,
    lowercase,
    parse_u8_radix,
    regex_captures,
    spec_parse_u8_radix,
    starts_with,
    to_lowercase,
};

verus! {

/// Pattern of a colour written as a hex code, such as `#ff0000`.
pub const COLOR_HEX_PATTERN: &'static str = r"(?i)#([0-9a-f]{2})([0-9a-f]{2})([0-9a-f]{2})";

/// Pattern of a colour written as `rgb(r, g, b)`.
pub const COLOR_RGB_PATTERN: &'static str = r"(?i)rgb\(([0-9]+), ?([0-9]+), ?([0-9]+)\)";

/// A terminal colour.
#[derive(Debug, Clone, Copy, PartialEq, Eq, Structural)]
pub enum Color {
    /// The terminal's own default colour.
    Reset,
    Black,
    DarkGrey,
    Red,
    DarkRed,
    Green,
    DarkGreen,
    Yellow,
    DarkYellow,
    Blue,
    DarkBlue,
    Magenta,
    DarkMagenta,
    Cyan,
    DarkCyan,
    White,
    Grey,
    Rgb { r: u8, g: u8, b: u8 },
    AnsiValue(u8),
}

/// The roles a colour pair can play in the interface.
#[derive(Debug, Clone, Copy, PartialEq, Eq, Structural)]
pub enum ColorType {
    Normal,
    Bold,
    HighlightedActive,
    Highlighted,
    Error,
}

/// Why a colour could not be parsed.
#[derive(Debug, Clone, Copy, PartialEq, Eq, Structural)]
pub enum ColorError {
    /// The text starts with `#` but is not a hex colour code.
    InvalidHex,
    /// The text starts with `rgb` or `RGB` but is not an RGB code.
    InvalidRgb,
    /// An RGB component is not a number from 0 to 255.
    ComponentOutOfRange,
    /// The text is not the name of a colour.
    InvalidName,
}

/// The colours of the interface; each pair is (foreground, background).
#[derive(Debug, Clone, Copy, PartialEq, Eq)]
pub struct AppColors {
    pub normal: (Color, Color),
    pub bold: (Color, Color),
    pub highlighted_active: (Color, Color),
    pub highlighted: (Color, Color),
    pub error: (Color, Color),
}

/// Colours as read from the configuration file; any may be missing.
#[derive(Debug)]
pub struct AppColorsFromToml {
    pub normal_foreground: Option<String>,
    pub normal_background: Option<String>,
    pub bold_foreground: Option<String>,
    pub bold_background: Option<String>,
    pub highlighted_active_foreground: Option<String>,
    pub highlighted_active_background: Option<String>,
    pub highlighted_foreground: Option<String>,
    pub highlighted_background: Option<String>,
    pub error_foreground: Option<String>,
    pub error_background: Option<String>,
}

/// The colour a (lowercased) name stands for.
pub open spec fn spec_color_name(name: Seq<char>) -> Option<Color> {
    if name == "black"@ {
        Some(Color::Black)
    } else if name == "darkgrey"@ || name == "darkgray"@ {
        Some(Color::DarkGrey)
    } else if name == "red"@ {
        Some(Color::Red)
    } else if name == "darkred"@ {
        Some(Color::DarkRed)
    } else if name == "green"@ {
        Some(Color::Green)
    } else if name == "darkgreen"@ {
        Some(Color::DarkGreen)
    } else if name == "yellow"@ {
        Some(Color::Yellow)
    } else if name == "darkyellow"@ {
        Some(Color::DarkYellow)
    } else if name == "blue"@ {
        Some(Color::Blue)
    } else if name == "darkblue"@ {
        Some(Color::DarkBlue)
    } else if name == "magenta"@ {
        Some(Color::Magenta)
    } else if name == "darkmagenta"@ {
        Some(Color::DarkMagenta)
    } else if name == "cyan"@ {
        Some(Color::Cyan)
    } else if name == "darkcyan"@ {
        Some(Color::DarkCyan)
    } else if name == "white"@ {
        Some(Color::White)
    } else if name == "grey"@ || name == "gray"@ {
        Some(Color::Grey)
    } else if name == "terminal"@ {
        Some(Color::Reset)
    } else {
        None
    }
}

/// The colour that three captured components stand for, each parsed in
/// the radix: an error if a component is missing or out of range.
pub open spec fn spec_rgb_from_groups(groups: Seq<Option<Seq<char>>>, radix: nat) -> Result<
    Color,
    ColorError,
> {
    if groups.len() >= 4 && groups[1] is Some && groups[2] is Some && groups[3] is Some {
        match (
            spec_parse_u8_radix(groups[1]->0, radix),
            spec_parse_u8_radix(groups[2]->0, radix),
            spec_parse_u8_radix(groups[3]->0, radix),
        ) {
            (Some(r), Some(g), Some(b)) => Ok(Color::Rgb { r, g, b }),
            _ => Err(ColorError::ComponentOutOfRange),
        }
    } else {
        Err(ColorError::ComponentOutOfRange)
    }
}

/// Whether `s` starts with `prefix`.
pub open spec fn has_prefix(s: Seq<char>, prefix: Seq<char>) -> bool {
    prefix.len() <= s.len() && s.take(prefix.len() as int) == prefix
}

/// The colour that a configuration value stands for: a hex code
/// (`#rrggbb`), an RGB code (`rgb(r, g, b)`, any case), or one of the
/// colour names, in any case.
pub open spec fn spec_color_from_str(text: Seq<char>) -> Result<Color, ColorError> {
    if has_prefix(text, seq!['#']) {
        match regex_captures(COLOR_HEX_PATTERN@, text) {
            Some(groups) => spec_rgb_from_groups(groups, 16),
            None => Err(ColorError::InvalidHex),
        }
    } else if has_prefix(text, "rgb"@) || has_prefix(text, "RGB"@) {
        match regex_captures(COLOR_RGB_PATTERN@, text) {
            Some(groups) => spec_rgb_from_groups(groups, 10),
            None => Err(ColorError::InvalidRgb),
        }
    } else {
        match spec_color_name(lowercase(text)) {
            Some(c) => Ok(c),
            None => Err(ColorError::InvalidName),
        }
    }
}

/// The colour three captured components stand for.
pub fn rgb_from_groups(groups: &Vec<Option<Vec<char>>>, radix: u32) -> (res: Result<Color, ColorError>)
    requires
        2 <= radix <= 36,
    ensures
        res == spec_rgb_from_groups(groups_view(Some(*groups))->0, radix as nat),
{
    let ghost g = groups_view(Some(*groups))->0;
    if groups.len() >= 4 {
        match (&groups[1], &groups[2], &groups[3]) {
            (Some(r), Some(gr), Some(b)) => {
                assert(g[1] == Some(r@) && g[2] == Some(gr@) && g[3] == Some(b@));
                match (parse_u8_radix(r, radix), parse_u8_radix(gr, radix), parse_u8_radix(b, radix)) {
                    (Some(r), Some(g), Some(b)) => Ok(Color::Rgb { r, g, b }),
                    _ => Err(ColorError::ComponentOutOfRange),
                }
            },
            _ => {
                assert(!(g[1] is Some && g[2] is Some && g[3] is Some));
                Err(ColorError::ComponentOutOfRange)
            },
        }
    } else {
        Err(ColorError::ComponentOutOfRange)
    }
}

/// The colour a name stands for; `lower` is already lowercase.
pub fn color_from_name(lower: &String) -> (res: Option<Color>)
    ensures
        res == spec_color_name(lower@),
{
    if eq_str(lower, "black") {
        Some(Color::Black)
    } else if eq_str(lower, "darkgrey") || eq_str(lower, "darkgray") {
        Some(Color::DarkGrey)
    } else if eq_str(lower, "red") {
        Some(Color::Red)
    } else if eq_str(lower, "darkred") {
        Some(Color::DarkRed)
    } else if eq_str(lower, "green") {
        Some(Color::Green)
    } else if eq_str(lower, "darkgreen") {
        Some(Color::DarkGreen)
    } else if eq_str(lower, "yellow") {
        Some(Color::Yellow)
    } else if eq_str(lower, "darkyellow") {
        Some(Color::DarkYellow)
    } else if eq_str(lower, "blue") {
        Some(Color::Blue)
    } else if eq_str(lower, "darkblue") {
        Some(Color::DarkBlue)
    } else if eq_str(lower, "magenta") {
        Some(Color::Magenta)
    } else if eq_str(lower, "darkmagenta") {
        Some(Color::DarkMagenta)
    } else if eq_str(lower, "cyan") {
        Some(Color::Cyan)
    } else if eq_str(lower, "darkcyan") {
        Some(Color::DarkCyan)
    } else if eq_str(lower, "white") {
        Some(Color::White)
    } else if eq_str(lower, "grey") || eq_str(lower, "gray") {
        Some(Color::Grey)
    } else if eq_str(lower, "terminal") {
        Some(Color::Reset)
    } else {
        None
    }
}

/// The default colours; the value of `AppColors::default()`.
pub open spec fn spec_default_colors() -> AppColors {
    AppColors {
        normal: (Color::Grey, Color::Black),
        bold: (Color::White, Color::Black),
        highlighted_active: (Color::Black, Color::DarkYellow),
        highlighted: (Color::Black, Color::Grey),
        error: (Color::Red, Color::Black),
    }
}

/// The colour that a configuration value sets, if it is given and
/// parses; otherwise the current colour.
pub open spec fn configured_color(current: Color, value: Option<String>) -> Color {
    match value {
        Some(v) => match spec_color_from_str(v@) {
            Ok(c) => c,
            Err(_) => current,
        },
        None => current,
    }
}

impl AppColors {
    /// The default colours.
    pub fn default() -> (res: Self)
        ensures
            res == spec_default_colors(),
    {
        Self {
            normal: (Color::Grey, Color::Black),
            bold: (Color::White, Color::Black),
            highlighted_active: (Color::Black, Color::DarkYellow),
            highlighted: (Color::Black, Color::Grey),
            error: (Color::Red, Color::Black),
        }
    }

    /// Replaces each colour that the configuration sets with a value
    /// that parses; the other colours stay as they are.
    pub fn add_from_config(&mut self, config: AppColorsFromToml)
        ensures
            final(self).normal == (
                configured_color(old(self).normal.0, config.normal_foreground),
                configured_color(old(self).normal.1, config.normal_background),
            ),
            final(self).bold == (
                configured_color(old(self).bold.0, config.bold_foreground),
                configured_color(old(self).bold.1, config.bold_background),
            ),
            final(self).highlighted_active == (
                configured_color(
                    old(self).highlighted_active.0,
                    config.highlighted_active_foreground,
                ),
                configured_color(
                    old(self).highlighted_active.1,
                    config.highlighted_active_background,
                ),
            ),
            final(self).highlighted == (
                configured_color(old(self).highlighted.0, config.highlighted_foreground),
                configured_color(old(self).highlighted.1, config.highlighted_background),
            ),
            final(self).error == (
                configured_color(old(self).error.0, config.error_foreground),
                configured_color(old(self).error.1, config.error_background),
            ),
    {
        self.normal.0 = apply_color(self.normal.0, &config.normal_foreground);
        self.normal.1 = apply_color(self.normal.1, &config.normal_background);
        self.bold.0 = apply_color(self.bold.0, &config.bold_foreground);
        self.bold.1 = apply_color(self.bold.1, &config.bold_background);
        self.highlighted_active.0 = apply_color(
            self.highlighted_active.0,
            &config.highlighted_active_foreground,
        );
        self.highlighted_active.1 = apply_color(
            self.highlighted_active.1,
            &config.highlighted_active_background,
        );
        self.highlighted.0 = apply_color(self.highlighted.0, &config.highlighted_foreground);
        self.highlighted.1 = apply_color(self.highlighted.1, &config.highlighted_background);
        self.error.0 = apply_color(self.error.0, &config.error_foreground);
        self.error.1 = apply_color(self.error.1, &config.error_background);
    }

    /// Parses a colour given as a hex code (`#ff0000`), as an RGB code
    /// (`rgb(255, 0, 0)`), or as one of the colour names.
    pub fn color_from_str(text: &str) -> (res: Result<Color, ColorError>)
        ensures
            res == spec_color_from_str(text@),
    {
        let chars = chars_of(text);
        proof {
            reveal_strlit("#");
            assert("#"@ =~= seq!['#']);
        }
        if starts_with(&chars, "#") {
            match captures(COLOR_HEX_PATTERN, text) {
                Some(groups) => rgb_from_groups(&groups, 16),
                None => Err(ColorError::InvalidHex),
            }
        } else if starts_with(&chars, "rgb") || starts_with(&chars, "RGB") {
            match captures(COLOR_RGB_PATTERN, text) {
                Some(groups) => rgb_from_groups(&groups, 10),
                None => Err(ColorError::InvalidRgb),
            }
        } else {
            let lower = to_lowercase(text);
            match color_from_name(&lower) {
                Some(c) => Ok(c),
                None => Err(ColorError::InvalidName),
            }
        }
    }
}

/// The colour after a configuration value is applied.
fn apply_color(current: Color, value: &Option<String>) -> (res: Color)
    ensures
        res == configured_color(current, *value),
{
    match value {
        Some(v) => match AppColors::color_from_str(v.as_str()) {
            Ok(c) => c,
            Err(_) => current,
        },
        None => current,
    }
}

} // verus!
