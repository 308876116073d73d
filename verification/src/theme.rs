//! The colors of the client and the styles made of them.

use crate::models::{at_least, RISK_HIGH_BITS, RISK_MEDIUM_BITS, INFINITY_BITS};
use crate::text::same_text;
use vstd::prelude::*;

verus! {

/// The colors that the themes use.
#[derive(Debug, Clone, Copy, PartialEq, Eq, Structural)]
pub enum Color {
    Black,
    Red,
    Green,
    Yellow,
    Blue,
    Cyan,
    Gray,
    DarkGray,
    White,
}

/// How a piece of text is drawn: its color, the color behind it, each where
/// one is set, and whether it is bold.
#[derive(Debug, Clone, Copy, PartialEq, Eq)]
pub struct Style {
    pub fg: Option<Color>,
    pub bg: Option<Color>,
    pub bold: bool,
}

/// The colors of the client, by what they are used for.
#[derive(Debug, Clone, Copy, PartialEq, Eq)]
pub struct Theme {
    /// Titles.
    pub primary: Color,
    /// Subtitles.
    pub secondary: Color,
    /// Behind the text.
    pub background: Color,
    /// The text.
    pub foreground: Color,
    /// Frames.
    pub border: Color,
    /// Messages of success.
    pub success: Color,
    /// Warnings and key names.
    pub warning: Color,
    /// Messages of failure.
    pub error: Color,
    /// Information.
    pub info: Color,
    /// A low risk.
    pub risk_low: Color,
    /// A medium risk.
    pub risk_medium: Color,
    /// A high risk.
    pub risk_high: Color,
    /// An unknown risk.
    pub risk_na: Color,
    /// Highlighted text.
    pub highlight: Color,
    /// The selected row.
    pub selected: Color,
    /// The focused box.
    pub focused: Color,
    /// What cannot be used.
    pub disabled: Color,
}

/// The sign of a high risk.
pub const RISK_HIGH_SIGN: &'static str = "ðŸ”´";

/// The sign of a medium risk.
pub const RISK_MEDIUM_SIGN: &'static str = "ðŸŸ¡";

/// The sign of a low risk.
pub const RISK_LOW_SIGN: &'static str = "ðŸŸ¢";

/// The sign of an unknown risk.
pub const RISK_UNKNOWN_SIGN: &'static str = "âšª";

impl Theme {
    /// The colors of the default theme.
    pub open spec fn default_colors() -> Theme {
        Theme {
            primary: Color::Cyan,
            secondary: Color::Blue,
            background: Color::Black,
            foreground: Color::White,
            border: Color::Gray,
            success: Color::Green,
            warning: Color::Yellow,
            error: Color::Red,
            info: Color::Cyan,
            risk_low: Color::Green,
            risk_medium: Color::Yellow,
            risk_high: Color::Red,
            risk_na: Color::Gray,
            highlight: Color::Yellow,
            selected: Color::Cyan,
            focused: Color::Yellow,
            disabled: Color::DarkGray,
        }
    }

    /// The colors of the light theme.
    pub open spec fn light_colors() -> Theme {
        Theme {
            primary: Color::Blue,
            secondary: Color::Cyan,
            background: Color::White,
            foreground: Color::Black,
            border: Color::Gray,
            success: Color::Green,
            warning: Color::Yellow,
            error: Color::Red,
            info: Color::Blue,
            risk_low: Color::Green,
            risk_medium: Color::Yellow,
            risk_high: Color::Red,
            risk_na: Color::Gray,
            highlight: Color::Blue,
            selected: Color::Cyan,
            focused: Color::Blue,
            disabled: Color::Gray,
        }
    }

    /// The colors of the theme called `name`: the light theme for "light",
    /// the default theme for "dark" and for every other name.
    pub open spec fn named_colors(name: Seq<char>) -> Theme {
        if name == "light"@ {
            Theme::light_colors()
        } else {
            Theme::default_colors()
        }
    }

    /// The color of a risk score, given as the bit pattern of a double: that
    /// of a high risk from 0.7, of a medium risk from 0.4, of a low risk for
    /// every other score, and of an unknown risk without a score.
    pub open spec fn risk_color_of(&self, score_bits: Option<u64>) -> Color {
        match score_bits {
            Some(bits) => if at_least(bits, RISK_HIGH_BITS) {
                self.risk_high
            } else if at_least(bits, RISK_MEDIUM_BITS) {
                self.risk_medium
            } else {
                self.risk_low
            },
            None => self.risk_na,
        }
    }

    /// The sign of a risk score, by the same levels.
    pub open spec fn risk_sign_of(score_bits: Option<u64>) -> Seq<char> {
        match score_bits {
            Some(bits) => if at_least(bits, RISK_HIGH_BITS) {
                RISK_HIGH_SIGN@
            } else if at_least(bits, RISK_MEDIUM_BITS) {
                RISK_MEDIUM_SIGN@
            } else {
                RISK_LOW_SIGN@
            },
            None => RISK_UNKNOWN_SIGN@,
        }
    }

    /// The default theme.
    pub fn default() -> (theme: Self)
        ensures
            theme == Theme::default_colors(),
    {
        Theme {
            primary: Color::Cyan,
            secondary: Color::Blue,
            background: Color::Black,
            foreground: Color::White,
            border: Color::Gray,
            success: Color::Green,
            warning: Color::Yellow,
            error: Color::Red,
            info: Color::Cyan,
            risk_low: Color::Green,
            risk_medium: Color::Yellow,
            risk_high: Color::Red,
            risk_na: Color::Gray,
            highlight: Color::Yellow,
            selected: Color::Cyan,
            focused: Color::Yellow,
            disabled: Color::DarkGray,
        }
    }

    /// The dark theme, which is the default theme.
    pub fn dark() -> (theme: Self)
        ensures
            theme == Theme::default_colors(),
    {
        Theme::default()
    }

    /// The light theme.
    pub fn light() -> (theme: Self)
        ensures
            theme == Theme::light_colors(),
    {
        Theme {
            primary: Color::Blue,
            secondary: Color::Cyan,
            background: Color::White,
            foreground: Color::Black,
            border: Color::Gray,
            success: Color::Green,
            warning: Color::Yellow,
            error: Color::Red,
            info: Color::Blue,
            risk_low: Color::Green,
            risk_medium: Color::Yellow,
            risk_high: Color::Red,
            risk_na: Color::Gray,
            highlight: Color::Blue,
            selected: Color::Cyan,
            focused: Color::Blue,
            disabled: Color::Gray,
        }
    }

    /// The theme called `name`; the default theme for an unknown name.
    pub fn from_name(name: &str) -> (theme: Self)
        ensures
            theme == Theme::named_colors(name@),
    {
        if same_text(name, "light") {
            Theme::light()
        } else if same_text(name, "dark") {
            Theme::dark()
        } else {
            Theme::default()
        }
    }

    /// Plain text: the text color on the background.
    pub fn normal(&self) -> (style: Style)
        ensures
            style == (Style { fg: Some(self.foreground), bg: Some(self.background), bold: false }),
    {
        Style { fg: Some(self.foreground), bg: Some(self.background), bold: false }
    }

    /// Bold text on the background.
    pub fn bold(&self) -> (style: Style)
        ensures
            style == (Style { fg: Some(self.foreground), bg: Some(self.background), bold: true }),
    {
        Style { fg: Some(self.foreground), bg: Some(self.background), bold: true }
    }

    /// The selected row, bold.
    pub fn selected(&self) -> (style: Style)
        ensures
            style == (Style { fg: Some(self.selected), bg: None, bold: true }),
    {
        Style { fg: Some(self.selected), bg: None, bold: true }
    }

    /// The focused box, bold.
    pub fn focused(&self) -> (style: Style)
        ensures
            style == (Style { fg: Some(self.focused), bg: None, bold: true }),
    {
        Style { fg: Some(self.focused), bg: None, bold: true }
    }

    /// The frame of the focused box.
    pub fn focused_border(&self) -> (style: Style)
        ensures
            style == (Style { fg: Some(self.focused), bg: None, bold: false }),
    {
        Style { fg: Some(self.focused), bg: None, bold: false }
    }

    /// The frame of any other box.
    pub fn normal_border(&self) -> (style: Style)
        ensures
            style == (Style { fg: Some(self.border), bg: None, bold: false }),
    {
        Style { fg: Some(self.border), bg: None, bold: false }
    }

    /// Titles, bold.
    pub fn title(&self) -> (style: Style)
        ensures
            style == (Style { fg: Some(self.primary), bg: None, bold: true }),
    {
        Style { fg: Some(self.primary), bg: None, bold: true }
    }

    /// Subtitles.
    pub fn subtitle(&self) -> (style: Style)
        ensures
            style == (Style { fg: Some(self.secondary), bg: None, bold: false }),
    {
        Style { fg: Some(self.secondary), bg: None, bold: false }
    }

    /// Messages of failure, bold.
    pub fn error_style(&self) -> (style: Style)
        ensures
            style == (Style { fg: Some(self.error), bg: None, bold: true }),
    {
        Style { fg: Some(self.error), bg: None, bold: true }
    }

    /// Messages of success, bold.
    pub fn success_style(&self) -> (style: Style)
        ensures
            style == (Style { fg: Some(self.success), bg: None, bold: true }),
    {
        Style { fg: Some(self.success), bg: None, bold: true }
    }

    /// Warnings and key names, bold.
    pub fn warning_style(&self) -> (style: Style)
        ensures
            style == (Style { fg: Some(self.warning), bg: None, bold: true }),
    {
        Style { fg: Some(self.warning), bg: None, bold: true }
    }

    /// Information.
    pub fn info_style(&self) -> (style: Style)
        ensures
            style == (Style { fg: Some(self.info), bg: None, bold: false }),
    {
        Style { fg: Some(self.info), bg: None, bold: false }
    }

    /// What cannot be used.
    pub fn disabled_style(&self) -> (style: Style)
        ensures
            style == (Style { fg: Some(self.disabled), bg: None, bold: false }),
    {
        Style { fg: Some(self.disabled), bg: None, bold: false }
    }

    /// The style of a risk score: its color, bold.
    pub fn risk_style(&self, score_bits: Option<u64>) -> (style: Style)
        ensures
            style == (Style { fg: Some(self.risk_color_of(score_bits)), bg: None, bold: true }),
    {
        Style { fg: Some(self.risk_color(score_bits)), bg: None, bold: true }
    }

    /// The color of a risk score.
    pub fn risk_color(&self, score_bits: Option<u64>) -> (color: Color)
        ensures
            color == self.risk_color_of(score_bits),
    {
        match score_bits {
            Some(bits) => if RISK_HIGH_BITS <= bits && bits <= INFINITY_BITS {
                self.risk_high
            } else if RISK_MEDIUM_BITS <= bits && bits <= INFINITY_BITS {
                self.risk_medium
            } else {
                self.risk_low
            },
            None => self.risk_na,
        }
    }

    /// The sign of a risk score.
    pub fn risk_emoji(score_bits: Option<u64>) -> (sign: &'static str)
        ensures
            sign@ == Theme::risk_sign_of(score_bits),
    {
        match score_bits {
            Some(bits) => if RISK_HIGH_BITS <= bits && bits <= INFINITY_BITS {
                RISK_HIGH_SIGN
            } else if RISK_MEDIUM_BITS <= bits && bits <= INFINITY_BITS {
                RISK_MEDIUM_SIGN
            } else {
                RISK_LOW_SIGN
            },
            None => RISK_UNKNOWN_SIGN,
        }
    }
}

} // verus!
