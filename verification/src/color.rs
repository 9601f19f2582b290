//! Text colors and their wire tokens.

use vstd::prelude::*;
use vstd::string::*;
use crate::error::DecodeError;
use crate::freeze::FrozenStr;
use crate::strings::{sig, str_eq};

verus! {

/// The colors a component can have.
#[derive(Debug, PartialEq, Eq, Hash)]
pub enum TextColor {
    /// RGB = (0, 0, 0)
    Black,
    /// RGB = (0, 0, 170)
    DarkBlue,
    /// RGB = (0, 170, 0)
    DarkGreen,
    /// RGB = (0, 170, 170)
    DarkCyan,
    /// RGB = (170, 0, 0)
    DarkRed,
    /// RGB = (170, 0, 170)
    Purple,
    /// RGB = (255, 170, 0)
    Gold,
    /// RGB = (170, 170, 170)
    Gray,
    /// RGB = (85, 85, 85)
    DarkGray,
    /// RGB = (85, 85, 255)
    Blue,
    /// RGB = (85, 255, 85)
    Green,
    /// RGB = (85, 255, 255)
    Cyan,
    /// RGB = (255, 85, 85)
    Red,
    /// RGB = (255, 85, 255)
    Pink,
    /// RGB = (255, 255, 85)
    Yellow,
    /// RGB = (255, 255, 255)
    White,
    /// A color of its own, written `#RRGGBB`. Readers older than 1.16 do not
    /// know such colors, and the encoder leaves them out for those.
    Custom(FrozenStr),
    Reset,
}

/// The mathematical value of a [`TextColor`].
pub enum ColorView {
    Black,
    DarkBlue,
    DarkGreen,
    DarkCyan,
    DarkRed,
    Purple,
    Gold,
    Gray,
    DarkGray,
    Blue,
    Green,
    Cyan,
    Red,
    Pink,
    Yellow,
    White,
    Custom(Seq<char>),
    Reset,
}

impl View for TextColor {
    type V = ColorView;

    open spec fn view(&self) -> ColorView {
        match self {
            TextColor::Black => ColorView::Black,
            TextColor::DarkBlue => ColorView::DarkBlue,
            TextColor::DarkGreen => ColorView::DarkGreen,
            TextColor::DarkCyan => ColorView::DarkCyan,
            TextColor::DarkRed => ColorView::DarkRed,
            TextColor::Purple => ColorView::Purple,
            TextColor::Gold => ColorView::Gold,
            TextColor::Gray => ColorView::Gray,
            TextColor::DarkGray => ColorView::DarkGray,
            TextColor::Blue => ColorView::Blue,
            TextColor::Green => ColorView::Green,
            TextColor::Cyan => ColorView::Cyan,
            TextColor::Red => ColorView::Red,
            TextColor::Pink => ColorView::Pink,
            TextColor::Yellow => ColorView::Yellow,
            TextColor::White => ColorView::White,
            TextColor::Custom(color) => ColorView::Custom(color@),
            TextColor::Reset => ColorView::Reset,
        }
    }
}

impl Clone for TextColor {
    fn clone(&self) -> (copy: Self)
        ensures
            copy@ == self@,
    {
        match self {
            TextColor::Black => TextColor::Black,
            TextColor::DarkBlue => TextColor::DarkBlue,
            TextColor::DarkGreen => TextColor::DarkGreen,
            TextColor::DarkCyan => TextColor::DarkCyan,
            TextColor::DarkRed => TextColor::DarkRed,
            TextColor::Purple => TextColor::Purple,
            TextColor::Gold => TextColor::Gold,
            TextColor::Gray => TextColor::Gray,
            TextColor::DarkGray => TextColor::DarkGray,
            TextColor::Blue => TextColor::Blue,
            TextColor::Green => TextColor::Green,
            TextColor::Cyan => TextColor::Cyan,
            TextColor::Red => TextColor::Red,
            TextColor::Pink => TextColor::Pink,
            TextColor::Yellow => TextColor::Yellow,
            TextColor::White => TextColor::White,
            TextColor::Custom(color) => TextColor::Custom(color.clone()),
            TextColor::Reset => TextColor::Reset,
        }
    }
}

/// Whether `c` is one of `0-9`, `a-f`, `A-F`.
pub open spec fn is_hex_digit(c: char) -> bool {
    ('0' <= c <= '9') || ('a' <= c <= 'f') || ('A' <= c <= 'F')
}

/// Whether `s` is `#` followed by exactly six hex digits.
pub open spec fn is_hex_color(s: Seq<char>) -> bool {
    &&& s.len() == 7
    &&& s[0] == '#'
    &&& forall|i: int| 1 <= i < 7 ==> is_hex_digit(#[trigger] s[i])
}

impl ColorView {
    /// A custom color holds a well-formed `#RRGGBB`; every other color is
    /// well-formed as it is.
    pub open spec fn wf(self) -> bool {
        self matches ColorView::Custom(s) ==> is_hex_color(s)
    }

    /// Whether the color is one of its own rather than a named one.
    pub open spec fn is_custom(self) -> bool {
        self is Custom
    }
}

/// The wire token of a color: a fixed lowercase name, or a custom color's
/// own text.
pub open spec fn color_token(color: ColorView) -> Seq<char> {
    match color {
        ColorView::Black => "black"@,
        ColorView::DarkBlue => "dark_blue"@,
        ColorView::DarkGreen => "dark_green"@,
        ColorView::DarkCyan => "dark_aqua"@,
        ColorView::DarkRed => "dark_red"@,
        ColorView::Purple => "dark_purple"@,
        ColorView::Gold => "gold"@,
        ColorView::Gray => "gray"@,
        ColorView::DarkGray => "dark_gray"@,
        ColorView::Blue => "blue"@,
        ColorView::Green => "green"@,
        ColorView::Cyan => "aqua"@,
        ColorView::Red => "red"@,
        ColorView::Pink => "light_purple"@,
        ColorView::Yellow => "yellow"@,
        ColorView::White => "white"@,
        ColorView::Custom(text) => text,
        ColorView::Reset => "reset"@,
    }
}

/// The color that a wire token stands for: the token table comes first, and
/// anything else has to be a well-formed `#RRGGBB`.
pub open spec fn token_color(token: Seq<char>) -> Option<ColorView> {
    if token == "black"@ {
        Some(ColorView::Black)
    } else if token == "dark_blue"@ {
        Some(ColorView::DarkBlue)
    } else if token == "dark_green"@ {
        Some(ColorView::DarkGreen)
    } else if token == "dark_aqua"@ {
        Some(ColorView::DarkCyan)
    } else if token == "dark_red"@ {
        Some(ColorView::DarkRed)
    } else if token == "dark_purple"@ {
        Some(ColorView::Purple)
    } else if token == "gold"@ {
        Some(ColorView::Gold)
    } else if token == "gray"@ {
        Some(ColorView::Gray)
    } else if token == "dark_gray"@ {
        Some(ColorView::DarkGray)
    } else if token == "blue"@ {
        Some(ColorView::Blue)
    } else if token == "green"@ {
        Some(ColorView::Green)
    } else if token == "aqua"@ {
        Some(ColorView::Cyan)
    } else if token == "red"@ {
        Some(ColorView::Red)
    } else if token == "light_purple"@ {
        Some(ColorView::Pink)
    } else if token == "yellow"@ {
        Some(ColorView::Yellow)
    } else if token == "white"@ {
        Some(ColorView::White)
    } else if token == "reset"@ {
        Some(ColorView::Reset)
    } else if is_hex_color(token) {
        Some(ColorView::Custom(token))
    } else {
        None
    }
}

/// The fingerprints of the seventeen color names.
pub proof fn lemma_color_names()
    ensures
        sig("black"@) == (5nat, 'b', 'l', ' '),
        sig("dark_blue"@) == (9nat, 'd', 'a', 'b'),
        sig("dark_green"@) == (10nat, 'd', 'a', 'g'),
        sig("dark_aqua"@) == (9nat, 'd', 'a', 'a'),
        sig("dark_red"@) == (8nat, 'd', 'a', 'r'),
        sig("dark_purple"@) == (11nat, 'd', 'a', 'p'),
        sig("gold"@) == (4nat, 'g', 'o', ' '),
        sig("gray"@) == (4nat, 'g', 'r', ' '),
        sig("dark_gray"@) == (9nat, 'd', 'a', 'g'),
        sig("blue"@) == (4nat, 'b', 'l', ' '),
        sig("green"@) == (5nat, 'g', 'r', ' '),
        sig("aqua"@) == (4nat, 'a', 'q', ' '),
        sig("red"@) == (3nat, 'r', 'e', ' '),
        sig("light_purple"@) == (12nat, 'l', 'i', '_'),
        sig("yellow"@) == (6nat, 'y', 'e', 'w'),
        sig("white"@) == (5nat, 'w', 'h', ' '),
        sig("reset"@) == (5nat, 'r', 'e', ' '),
{
    reveal_strlit("black");
    reveal_strlit("dark_blue");
    reveal_strlit("dark_green");
    reveal_strlit("dark_aqua");
    reveal_strlit("dark_red");
    reveal_strlit("dark_purple");
    reveal_strlit("gold");
    reveal_strlit("gray");
    reveal_strlit("dark_gray");
    reveal_strlit("blue");
    reveal_strlit("green");
    reveal_strlit("aqua");
    reveal_strlit("red");
    reveal_strlit("light_purple");
    reveal_strlit("yellow");
    reveal_strlit("white");
    reveal_strlit("reset");
}

/// Reading back the token of a well-formed color gives that color.
pub proof fn lemma_color_round_trip(color: ColorView)
    requires
        color.wf(),
    ensures
        token_color(color_token(color)) == Some(color),
{
    lemma_color_names();
    if let ColorView::Custom(text) = color {
        assert(sig(text).1 == '#');
    }
}

/// A token that reads as a color is that color's own token, and the color is
/// well-formed.
pub proof fn lemma_token_round_trip(token: Seq<char>)
    ensures
        token_color(token) matches Some(color) ==> color.wf() && color_token(color) == token,
{
}

fn is_hex_digit_char(c: char) -> (yes: bool)
    ensures
        yes == is_hex_digit(c),
{
    ('0' <= c && c <= '9') || ('a' <= c && c <= 'f') || ('A' <= c && c <= 'F')
}

/// Whether `text` is `#` followed by exactly six hex digits.
pub fn is_hex_color_text(text: &str) -> (yes: bool)
    ensures
        yes == is_hex_color(text@),
{
    if text.unicode_len() != 7 {
        return false;
    }
    if text.get_char(0) != '#' {
        return false;
    }
    let mut i: usize = 1;
    while i < 7
        invariant
            1 <= i <= 7,
            text@.len() == 7,
            forall|j: int| 1 <= j < i ==> is_hex_digit(#[trigger] text@[j]),
        decreases 7 - i,
    {
        if !is_hex_digit_char(text.get_char(i)) {
            return false;
        }
        i += 1;
    }
    true
}

impl TextColor {
    /// A color of its own from its `#RRGGBB` text.
    pub fn custom(color: &str) -> (made: TextColor)
        ensures
            made@ == ColorView::Custom(color@),
    {
        TextColor::Custom(FrozenStr::new(color))
    }

    /// The wire token of the color.
    pub fn to_string(&self) -> (token: String)
        ensures
            token@ == color_token(self@),
    {
        match self {
            TextColor::Black => "black".to_owned(),
            TextColor::DarkBlue => "dark_blue".to_owned(),
            TextColor::DarkGreen => "dark_green".to_owned(),
            TextColor::DarkCyan => "dark_aqua".to_owned(),
            TextColor::DarkRed => "dark_red".to_owned(),
            TextColor::Purple => "dark_purple".to_owned(),
            TextColor::Gold => "gold".to_owned(),
            TextColor::Gray => "gray".to_owned(),
            TextColor::DarkGray => "dark_gray".to_owned(),
            TextColor::Blue => "blue".to_owned(),
            TextColor::Green => "green".to_owned(),
            TextColor::Cyan => "aqua".to_owned(),
            TextColor::Red => "red".to_owned(),
            TextColor::Pink => "light_purple".to_owned(),
            TextColor::Yellow => "yellow".to_owned(),
            TextColor::White => "white".to_owned(),
            TextColor::Custom(color) => color.to_string(),
            TextColor::Reset => "reset".to_owned(),
        }
    }

    /// Reads a color from its wire token. The token table is tried first;
    /// any other text has to be `#` and six hex digits.
    pub fn try_from(value: &str) -> (read: Result<TextColor, DecodeError>)
        ensures
            match read {
                Ok(color) => token_color(value@) == Some(color@) && color@.wf(),
                Err(e) => token_color(value@) is None && e == DecodeError::MalformedColor,
            },
    {
        if str_eq(value, "black") {
            Ok(TextColor::Black)
        } else if str_eq(value, "dark_blue") {
            Ok(TextColor::DarkBlue)
        } else if str_eq(value, "dark_green") {
            Ok(TextColor::DarkGreen)
        } else if str_eq(value, "dark_aqua") {
            Ok(TextColor::DarkCyan)
        } else if str_eq(value, "dark_red") {
            Ok(TextColor::DarkRed)
        } else if str_eq(value, "dark_purple") {
            Ok(TextColor::Purple)
        } else if str_eq(value, "gold") {
            Ok(TextColor::Gold)
        } else if str_eq(value, "gray") {
            Ok(TextColor::Gray)
        } else if str_eq(value, "dark_gray") {
            Ok(TextColor::DarkGray)
        } else if str_eq(value, "blue") {
            Ok(TextColor::Blue)
        } else if str_eq(value, "green") {
            Ok(TextColor::Green)
        } else if str_eq(value, "aqua") {
            Ok(TextColor::Cyan)
        } else if str_eq(value, "red") {
            Ok(TextColor::Red)
        } else if str_eq(value, "light_purple") {
            Ok(TextColor::Pink)
        } else if str_eq(value, "yellow") {
            Ok(TextColor::Yellow)
        } else if str_eq(value, "white") {
            Ok(TextColor::White)
        } else if str_eq(value, "reset") {
            Ok(TextColor::Reset)
        } else if is_hex_color_text(value) {
            Ok(TextColor::custom(value))
        } else {
            Err(DecodeError::MalformedColor)
        }
    }
}

} // verus!
