//! Concrete colors and their textual names.

use crate::text::str_eq;
use vstd::prelude::*;

verus! {

/// One of the eight basic terminal colors.
#[derive(Clone, Copy, Debug, PartialEq, Eq, Hash, Structural)]
pub enum BaseColor {
    /// Black.
    Black,
    /// Red.
    Red,
    /// Green.
    Green,
    /// Yellow.
    Yellow,
    /// Blue.
    Blue,
    /// Magenta.
    Magenta,
    /// Cyan.
    Cyan,
    /// White.
    White,
}

/// A concrete color: the dark or the light variant of a base color.
#[derive(Clone, Copy, Debug, PartialEq, Eq, Hash, Structural)]
pub enum Color {
    /// The dark (regular) variant of a base color.
    Dark(BaseColor),
    /// The light (bright) variant of a base color.
    Light(BaseColor),
}

/// The color that a name denotes, if any.
///
/// A lowercase base-color name denotes the dark variant; the same name
/// prefixed with `light ` denotes the light variant. Any other text denotes
/// no color.
pub open spec fn color_of_name(name: Seq<char>) -> Option<Color> {
    if name == "black"@ {
        Some(Color::Dark(BaseColor::Black))
    } else if name == "red"@ {
        Some(Color::Dark(BaseColor::Red))
    } else if name == "green"@ {
        Some(Color::Dark(BaseColor::Green))
    } else if name == "yellow"@ {
        Some(Color::Dark(BaseColor::Yellow))
    } else if name == "blue"@ {
        Some(Color::Dark(BaseColor::Blue))
    } else if name == "magenta"@ {
        Some(Color::Dark(BaseColor::Magenta))
    } else if name == "cyan"@ {
        Some(Color::Dark(BaseColor::Cyan))
    } else if name == "white"@ {
        Some(Color::Dark(BaseColor::White))
    } else if name == "light black"@ {
        Some(Color::Light(BaseColor::Black))
    } else if name == "light red"@ {
        Some(Color::Light(BaseColor::Red))
    } else if name == "light green"@ {
        Some(Color::Light(BaseColor::Green))
    } else if name == "light yellow"@ {
        Some(Color::Light(BaseColor::Yellow))
    } else if name == "light blue"@ {
        Some(Color::Light(BaseColor::Blue))
    } else if name == "light magenta"@ {
        Some(Color::Light(BaseColor::Magenta))
    } else if name == "light cyan"@ {
        Some(Color::Light(BaseColor::Cyan))
    } else if name == "light white"@ {
        Some(Color::Light(BaseColor::White))
    } else {
        None
    }
}

impl Color {
    /// Parses a color from its textual name.
    ///
    /// Returns `None` when the text names no color.
    pub fn parse(text: &str) -> (r: Option<Color>)
        ensures
            r == color_of_name(text@),
    {
        if str_eq(text, "black") {
            Some(Color::Dark(BaseColor::Black))
        } else if str_eq(text, "red") {
            Some(Color::Dark(BaseColor::Red))
        } else if str_eq(text, "green") {
            Some(Color::Dark(BaseColor::Green))
        } else if str_eq(text, "yellow") {
            Some(Color::Dark(BaseColor::Yellow))
        } else if str_eq(text, "blue") {
            Some(Color::Dark(BaseColor::Blue))
        } else if str_eq(text, "magenta") {
            Some(Color::Dark(BaseColor::Magenta))
        } else if str_eq(text, "cyan") {
            Some(Color::Dark(BaseColor::Cyan))
        } else if str_eq(text, "white") {
            Some(Color::Dark(BaseColor::White))
        } else if str_eq(text, "light black") {
            Some(Color::Light(BaseColor::Black))
        } else if str_eq(text, "light red") {
            Some(Color::Light(BaseColor::Red))
        } else if str_eq(text, "light green") {
            Some(Color::Light(BaseColor::Green))
        } else if str_eq(text, "light yellow") {
            Some(Color::Light(BaseColor::Yellow))
        } else if str_eq(text, "light blue") {
            Some(Color::Light(BaseColor::Blue))
        } else if str_eq(text, "light magenta") {
            Some(Color::Light(BaseColor::Magenta))
        } else if str_eq(text, "light cyan") {
            Some(Color::Light(BaseColor::Cyan))
        } else if str_eq(text, "light white") {
            Some(Color::Light(BaseColor::White))
        } else {
            None
        }
    }
}

} // verus!
