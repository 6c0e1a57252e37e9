//! The fixed built-in color roles and their textual names.

use crate::text::str_eq;
use vstd::prelude::*;

verus! {

/// The error returned when a name does not denote a built-in color role.
#[derive(Clone, Copy, Debug, PartialEq, Eq, Structural)]
pub struct NoSuchColor;

impl NoSuchColor {
    /// The message that describes this error.
    pub fn message(&self) -> (r: String)
        ensures
            r@ == "Could not parse the given color"@,
    {
        "Could not parse the given color".to_owned()
    }
}

/// A color entry in a palette.
///
/// Each `PaletteColor` names a role that a color plays in an application.
#[derive(Clone, Copy, Debug, PartialEq, Eq, Hash, Structural)]
pub enum PaletteColor {
    /// Color used for the application background.
    Background,
    /// Color used for view shadows.
    Shadow,
    /// Color used for view backgrounds.
    View,
    /// Primary color used for the text.
    Primary,
    /// Secondary color used for the text.
    Secondary,
    /// Tertiary color used for the text.
    Tertiary,
    /// Primary color used for title text.
    TitlePrimary,
    /// Secondary color used for title text.
    TitleSecondary,
    /// Color used for highlighting text.
    Highlight,
    /// Color used for highlighting inactive text.
    HighlightInactive,
    /// Color used for highlighted text.
    HighlightText,
}

/// The role that a name denotes, if any.
///
/// Each role answers to two spellings: its own name and the snake_case form
/// of it. Every other name denotes no role. This single classification
/// decides, everywhere in the crate, whether a name addresses the built-in
/// mapping or the custom namespace.
pub open spec fn role_of_name(name: Seq<char>) -> Option<PaletteColor> {
    if name == "Background"@ || name == "background"@ {
        Some(PaletteColor::Background)
    } else if name == "Shadow"@ || name == "shadow"@ {
        Some(PaletteColor::Shadow)
    } else if name == "View"@ || name == "view"@ {
        Some(PaletteColor::View)
    } else if name == "Primary"@ || name == "primary"@ {
        Some(PaletteColor::Primary)
    } else if name == "Secondary"@ || name == "secondary"@ {
        Some(PaletteColor::Secondary)
    } else if name == "Tertiary"@ || name == "tertiary"@ {
        Some(PaletteColor::Tertiary)
    } else if name == "TitlePrimary"@ || name == "title_primary"@ {
        Some(PaletteColor::TitlePrimary)
    } else if name == "TitleSecondary"@ || name == "title_secondary"@ {
        Some(PaletteColor::TitleSecondary)
    } else if name == "Highlight"@ || name == "highlight"@ {
        Some(PaletteColor::Highlight)
    } else if name == "HighlightInactive"@ || name == "highlight_inactive"@ {
        Some(PaletteColor::HighlightInactive)
    } else if name == "HighlightText"@ || name == "highlight_text"@ {
        Some(PaletteColor::HighlightText)
    } else {
        None
    }
}

impl PaletteColor {
    /// Resolves a name to the role it denotes.
    ///
    /// Returns `Err(NoSuchColor)` exactly when the name is neither a role
    /// name nor its snake_case alias.
    pub fn from_name(name: &str) -> (r: Result<PaletteColor, NoSuchColor>)
        ensures
            match r {
                Ok(role) => role_of_name(name@) == Some(role),
                Err(_) => role_of_name(name@) is None,
            },
    {
        if str_eq(name, "Background") || str_eq(name, "background") {
            Ok(PaletteColor::Background)
        } else if str_eq(name, "Shadow") || str_eq(name, "shadow") {
            Ok(PaletteColor::Shadow)
        } else if str_eq(name, "View") || str_eq(name, "view") {
            Ok(PaletteColor::View)
        } else if str_eq(name, "Primary") || str_eq(name, "primary") {
            Ok(PaletteColor::Primary)
        } else if str_eq(name, "Secondary") || str_eq(name, "secondary") {
            Ok(PaletteColor::Secondary)
        } else if str_eq(name, "Tertiary") || str_eq(name, "tertiary") {
            Ok(PaletteColor::Tertiary)
        } else if str_eq(name, "TitlePrimary") || str_eq(name, "title_primary") {
            Ok(PaletteColor::TitlePrimary)
        } else if str_eq(name, "TitleSecondary") || str_eq(name, "title_secondary") {
            Ok(PaletteColor::TitleSecondary)
        } else if str_eq(name, "Highlight") || str_eq(name, "highlight") {
            Ok(PaletteColor::Highlight)
        } else if str_eq(name, "HighlightInactive") || str_eq(name, "highlight_inactive") {
            Ok(PaletteColor::HighlightInactive)
        } else if str_eq(name, "HighlightText") || str_eq(name, "highlight_text") {
            Ok(PaletteColor::HighlightText)
        } else {
            Err(NoSuchColor)
        }
    }
}

/// All roles, in declaration order.
pub open spec fn all_roles() -> Seq<PaletteColor> {
    seq![
        PaletteColor::Background,
        PaletteColor::Shadow,
        PaletteColor::View,
        PaletteColor::Primary,
        PaletteColor::Secondary,
        PaletteColor::Tertiary,
        PaletteColor::TitlePrimary,
        PaletteColor::TitleSecondary,
        PaletteColor::Highlight,
        PaletteColor::HighlightInactive,
        PaletteColor::HighlightText,
    ]
}

impl PaletteColor {
    /// Returns every palette color, in declaration order.
    pub fn all() -> (r: Vec<PaletteColor>)
        ensures
            r@ == all_roles(),
    {
        let roles = vec![
            PaletteColor::Background,
            PaletteColor::Shadow,
            PaletteColor::View,
            PaletteColor::Primary,
            PaletteColor::Secondary,
            PaletteColor::Tertiary,
            PaletteColor::TitlePrimary,
            PaletteColor::TitleSecondary,
            PaletteColor::Highlight,
            PaletteColor::HighlightInactive,
            PaletteColor::HighlightText,
        ];
        proof {
            assert(roles@ =~= all_roles());
        }
        roles
    }
}

} // verus!
