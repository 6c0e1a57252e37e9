//! Tests of the palette's built-in mapping, custom values, and merging.

use palette_core::color::{BaseColor, Color};
use palette_core::node::PaletteNode;
use palette_core::palette::Palette;
use palette_core::role::{NoSuchColor, PaletteColor};

#[test]
fn default_palette_matches_the_fixed_table() {
    let palette = Palette::default();
    assert_eq!(
        palette.lookup_role(PaletteColor::Background),
        Color::Dark(BaseColor::Blue)
    );
    assert_eq!(
        palette.lookup_role(PaletteColor::Shadow),
        Color::Dark(BaseColor::Black)
    );
    assert_eq!(
        palette.lookup_role(PaletteColor::View),
        Color::Dark(BaseColor::White)
    );
    assert_eq!(
        palette.lookup_role(PaletteColor::Primary),
        Color::Dark(BaseColor::Black)
    );
    assert_eq!(
        palette.lookup_role(PaletteColor::Secondary),
        Color::Dark(BaseColor::Blue)
    );
    assert_eq!(
        palette.lookup_role(PaletteColor::Tertiary),
        Color::Light(BaseColor::White)
    );
    assert_eq!(
        palette.lookup_role(PaletteColor::TitlePrimary),
        Color::Dark(BaseColor::Red)
    );
    assert_eq!(
        palette.lookup_role(PaletteColor::TitleSecondary),
        Color::Light(BaseColor::Blue)
    );
    assert_eq!(
        palette.lookup_role(PaletteColor::Highlight),
        Color::Dark(BaseColor::Red)
    );
    assert_eq!(
        palette.lookup_role(PaletteColor::HighlightInactive),
        Color::Dark(BaseColor::Blue)
    );
    assert_eq!(
        palette.lookup_role(PaletteColor::HighlightText),
        Color::Dark(BaseColor::White)
    );
}

#[test]
fn every_role_stays_defined_after_mutation() {
    let mut palette = Palette::default();
    palette.set_color("flamingo", Color::Light(BaseColor::Magenta));
    palette.set_color("Background", Color::Light(BaseColor::Green));
    palette.add_namespace("theme", Vec::new());
    palette.set_role(PaletteColor::Shadow, Color::Light(BaseColor::Red));
    let merged = palette.merge("theme");
    for role in PaletteColor::all() {
        // `lookup_role` is total: it answers for every role on any palette.
        let _ = palette.lookup_role(role);
        let _ = merged.lookup_role(role);
    }
}

#[test]
fn set_role_overwrites_one_role_only() {
    let mut palette = Palette::default();
    palette.set_role(PaletteColor::Shadow, Color::Light(BaseColor::Red));
    assert_eq!(
        palette.lookup_role(PaletteColor::Shadow),
        Color::Light(BaseColor::Red)
    );
    assert_eq!(
        palette.lookup_role(PaletteColor::Background),
        Color::Dark(BaseColor::Blue)
    );
}

#[test]
fn overriding_a_role_by_name_routes_to_basic_not_custom() {
    let mut palette = Palette::default();
    let color = Color::Light(BaseColor::Cyan);
    palette.set_color("Background", color);
    assert_eq!(palette.lookup_role(PaletteColor::Background), color);
    assert_eq!(palette.custom("Background"), None);
}

#[test]
fn unmatched_name_becomes_a_custom_color() {
    let mut palette = Palette::default();
    let color = Color::Dark(BaseColor::Magenta);
    palette.set_color("flamingo", color);
    assert_eq!(palette.custom("flamingo"), Some(&color));
    assert_eq!(palette.custom("absent"), None);
}

#[test]
fn custom_is_none_for_a_namespace_entry() {
    let mut palette = Palette::default();
    palette.add_namespace(
        "theme",
        vec![(
            "x".to_string(),
            PaletteNode::Color(Color::Dark(BaseColor::Red)),
        )],
    );
    assert_eq!(palette.custom("theme"), None);
}

#[test]
fn set_basic_color_rejects_unknown_names() {
    let mut palette = Palette::default();
    let before = palette.merge("nothing");
    assert_eq!(
        palette.set_basic_color("flamingo", Color::Dark(BaseColor::Red)),
        Err(NoSuchColor)
    );
    assert_eq!(palette, before);
}

#[test]
fn no_such_color_describes_itself() {
    assert_eq!(
        NoSuchColor.message(),
        "Could not parse the given color".to_string()
    );
}

#[test]
fn set_basic_color_accepts_both_spellings() {
    let color = Color::Light(BaseColor::Yellow);
    let mut pascal = Palette::default();
    let mut snake = Palette::default();
    assert_eq!(pascal.set_basic_color("TitlePrimary", color), Ok(()));
    assert_eq!(snake.set_basic_color("title_primary", color), Ok(()));
    assert_eq!(pascal, snake);
    assert_eq!(pascal.lookup_role(PaletteColor::TitlePrimary), color);
}

#[test]
fn extend_applies_pairs_in_order() {
    let mut palette = Palette::default();
    palette.extend(vec![
        (PaletteColor::Shadow, Color::Dark(BaseColor::Green)),
        (PaletteColor::Primary, Color::Light(BaseColor::Blue)),
        (PaletteColor::Shadow, Color::Light(BaseColor::Cyan)),
    ]);
    // The later pair for Shadow wins.
    assert_eq!(
        palette.lookup_role(PaletteColor::Shadow),
        Color::Light(BaseColor::Cyan)
    );
    assert_eq!(
        palette.lookup_role(PaletteColor::Primary),
        Color::Light(BaseColor::Blue)
    );
}

#[test]
fn merge_of_a_missing_name_returns_an_equal_palette() {
    let mut palette = Palette::default();
    palette.set_color("flamingo", Color::Dark(BaseColor::Magenta));
    let merged = palette.merge("no-such-namespace");
    assert_eq!(merged, palette);
}

#[test]
fn merge_of_a_color_entry_returns_an_equal_palette() {
    let mut palette = Palette::default();
    palette.set_color("flamingo", Color::Dark(BaseColor::Magenta));
    let merged = palette.merge("flamingo");
    assert_eq!(merged, palette);
}

#[test]
fn merge_replaces_a_namespace_wholesale() {
    let c1 = Color::Dark(BaseColor::Red);
    let c2 = Color::Dark(BaseColor::Blue);
    let mut palette = Palette::default();
    // The target already groups values under "a".
    palette.add_namespace("a", vec![("y".to_string(), PaletteNode::Color(c2))]);
    // The merged namespace holds a nested namespace under the same name "a".
    palette.add_namespace(
        "theme",
        vec![(
            "a".to_string(),
            PaletteNode::Namespace(vec![("x".to_string(), PaletteNode::Color(c1))]),
        )],
    );
    let merged = palette.merge("theme");
    // After the merge, "a" holds exactly {"x": c1}: "y" did not survive.
    let inner = merged.merge("a");
    assert_eq!(inner.custom("x"), Some(&c1));
    assert_eq!(inner.custom("y"), None);
}

#[test]
fn merge_overlays_colors_and_replaces_namespaces() {
    let kept = Color::Dark(BaseColor::Green);
    let added = Color::Light(BaseColor::Red);
    let nested = Color::Light(BaseColor::Blue);
    let mut palette = Palette::default();
    palette.set_color("kept", kept);
    palette.add_namespace(
        "group",
        vec![("old".to_string(), PaletteNode::Color(Color::Dark(BaseColor::Black)))],
    );
    palette.add_namespace(
        "theme",
        vec![
            ("added".to_string(), PaletteNode::Color(added)),
            (
                "group".to_string(),
                PaletteNode::Namespace(vec![("new".to_string(), PaletteNode::Color(nested))]),
            ),
        ],
    );
    let merged = palette.merge("theme");
    // The color overlays additively: unrelated custom keys are untouched.
    assert_eq!(merged.custom("kept"), Some(&kept));
    assert_eq!(merged.custom("added"), Some(&added));
    // The namespace is replaced wholesale.
    let group = merged.merge("group");
    assert_eq!(group.custom("new"), Some(&nested));
    assert_eq!(group.custom("old"), None);
}

#[test]
fn merge_routes_role_names_to_basic() {
    let color = Color::Light(BaseColor::Green);
    let mut palette = Palette::default();
    palette.add_namespace(
        "theme",
        vec![("background".to_string(), PaletteNode::Color(color))],
    );
    let merged = palette.merge("theme");
    assert_eq!(merged.lookup_role(PaletteColor::Background), color);
    assert_eq!(merged.custom("background"), None);
    // The source palette is not mutated by the merge.
    assert_eq!(
        palette.lookup_role(PaletteColor::Background),
        Color::Dark(BaseColor::Blue)
    );
}

#[test]
fn merge_of_an_empty_namespace_changes_nothing() {
    let mut palette = Palette::default();
    palette.set_color("flamingo", Color::Dark(BaseColor::Magenta));
    palette.add_namespace("empty", Vec::new());
    let merged = palette.merge("empty");
    assert_eq!(merged, palette);
}

#[test]
fn setting_the_same_custom_key_twice_overwrites() {
    let mut palette = Palette::default();
    palette.set_color("flamingo", Color::Dark(BaseColor::Magenta));
    palette.set_color("flamingo", Color::Light(BaseColor::Red));
    assert_eq!(
        palette.custom("flamingo"),
        Some(&Color::Light(BaseColor::Red))
    );
}

#[test]
fn resolve_reads_the_palette() {
    let mut palette = Palette::default();
    let color = Color::Light(BaseColor::Magenta);
    palette.set_role(PaletteColor::Highlight, color);
    assert_eq!(PaletteColor::Highlight.resolve(&palette), color);
}

#[test]
fn all_lists_the_eleven_roles_in_order() {
    let roles = PaletteColor::all();
    assert_eq!(roles.len(), 11);
    assert_eq!(roles[0], PaletteColor::Background);
    assert_eq!(roles[1], PaletteColor::Shadow);
    assert_eq!(roles[2], PaletteColor::View);
    assert_eq!(roles[3], PaletteColor::Primary);
    assert_eq!(roles[4], PaletteColor::Secondary);
    assert_eq!(roles[5], PaletteColor::Tertiary);
    assert_eq!(roles[6], PaletteColor::TitlePrimary);
    assert_eq!(roles[7], PaletteColor::TitleSecondary);
    assert_eq!(roles[8], PaletteColor::Highlight);
    assert_eq!(roles[9], PaletteColor::HighlightInactive);
    assert_eq!(roles[10], PaletteColor::HighlightText);
}

#[test]
fn from_name_accepts_every_spelling() {
    let spellings = [
        ("Background", PaletteColor::Background),
        ("background", PaletteColor::Background),
        ("Shadow", PaletteColor::Shadow),
        ("shadow", PaletteColor::Shadow),
        ("View", PaletteColor::View),
        ("view", PaletteColor::View),
        ("Primary", PaletteColor::Primary),
        ("primary", PaletteColor::Primary),
        ("Secondary", PaletteColor::Secondary),
        ("secondary", PaletteColor::Secondary),
        ("Tertiary", PaletteColor::Tertiary),
        ("tertiary", PaletteColor::Tertiary),
        ("TitlePrimary", PaletteColor::TitlePrimary),
        ("title_primary", PaletteColor::TitlePrimary),
        ("TitleSecondary", PaletteColor::TitleSecondary),
        ("title_secondary", PaletteColor::TitleSecondary),
        ("Highlight", PaletteColor::Highlight),
        ("highlight", PaletteColor::Highlight),
        ("HighlightInactive", PaletteColor::HighlightInactive),
        ("highlight_inactive", PaletteColor::HighlightInactive),
        ("HighlightText", PaletteColor::HighlightText),
        ("highlight_text", PaletteColor::HighlightText),
    ];
    for (name, role) in spellings {
        assert_eq!(PaletteColor::from_name(name), Ok(role));
    }
    assert_eq!(PaletteColor::from_name("BACKGROUND"), Err(NoSuchColor));
    assert_eq!(PaletteColor::from_name(""), Err(NoSuchColor));
}
