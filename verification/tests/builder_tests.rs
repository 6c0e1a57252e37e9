//! Tests of color parsing and of building palette trees from
//! configuration trees.

use palette_core::color::{BaseColor, Color};
use palette_core::config::{build_node, ConfigNode};
use palette_core::node::PaletteNode;
use palette_core::palette::Palette;
use palette_core::role::PaletteColor;

#[test]
fn parse_knows_dark_and_light_names() {
    assert_eq!(Color::parse("red"), Some(Color::Dark(BaseColor::Red)));
    assert_eq!(Color::parse("black"), Some(Color::Dark(BaseColor::Black)));
    assert_eq!(
        Color::parse("light blue"),
        Some(Color::Light(BaseColor::Blue))
    );
    assert_eq!(
        Color::parse("light white"),
        Some(Color::Light(BaseColor::White))
    );
    assert_eq!(Color::parse("not-a-color"), None);
    assert_eq!(Color::parse("RED"), None);
    assert_eq!(Color::parse(""), None);
}

#[test]
fn a_string_node_builds_the_color_it_names() {
    let node = ConfigNode::Text("green".to_string());
    assert_eq!(
        build_node(&node),
        Some(PaletteNode::Color(Color::Dark(BaseColor::Green)))
    );
}

#[test]
fn an_unparseable_string_builds_nothing() {
    let node = ConfigNode::Text("chartreuse".to_string());
    assert_eq!(build_node(&node), None);
}

#[test]
fn an_unrecognized_node_builds_nothing() {
    assert_eq!(build_node(&ConfigNode::Other), None);
}

#[test]
fn a_list_falls_back_to_its_first_parsed_element() {
    let node = ConfigNode::List(vec![
        ConfigNode::Text("not-a-color".to_string()),
        ConfigNode::Text("red".to_string()),
    ]);
    assert_eq!(
        build_node(&node),
        Some(PaletteNode::Color(Color::Dark(BaseColor::Red)))
    );
}

#[test]
fn a_list_with_no_parsed_element_builds_nothing() {
    let node = ConfigNode::List(vec![
        ConfigNode::Text("not-a-color".to_string()),
        ConfigNode::Text("also-not".to_string()),
    ]);
    assert_eq!(build_node(&node), None);
}

#[test]
fn a_list_ignores_elements_after_the_first_parsed_one() {
    let node = ConfigNode::List(vec![
        ConfigNode::Other,
        ConfigNode::Text("yellow".to_string()),
        ConfigNode::Text("red".to_string()),
    ]);
    assert_eq!(
        build_node(&node),
        Some(PaletteNode::Color(Color::Dark(BaseColor::Yellow)))
    );
}

#[test]
fn a_table_drops_bad_leaves_but_never_fails() {
    // One valid color string and one unrecognized (boolean-like) leaf:
    // the result is a namespace with exactly the valid entry.
    let node = ConfigNode::Table(vec![
        ("good".to_string(), ConfigNode::Text("red".to_string())),
        ("bad".to_string(), ConfigNode::Other),
    ]);
    match build_node(&node) {
        Some(PaletteNode::Namespace(entries)) => {
            assert_eq!(entries.len(), 1);
            assert_eq!(entries[0].0, "good");
            assert_eq!(
                entries[0].1,
                PaletteNode::Color(Color::Dark(BaseColor::Red))
            );
        }
        other => panic!("expected a namespace, got {:?}", other),
    }
}

#[test]
fn a_duplicate_table_key_keeps_the_later_entry() {
    let mut palette = Palette::default();
    let table = vec![
        ("tone".to_string(), ConfigNode::Text("red".to_string())),
        ("tone".to_string(), ConfigNode::Text("blue".to_string())),
    ];
    palette.load_table(&table);
    assert_eq!(palette.custom("tone"), Some(&Color::Dark(BaseColor::Blue)));
}

#[test]
fn an_empty_table_still_builds_a_namespace() {
    let node = ConfigNode::Table(Vec::new());
    assert_eq!(build_node(&node), Some(PaletteNode::Namespace(Vec::new())));
}

#[test]
fn load_table_routes_scalars_and_installs_namespaces() {
    let mut palette = Palette::default();
    let table = vec![
        (
            "background".to_string(),
            ConfigNode::Text("light green".to_string()),
        ),
        ("flamingo".to_string(), ConfigNode::Text("magenta".to_string())),
        (
            "theme".to_string(),
            ConfigNode::Table(vec![(
                "accent".to_string(),
                ConfigNode::Text("cyan".to_string()),
            )]),
        ),
        ("ignored".to_string(), ConfigNode::Other),
    ];
    palette.load_table(&table);
    // A top-level scalar named like a role updates the built-in mapping.
    assert_eq!(
        palette.lookup_role(PaletteColor::Background),
        Color::Light(BaseColor::Green)
    );
    assert_eq!(palette.custom("background"), None);
    // An unmatched name becomes a custom color.
    assert_eq!(
        palette.custom("flamingo"),
        Some(&Color::Dark(BaseColor::Magenta))
    );
    // A table becomes a namespace, observable through a merge.
    let merged = palette.merge("theme");
    assert_eq!(
        merged.custom("accent"),
        Some(&Color::Dark(BaseColor::Cyan))
    );
    // The dropped entry left nothing behind.
    assert_eq!(palette.custom("ignored"), None);
}

#[test]
fn load_table_nested_tables_become_nested_namespaces() {
    let mut palette = Palette::default();
    let table = vec![(
        "outer".to_string(),
        ConfigNode::Table(vec![(
            "inner".to_string(),
            ConfigNode::Table(vec![(
                "leaf".to_string(),
                ConfigNode::Text("blue".to_string()),
            )]),
        )]),
    )];
    palette.load_table(&table);
    let outer = palette.merge("outer");
    let inner = outer.merge("inner");
    assert_eq!(inner.custom("leaf"), Some(&Color::Dark(BaseColor::Blue)));
}
