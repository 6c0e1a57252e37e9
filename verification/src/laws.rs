//! Laws of the palette: properties that hold of every palette, stated and
//! proved over the same spec functions that the operations' contracts use.

use crate::color::{color_of_name, Color};
use crate::config::{build_list_spec, build_spec, build_table_spec, offers_color, ConfigNode};
use crate::node::{node_view, NodeView, PaletteNode};
use crate::palette::{
    apply_entries, lemma_custom_entry_view, set_color_spec, Palette, PaletteView,
};
use crate::role::{role_of_name, PaletteColor};
use vstd::prelude::*;

verus! {

/// Round-trip override: setting a color under a name that denotes a
/// built-in role overwrites that role and leaves every custom value
/// untouched, so the name never shows up among the custom entries.
pub proof fn lemma_role_name_routes_to_basic(v: PaletteView, name: Seq<char>, color: Color)
    requires
        role_of_name(name) is Some,
    ensures
        role_of_name(name) matches Some(role) ==> set_color_spec(v, name, color).basic[role]
            == color,
        set_color_spec(v, name, color).custom == v.custom,
{
}

/// A name that denotes no role overlays a custom color additively: it
/// changes that one custom entry and nothing else.
pub proof fn lemma_custom_name_overlays_color(v: PaletteView, name: Seq<char>, color: Color)
    requires
        role_of_name(name) is None,
    ensures
        set_color_spec(v, name, color).custom == v.custom.insert(name, NodeView::Color(color)),
        set_color_spec(v, name, color).basic == v.basic,
{
}

/// Shallow replace: when a merged namespace's entry holds a nested
/// namespace, and no later entry reuses its key, the merged palette holds
/// under that key exactly the nested namespace — whatever the key held
/// before is replaced wholesale, never combined.
pub proof fn lemma_namespace_replaces_wholesale(
    v: PaletteView,
    s: Seq<(String, PaletteNode)>,
    i: int,
)
    requires
        0 <= i < s.len(),
        s[i].1 is Namespace,
        forall|j: int| i < j < s.len() ==> s[j].0@ != s[i].0@,
    ensures
        apply_entries(v, s).custom.contains_key(s[i].0@),
        apply_entries(v, s).custom[s[i].0@] == node_view(s[i].1),
    decreases s,
{
    let n = s.len() - 1;
    if i < n {
        let prefix = s.subrange(0, n);
        assert(forall|j: int| 0 <= j < n ==> prefix[j] == s[j]);
        lemma_namespace_replaces_wholesale(v, prefix, i);
        assert(s[n].0@ != s[i].0@);
    }
}

/// Overlay asymmetry, color side: a merged color entry under a name that
/// denotes no role lands among the custom values as a single color, when
/// no later entry reuses its key.
pub proof fn lemma_color_entry_overlays(v: PaletteView, s: Seq<(String, PaletteNode)>, i: int)
    requires
        0 <= i < s.len(),
        s[i].1 is Color,
        role_of_name(s[i].0@) is None,
        forall|j: int| i < j < s.len() ==> s[j].0@ != s[i].0@,
    ensures
        apply_entries(v, s).custom.contains_key(s[i].0@),
        apply_entries(v, s).custom[s[i].0@] == node_view(s[i].1),
    decreases s,
{
    let n = s.len() - 1;
    if i < n {
        let prefix = s.subrange(0, n);
        assert(forall|j: int| 0 <= j < n ==> prefix[j] == s[j]);
        lemma_color_entry_overlays(v, prefix, i);
        assert(s[n].0@ != s[i].0@);
    }
}

/// A merged color entry under a role's name updates that role, when no
/// later entry carries a name denoting the same role.
pub proof fn lemma_role_entry_overlays_basic(
    v: PaletteView,
    s: Seq<(String, PaletteNode)>,
    i: int,
    role: PaletteColor,
)
    requires
        0 <= i < s.len(),
        s[i].1 is Color,
        role_of_name(s[i].0@) == Some(role),
        forall|j: int| i < j < s.len() ==> role_of_name(s[j].0@) != Some(role),
    ensures
        s[i].1 matches PaletteNode::Color(color) ==> apply_entries(v, s).basic[role] == color,
    decreases s,
{
    let n = s.len() - 1;
    if i < n {
        let prefix = s.subrange(0, n);
        assert(forall|j: int| 0 <= j < n ==> prefix[j] == s[j]);
        lemma_role_entry_overlays_basic(v, prefix, i, role);
        assert(role_of_name(s[n].0@) != Some(role));
    }
}

/// Overlay asymmetry, additive side: a merge never touches a custom key
/// that none of the merged entries carries; unrelated custom values
/// survive unchanged.
pub proof fn lemma_merge_preserves_unrelated(
    v: PaletteView,
    s: Seq<(String, PaletteNode)>,
    key: Seq<char>,
)
    requires
        forall|j: int| 0 <= j < s.len() ==> s[j].0@ != key,
    ensures
        apply_entries(v, s).custom.contains_key(key) == v.custom.contains_key(key),
        v.custom.contains_key(key) ==> apply_entries(v, s).custom[key] == v.custom[key],
    decreases s,
{
    let n = s.len() - 1;
    if s.len() > 0 {
        let prefix = s.subrange(0, n);
        assert(forall|j: int| 0 <= j < n ==> prefix[j] == s[j]);
        lemma_merge_preserves_unrelated(v, prefix, key);
    }
}

/// Idempotence of merge on an unrelated palette: a name that the custom
/// map does not hold selects no namespace, so `Palette::merge` returns an
/// unchanged copy by its contract.
pub proof fn lemma_absent_name_selects_nothing(p: &Palette, name: Seq<char>)
    requires
        !p@.custom.contains_key(name),
    ensures
        p.custom_entry(name) is None,
{
    lemma_custom_entry_view(p, name);
}

/// Drop, not fail: a table always builds a namespace, however many of its
/// children were dropped; building never turns a table into an error.
pub proof fn lemma_table_always_builds(node: ConfigNode)
    requires
        node is Table,
    ensures
        build_spec(node) matches Some(built) && built is Namespace,
{
}

/// A child that builds nothing leaves no entry behind: the table's
/// namespace is exactly the one built from the remaining children.
pub proof fn lemma_dropped_child_leaves_no_entry(
    entries: Seq<(String, ConfigNode)>,
    pair: (String, ConfigNode),
)
    requires
        build_spec(pair.1) is None,
    ensures
        build_table_spec(entries.push(pair)) == build_table_spec(entries),
{
    let t = entries.push(pair);
    assert(t.subrange(0, t.len() - 1) =~= entries);
}

/// List fallback: the first element that names a color decides the list's
/// value; everything before it is skipped and everything after it is
/// ignored.
pub proof fn lemma_list_first_offered_color_wins(
    items: Seq<ConfigNode>,
    i: int,
    text: String,
    color: Color,
)
    requires
        0 <= i < items.len(),
        items[i] == ConfigNode::Text(text),
        color_of_name(text@) == Some(color),
        forall|j: int| 0 <= j < i ==> !offers_color(items[j]),
    ensures
        build_list_spec(items) == Some(NodeView::Color(color)),
    decreases i,
{
    if i > 0 {
        let rest = items.subrange(1, items.len() as int);
        assert(forall|j: int| 0 <= j < rest.len() ==> rest[j] == items[j + 1]);
        lemma_list_first_offered_color_wins(rest, i - 1, text, color);
        assert(!offers_color(items[0]));
    }
}

/// List fallback, empty side: a list none of whose elements names a color
/// builds nothing.
pub proof fn lemma_list_without_color_builds_nothing(items: Seq<ConfigNode>)
    requires
        forall|j: int| 0 <= j < items.len() ==> !offers_color(items[j]),
    ensures
        build_list_spec(items) is None,
    decreases items,
{
    if items.len() > 0 {
        let rest = items.subrange(1, items.len() as int);
        assert(forall|j: int| 0 <= j < rest.len() ==> rest[j] == items[j + 1]);
        lemma_list_without_color_builds_nothing(rest);
        assert(!offers_color(items[0]));
    }
}

/// Alias equivalence: the two spellings of each role name denote that very
/// role, so both resolve identically everywhere a name is routed.
#[verifier::rlimit(60)]
pub proof fn lemma_role_alias_pairs()
    ensures
        role_of_name("Background"@) == Some(PaletteColor::Background),
        role_of_name("background"@) == Some(PaletteColor::Background),
        role_of_name("Shadow"@) == Some(PaletteColor::Shadow),
        role_of_name("shadow"@) == Some(PaletteColor::Shadow),
        role_of_name("View"@) == Some(PaletteColor::View),
        role_of_name("view"@) == Some(PaletteColor::View),
        role_of_name("Primary"@) == Some(PaletteColor::Primary),
        role_of_name("primary"@) == Some(PaletteColor::Primary),
        role_of_name("Secondary"@) == Some(PaletteColor::Secondary),
        role_of_name("secondary"@) == Some(PaletteColor::Secondary),
        role_of_name("Tertiary"@) == Some(PaletteColor::Tertiary),
        role_of_name("tertiary"@) == Some(PaletteColor::Tertiary),
        role_of_name("TitlePrimary"@) == Some(PaletteColor::TitlePrimary),
        role_of_name("title_primary"@) == Some(PaletteColor::TitlePrimary),
        role_of_name("TitleSecondary"@) == Some(PaletteColor::TitleSecondary),
        role_of_name("title_secondary"@) == Some(PaletteColor::TitleSecondary),
        role_of_name("Highlight"@) == Some(PaletteColor::Highlight),
        role_of_name("highlight"@) == Some(PaletteColor::Highlight),
        role_of_name("HighlightInactive"@) == Some(PaletteColor::HighlightInactive),
        role_of_name("highlight_inactive"@) == Some(PaletteColor::HighlightInactive),
        role_of_name("HighlightText"@) == Some(PaletteColor::HighlightText),
        role_of_name("highlight_text"@) == Some(PaletteColor::HighlightText),
{
    reveal_strlit("Background");
    reveal_strlit("background");
    reveal_strlit("Shadow");
    reveal_strlit("shadow");
    reveal_strlit("View");
    reveal_strlit("view");
    reveal_strlit("Primary");
    reveal_strlit("primary");
    reveal_strlit("Secondary");
    reveal_strlit("secondary");
    reveal_strlit("Tertiary");
    reveal_strlit("tertiary");
    reveal_strlit("TitlePrimary");
    reveal_strlit("title_primary");
    reveal_strlit("TitleSecondary");
    reveal_strlit("title_secondary");
    reveal_strlit("Highlight");
    reveal_strlit("highlight");
    reveal_strlit("HighlightInactive");
    reveal_strlit("highlight_inactive");
    reveal_strlit("HighlightText");
    reveal_strlit("highlight_text");
    assert("Background"@.len() == 10);
    assert("background"@.len() == 10);
    assert("Shadow"@.len() == 6);
    assert("shadow"@.len() == 6);
    assert("View"@.len() == 4);
    assert("view"@.len() == 4);
    assert("Primary"@.len() == 7);
    assert("primary"@.len() == 7);
    assert("Secondary"@.len() == 9);
    assert("secondary"@.len() == 9);
    assert("Tertiary"@.len() == 8);
    assert("tertiary"@.len() == 8);
    assert("TitlePrimary"@.len() == 12);
    assert("title_primary"@.len() == 13);
    assert("TitleSecondary"@.len() == 14);
    assert("title_secondary"@.len() == 15);
    assert("Highlight"@.len() == 9);
    assert("highlight"@.len() == 9);
    assert("HighlightInactive"@.len() == 17);
    assert("highlight_inactive"@.len() == 18);
    assert("HighlightText"@.len() == 13);
    assert("highlight_text"@.len() == 14);
    assert("Highlight"@[0] == 'H' && "highlight"@[0] == 'h');
    assert("Secondary"@[0] == 'S' && "secondary"@[0] == 's');
    assert("HighlightText"@[0] == 'H' && "title_primary"@[0] == 't');
    assert("highlight_text"@[0] == 'h' && "TitleSecondary"@[0] == 'T');
    assert("Highlight"@ != "Secondary"@);
    assert("Highlight"@ != "secondary"@);
    assert("highlight"@ != "Secondary"@);
    assert("highlight"@ != "secondary"@);
    assert("HighlightText"@ != "title_primary"@);
    assert("highlight_text"@ != "TitleSecondary"@);
    assert(role_of_name("Background"@) == Some(PaletteColor::Background));
    assert(role_of_name("background"@) == Some(PaletteColor::Background));
    assert(role_of_name("Shadow"@) == Some(PaletteColor::Shadow));
    assert(role_of_name("shadow"@) == Some(PaletteColor::Shadow));
    assert(role_of_name("View"@) == Some(PaletteColor::View));
    assert(role_of_name("view"@) == Some(PaletteColor::View));
    assert(role_of_name("Primary"@) == Some(PaletteColor::Primary));
    assert(role_of_name("primary"@) == Some(PaletteColor::Primary));
    assert(role_of_name("Secondary"@) == Some(PaletteColor::Secondary));
    assert(role_of_name("secondary"@) == Some(PaletteColor::Secondary));
    assert(role_of_name("Tertiary"@) == Some(PaletteColor::Tertiary));
    assert(role_of_name("tertiary"@) == Some(PaletteColor::Tertiary));
    assert(role_of_name("TitlePrimary"@) == Some(PaletteColor::TitlePrimary));
    assert(role_of_name("title_primary"@) == Some(PaletteColor::TitlePrimary));
    assert(role_of_name("TitleSecondary"@) == Some(PaletteColor::TitleSecondary));
    assert(role_of_name("title_secondary"@) == Some(PaletteColor::TitleSecondary));
    assert(role_of_name("Highlight"@) == Some(PaletteColor::Highlight));
    assert(role_of_name("highlight"@) == Some(PaletteColor::Highlight));
    assert(role_of_name("HighlightInactive"@) == Some(PaletteColor::HighlightInactive));
    assert(role_of_name("highlight_inactive"@) == Some(PaletteColor::HighlightInactive));
    assert(role_of_name("HighlightText"@) == Some(PaletteColor::HighlightText));
    assert(role_of_name("highlight_text"@) == Some(PaletteColor::HighlightText));
}

/// Two names that denote the same role set the same color: updating
/// through either spelling produces the identical palette.
pub proof fn lemma_alias_updates_agree(
    v: PaletteView,
    name_a: Seq<char>,
    name_b: Seq<char>,
    color: Color,
)
    requires
        role_of_name(name_a) == role_of_name(name_b),
        role_of_name(name_a) is Some,
    ensures
        set_color_spec(v, name_a, color) == set_color_spec(v, name_b, color),
{
}

} // verus!
