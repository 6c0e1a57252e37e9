//! The palette: a total mapping from roles to colors, plus custom values.

use crate::color::{BaseColor, Color};
use crate::node::{
    copy_entries, entries_view, find_index, keys_unique, lemma_absent_key_stored,
    lemma_stored_node_view, lemma_unique_key_stored, node_view, put_entry, stored_node, NodeView,
    PaletteNode,
};
use crate::role::{role_of_name, NoSuchColor, PaletteColor};
use vstd::prelude::*;

verus! {

/// Color configuration for an application.
///
/// Assigns each color role an actual color, and keeps an open tree of
/// custom named values that themes may add to, override, or merge.
#[derive(Debug, PartialEq, Eq)]
pub struct Palette {
    basic_background: Color,
    basic_shadow: Color,
    basic_view: Color,
    basic_primary: Color,
    basic_secondary: Color,
    basic_tertiary: Color,
    basic_title_primary: Color,
    basic_title_secondary: Color,
    basic_highlight: Color,
    basic_highlight_inactive: Color,
    basic_highlight_text: Color,
    customs: Vec<(String, PaletteNode)>,
}

/// The mathematical value of a palette: a mapping from every role to its
/// color, and a finite map of custom values.
#[verifier::ext_equal]
pub struct PaletteView {
    /// The built-in mapping; total: it holds every role.
    pub basic: Map<PaletteColor, Color>,
    /// The custom values, by name.
    pub custom: Map<Seq<char>, NodeView>,
}

/// Overwrites one role's color and touches nothing else.
pub open spec fn set_role_spec(v: PaletteView, role: PaletteColor, color: Color) -> PaletteView {
    PaletteView { basic: v.basic.insert(role, color), custom: v.custom }
}

/// Sets the color for a name: a name that denotes a role overwrites the
/// built-in mapping; any other name is inserted among the custom values.
pub open spec fn set_color_spec(v: PaletteView, name: Seq<char>, color: Color) -> PaletteView {
    match role_of_name(name) {
        Some(role) => set_role_spec(v, role, color),
        None => PaletteView {
            basic: v.basic,
            custom: v.custom.insert(name, NodeView::Color(color)),
        },
    }
}

/// Installs a namespace under a name, replacing wholesale whatever the name
/// held before.
pub open spec fn add_namespace_spec(
    v: PaletteView,
    name: Seq<char>,
    namespace: Map<Seq<char>, NodeView>,
) -> PaletteView {
    PaletteView { basic: v.basic, custom: v.custom.insert(name, NodeView::Namespace(namespace)) }
}

/// Overlays one named value: a color goes through the name routing of
/// [`set_color_spec`]; a namespace replaces wholesale, as in
/// [`add_namespace_spec`].
pub open spec fn apply_entry(v: PaletteView, name: Seq<char>, node: NodeView) -> PaletteView {
    match node {
        NodeView::Color(color) => set_color_spec(v, name, color),
        NodeView::Namespace(namespace) => add_namespace_spec(v, name, namespace),
    }
}

/// Overlays a namespace's entries one by one, in order.
pub open spec fn apply_entries(v: PaletteView, s: Seq<(String, PaletteNode)>) -> PaletteView
    decreases s,
{
    if s.len() == 0 {
        v
    } else {
        let i = s.len() - 1;
        apply_entry(apply_entries(v, s.subrange(0, i)), s[i].0@, node_view(s[i].1))
    }
}

/// Overwrites roles one pair at a time, in order; a later pair for the same
/// role wins.
pub open spec fn extend_spec(v: PaletteView, pairs: Seq<(PaletteColor, Color)>) -> PaletteView
    decreases pairs,
{
    if pairs.len() == 0 {
        v
    } else {
        let i = pairs.len() - 1;
        set_role_spec(extend_spec(v, pairs.subrange(0, i)), pairs[i].0, pairs[i].1)
    }
}

/// The default color of each role.
pub open spec fn default_color(role: PaletteColor) -> Color {
    match role {
        PaletteColor::Background => Color::Dark(BaseColor::Blue),
        PaletteColor::Shadow => Color::Dark(BaseColor::Black),
        PaletteColor::View => Color::Dark(BaseColor::White),
        PaletteColor::Primary => Color::Dark(BaseColor::Black),
        PaletteColor::Secondary => Color::Dark(BaseColor::Blue),
        PaletteColor::Tertiary => Color::Light(BaseColor::White),
        PaletteColor::TitlePrimary => Color::Dark(BaseColor::Red),
        PaletteColor::TitleSecondary => Color::Light(BaseColor::Blue),
        PaletteColor::Highlight => Color::Dark(BaseColor::Red),
        PaletteColor::HighlightInactive => Color::Dark(BaseColor::Blue),
        PaletteColor::HighlightText => Color::Dark(BaseColor::White),
    }
}

/// The value of a freshly constructed palette: the default colors and no
/// custom entries.
pub open spec fn default_view() -> PaletteView {
    PaletteView {
        basic: Map::new(|role: PaletteColor| true, |role: PaletteColor| default_color(role)),
        custom: Map::empty(),
    }
}

impl Palette {
    /// The color stored for a role.
    pub closed spec fn role_color(&self, role: PaletteColor) -> Color {
        match role {
            PaletteColor::Background => self.basic_background,
            PaletteColor::Shadow => self.basic_shadow,
            PaletteColor::View => self.basic_view,
            PaletteColor::Primary => self.basic_primary,
            PaletteColor::Secondary => self.basic_secondary,
            PaletteColor::Tertiary => self.basic_tertiary,
            PaletteColor::TitlePrimary => self.basic_title_primary,
            PaletteColor::TitleSecondary => self.basic_title_secondary,
            PaletteColor::Highlight => self.basic_highlight,
            PaletteColor::HighlightInactive => self.basic_highlight_inactive,
            PaletteColor::HighlightText => self.basic_highlight_text,
        }
    }

    /// Well-formedness: the custom entries carry pairwise distinct keys.
    pub closed spec fn wf(&self) -> bool {
        keys_unique(self.customs@)
    }

    /// The custom entry stored under a key, if any, as it is stored.
    ///
    /// Contracts that depend on a namespace's own entry order, such as the
    /// one of [`Palette::merge`], speak of this; [`lemma_custom_entry_view`]
    /// ties it to the custom map of the view.
    pub closed spec fn custom_entry(&self, key: Seq<char>) -> Option<PaletteNode> {
        stored_node(self.customs@, key)
    }
}

impl View for Palette {
    type V = PaletteView;

    closed spec fn view(&self) -> PaletteView {
        PaletteView {
            basic: Map::new(
                |role: PaletteColor| true,
                |role: PaletteColor| self.role_color(role),
            ),
            custom: entries_view(self.customs@),
        }
    }
}

/// Totality: every palette assigns every role a color.
pub proof fn lemma_lookup_total(p: &Palette, role: PaletteColor)
    ensures
        p@.basic.contains_key(role),
{
}

/// The custom map of the view holds a key exactly when an entry stores it,
/// and then holds the stored node's value.
pub proof fn lemma_custom_entry_view(p: &Palette, key: Seq<char>)
    ensures
        p@.custom.contains_key(key) == (p.custom_entry(key) is Some),
        p.custom_entry(key) matches Some(node) ==> p@.custom[key] == node_view(node),
{
    lemma_stored_node_view(p.customs@, key);
}

impl Palette {
    /// Returns the mapping's current color for a built-in role.
    ///
    /// Total and infallible: every role has a color at all times.
    pub fn lookup_role(&self, role: PaletteColor) -> (color: Color)
        ensures
            color == self@.basic[role],
    {
        match role {
            PaletteColor::Background => self.basic_background,
            PaletteColor::Shadow => self.basic_shadow,
            PaletteColor::View => self.basic_view,
            PaletteColor::Primary => self.basic_primary,
            PaletteColor::Secondary => self.basic_secondary,
            PaletteColor::Tertiary => self.basic_tertiary,
            PaletteColor::TitlePrimary => self.basic_title_primary,
            PaletteColor::TitleSecondary => self.basic_title_secondary,
            PaletteColor::Highlight => self.basic_highlight,
            PaletteColor::HighlightInactive => self.basic_highlight_inactive,
            PaletteColor::HighlightText => self.basic_highlight_text,
        }
    }

    /// Overwrites the color of a built-in role; no other state is affected.
    pub fn set_role(&mut self, role: PaletteColor, color: Color)
        requires
            old(self).wf(),
        ensures
            final(self).wf(),
            final(self)@ == set_role_spec(old(self)@, role, color),
    {
        match role {
            PaletteColor::Background => self.basic_background = color,
            PaletteColor::Shadow => self.basic_shadow = color,
            PaletteColor::View => self.basic_view = color,
            PaletteColor::Primary => self.basic_primary = color,
            PaletteColor::Secondary => self.basic_secondary = color,
            PaletteColor::Tertiary => self.basic_tertiary = color,
            PaletteColor::TitlePrimary => self.basic_title_primary = color,
            PaletteColor::TitleSecondary => self.basic_title_secondary = color,
            PaletteColor::Highlight => self.basic_highlight = color,
            PaletteColor::HighlightInactive => self.basic_highlight_inactive = color,
            PaletteColor::HighlightText => self.basic_highlight_text = color,
        }
        proof {
            assert(self@.basic =~= set_role_spec(old(self)@, role, color).basic);
            assert(self@ =~= set_role_spec(old(self)@, role, color));
        }
    }

    /// Returns a custom color from this palette.
    ///
    /// Returns `Some` only when the key holds a single color; `None` when
    /// the key is absent or holds a namespace.
    pub fn custom<'a>(&'a self, key: &str) -> (r: Option<&'a Color>)
        requires
            self.wf(),
        ensures
            (match r {
                Some(color) => self@.custom.contains_key(key@) && self@.custom[key@]
                    == NodeView::Color(*color),
                None => !self@.custom.contains_key(key@) || !(self@.custom[key@] is Color),
            }),
    {
        proof {
            lemma_stored_node_view(self.customs@, key@);
        }
        match find_index(&self.customs, key) {
            Some(i) => {
                proof {
                    lemma_unique_key_stored(self.customs@, i as int);
                }
                match &self.customs[i].1 {
                    PaletteNode::Color(color) => Some(color),
                    PaletteNode::Namespace(_) => None,
                }
            },
            None => {
                proof {
                    lemma_absent_key_stored(self.customs@, key@);
                }
                None
            },
        }
    }

    /// Sets a basic color from its name.
    ///
    /// Returns `Err(NoSuchColor)` exactly when the name denotes no built-in
    /// role; the palette is then left unchanged.
    pub fn set_basic_color(&mut self, key: &str, color: Color) -> (r: Result<(), NoSuchColor>)
        requires
            old(self).wf(),
        ensures
            final(self).wf(),
            (match r {
                Ok(_) => role_of_name(key@) matches Some(role) && final(self)@ == set_role_spec(
                    old(self)@,
                    role,
                    color,
                ),
                Err(_) => role_of_name(key@) is None && *final(self) == *old(self),
            }),
    {
        match PaletteColor::from_name(key) {
            Ok(role) => {
                self.set_role(role, color);
                Ok(())
            },
            Err(e) => Err(e),
        }
    }

    /// Sets the color for the given key.
    ///
    /// A key that names a built-in role, in either of its spellings,
    /// updates the built-in mapping; any other key inserts or overwrites a
    /// custom color.
    pub fn set_color(&mut self, key: &str, color: Color)
        requires
            old(self).wf(),
        ensures
            final(self).wf(),
            final(self)@ == set_color_spec(old(self)@, key@, color),
    {
        let routed = self.set_basic_color(key, color);
        if routed.is_err() {
            put_entry(&mut self.customs, key, PaletteNode::Color(color));
            proof {
                assert(self@ =~= set_color_spec(old(self)@, key@, color));
            }
        }
    }

    /// Adds a color namespace to this palette, replacing wholesale any
    /// prior entry under that key.
    pub fn add_namespace(&mut self, key: &str, namespace: Vec<(String, PaletteNode)>)
        requires
            old(self).wf(),
        ensures
            final(self).wf(),
            final(self)@ == add_namespace_spec(old(self)@, key@, entries_view(namespace@)),
    {
        put_entry(&mut self.customs, key, PaletteNode::Namespace(namespace));
        proof {
            assert(self@ =~= add_namespace_spec(old(self)@, key@, entries_view(namespace@)));
        }
    }

    /// Overwrites a batch of built-in roles, in order; a later pair for the
    /// same role wins.
    pub fn extend(&mut self, pairs: Vec<(PaletteColor, Color)>)
        requires
            old(self).wf(),
        ensures
            final(self).wf(),
            final(self)@ == extend_spec(old(self)@, pairs@),
    {
        let mut i: usize = 0;
        while i < pairs.len()
            invariant
                i <= pairs@.len(),
                self.wf(),
                self@ == extend_spec(old(self)@, pairs@.subrange(0, i as int)),
            decreases pairs@.len() - i,
        {
            let (role, color) = pairs[i];
            self.set_role(role, color);
            proof {
                let s1 = pairs@.subrange(0, i + 1);
                assert(s1.subrange(0, s1.len() - 1) =~= pairs@.subrange(0, i as int));
                assert(s1[s1.len() - 1] == pairs@[i as int]);
            }
            i = i + 1;
        }
        proof {
            assert(pairs@.subrange(0, pairs@.len() as int) =~= pairs@);
        }
    }

    /// Returns a new palette where the given namespace has been merged.
    ///
    /// The namespace's entries overlay the copy one by one, in the
    /// namespace's own order: a color entry goes through the name routing
    /// of [`Palette::set_color`], while a namespace entry replaces
    /// wholesale, without combining contents. When the key is absent or
    /// holds a single color, the result is an unmodified copy.
    #[must_use]
    pub fn merge(&self, namespace: &str) -> (result: Palette)
        requires
            self.wf(),
        ensures
            result.wf(),
            (match self.custom_entry(namespace@) {
                Some(PaletteNode::Namespace(entries)) => result@ == apply_entries(
                    self@,
                    entries@,
                ),
                _ => result@ == self@,
            }),
            !self@.custom.contains_key(namespace@) ==> result@ == self@,
            self@.custom.contains_key(namespace@) && self@.custom[namespace@] is Color
                ==> result@ == self@,
    {
        proof {
            lemma_stored_node_view(self.customs@, namespace@);
        }
        let mut result = Palette {
            basic_background: self.basic_background,
            basic_shadow: self.basic_shadow,
            basic_view: self.basic_view,
            basic_primary: self.basic_primary,
            basic_secondary: self.basic_secondary,
            basic_tertiary: self.basic_tertiary,
            basic_title_primary: self.basic_title_primary,
            basic_title_secondary: self.basic_title_secondary,
            basic_highlight: self.basic_highlight,
            basic_highlight_inactive: self.basic_highlight_inactive,
            basic_highlight_text: self.basic_highlight_text,
            customs: copy_entries(&self.customs),
        };
        proof {
            assert(result@ =~= self@);
        }
        match find_index(&self.customs, namespace) {
            Some(idx) => {
                proof {
                    lemma_unique_key_stored(self.customs@, idx as int);
                }
                match &self.customs[idx].1 {
                    PaletteNode::Namespace(entries) => {
                        let mut j: usize = 0;
                        while j < entries.len()
                            invariant
                                j <= entries@.len(),
                                result.wf(),
                                result@ == apply_entries(self@, entries@.subrange(0, j as int)),
                            decreases entries@.len() - j,
                        {
                            match &entries[j].1 {
                                PaletteNode::Color(color) => {
                                    result.set_color(entries[j].0.as_str(), *color);
                                },
                                PaletteNode::Namespace(sub) => {
                                    let copied = copy_entries(sub);
                                    result.add_namespace(entries[j].0.as_str(), copied);
                                },
                            }
                            proof {
                                let s1 = entries@.subrange(0, j + 1);
                                assert(s1.subrange(0, s1.len() - 1) =~= entries@.subrange(
                                    0,
                                    j as int,
                                ));
                                assert(s1[s1.len() - 1] == entries@[j as int]);
                            }
                            j = j + 1;
                        }
                        proof {
                            assert(entries@.subrange(0, entries@.len() as int) =~= entries@);
                        }
                    },
                    PaletteNode::Color(_) => {},
                }
            },
            None => {
                proof {
                    lemma_absent_key_stored(self.customs@, namespace@);
                }
            },
        }
        result
    }
}

impl Default for Palette {
    /// Returns the default palette: no custom entries, and each role bound
    /// to its fixed default color.
    fn default() -> (result: Palette)
        ensures
            result.wf(),
            result@ == default_view(),
    {
        let result = Palette {
            basic_background: Color::Dark(BaseColor::Blue),
            basic_shadow: Color::Dark(BaseColor::Black),
            basic_view: Color::Dark(BaseColor::White),
            basic_primary: Color::Dark(BaseColor::Black),
            basic_secondary: Color::Dark(BaseColor::Blue),
            basic_tertiary: Color::Light(BaseColor::White),
            basic_title_primary: Color::Dark(BaseColor::Red),
            basic_title_secondary: Color::Light(BaseColor::Blue),
            basic_highlight: Color::Dark(BaseColor::Red),
            basic_highlight_inactive: Color::Dark(BaseColor::Blue),
            basic_highlight_text: Color::Dark(BaseColor::White),
            customs: Vec::new(),
        };
        proof {
            assert(result@.basic =~= default_view().basic);
            assert(result@ =~= default_view());
        }
        result
    }
}

impl PaletteColor {
    /// Given a palette, resolve `self` to a concrete color.
    pub fn resolve(self, palette: &Palette) -> (color: Color)
        ensures
            color == palette@.basic[self],
    {
        palette.lookup_role(self)
    }
}

} // verus!
