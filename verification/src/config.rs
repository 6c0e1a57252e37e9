//! Building palette trees from a generic configuration tree.
//!
//! The host application supplies an acyclic tree of [`ConfigNode`] values,
//! one per configuration entry, classified as string scalar, list, table,
//! or other. Building is best-effort: a string that names no color and a
//! node of an unrecognized kind produce nothing and are dropped, while a
//! table always produces a namespace, even an empty one.

use crate::color::{color_of_name, Color};
use crate::node::{entries_view, lemma_entries_view_push, NodeView, PaletteNode};
use crate::palette::{apply_entry, Palette, PaletteView};
use vstd::prelude::*;

verus! {

/// A node of the external configuration tree, as this crate reads it.
///
/// The host's configuration reader classifies each of its nodes as one of
/// these kinds; the concrete source format never matters here.
#[derive(Debug, PartialEq, Eq)]
pub enum ConfigNode {
    /// A string scalar.
    Text(String),
    /// A list of nodes; only its string elements are considered.
    List(Vec<ConfigNode>),
    /// A table of named child nodes.
    Table(Vec<(String, ConfigNode)>),
    /// A node of any other kind (a number, a boolean, a datetime, ...).
    ///
    /// Such a node is not understood; it produces nothing, and the entry
    /// holding it is dropped without failing the load.
    Other,
}

/// Whether a list element offers a color: it is a string and names one.
pub open spec fn offers_color(node: ConfigNode) -> bool {
    node matches ConfigNode::Text(text) && color_of_name(text@) is Some
}

/// The value built from a configuration node, if any.
///
/// A string builds the color it names; a list builds the color of its
/// first element that names one; a table builds a namespace from its
/// children, keeping only those that build something; any other node
/// builds nothing.
pub open spec fn build_spec(node: ConfigNode) -> Option<NodeView>
    decreases node,
{
    match node {
        ConfigNode::Text(text) => match color_of_name(text@) {
            Some(color) => Some(NodeView::Color(color)),
            None => None,
        },
        ConfigNode::List(items) => build_list_spec(items@),
        ConfigNode::Table(entries) => Some(NodeView::Namespace(build_table_spec(entries@))),
        ConfigNode::Other => None,
    }
}

/// The color built from a list: its first element that names a color
/// decides, and the rest are ignored.
pub open spec fn build_list_spec(items: Seq<ConfigNode>) -> Option<NodeView>
    decreases items,
{
    if items.len() == 0 {
        None
    } else {
        match items[0] {
            ConfigNode::Text(text) => match color_of_name(text@) {
                Some(color) => Some(NodeView::Color(color)),
                None => build_list_spec(items.subrange(1, items.len() as int)),
            },
            _ => build_list_spec(items.subrange(1, items.len() as int)),
        }
    }
}

/// The namespace built from a table's entries, in order: a child that
/// builds something is entered under its key, a later entry under the same
/// key winning; a child that builds nothing is dropped.
pub open spec fn build_table_spec(entries: Seq<(String, ConfigNode)>) -> Map<Seq<char>, NodeView>
    decreases entries,
{
    if entries.len() == 0 {
        Map::empty()
    } else {
        let i = entries.len() - 1;
        let rest = build_table_spec(entries.subrange(0, i));
        match build_spec(entries[i].1) {
            Some(node) => rest.insert(entries[i].0@, node),
            None => rest,
        }
    }
}

/// Builds zero or one palette node from a configuration node.
#[verifier::loop_isolation(false)]
pub fn build_node(node: &ConfigNode) -> (r: Option<PaletteNode>)
    ensures
        (match r {
            Some(built) => build_spec(*node) == Some(built@),
            None => build_spec(*node) is None,
        }),
    decreases *node,
{
    match node {
        ConfigNode::Text(text) => match Color::parse(text.as_str()) {
            Some(color) => Some(PaletteNode::Color(color)),
            None => None,
        },
        ConfigNode::List(items) => {
            proof {
                assert(items@.subrange(0, items@.len() as int) =~= items@);
            }
            let mut i: usize = 0;
            while i < items.len()
                invariant
                    i <= items@.len(),
                    build_list_spec(items@) == build_list_spec(
                        items@.subrange(i as int, items@.len() as int),
                    ),
                decreases items@.len() - i,
            {
                let parsed: Option<Color> = match &items[i] {
                    ConfigNode::Text(text) => Color::parse(text.as_str()),
                    _ => None,
                };
                match parsed {
                    Some(color) => {
                        proof {
                            let s = items@.subrange(i as int, items@.len() as int);
                            assert(s[0] == items@[i as int]);
                            assert(build_list_spec(s) == Some(NodeView::Color(color)));
                        }
                        return Some(PaletteNode::Color(color));
                    },
                    None => {
                        proof {
                            let s = items@.subrange(i as int, items@.len() as int);
                            assert(s[0] == items@[i as int]);
                            assert(s.subrange(1, s.len() as int) =~= items@.subrange(
                                i as int + 1,
                                items@.len() as int,
                            ));
                        }
                    },
                }
                i = i + 1;
            }
            None
        },
        ConfigNode::Table(entries) => {
            let mut out: Vec<(String, PaletteNode)> = Vec::new();
            let mut i: usize = 0;
            while i < entries.len()
                invariant
                    i <= entries@.len(),
                    entries_view(out@) == build_table_spec(entries@.subrange(0, i as int)),
                decreases entries@.len() - i,
            {
                proof {
                    let s1 = entries@.subrange(0, i + 1);
                    assert(s1.subrange(0, s1.len() - 1) =~= entries@.subrange(0, i as int));
                    assert(s1[s1.len() - 1] == entries@[i as int]);
                    assert(decreases_to!(*node => entries@[i as int].1));
                }
                match build_node(&entries[i].1) {
                    Some(child) => {
                        let child_key = entries[i].0.clone();
                        let ghost pair = (child_key, child);
                        let ghost out_before = out@;
                        out.push((child_key, child));
                        proof {
                            lemma_entries_view_push(out_before, pair);
                        }
                    },
                    None => {},
                }
                i = i + 1;
            }
            proof {
                assert(entries@.subrange(0, entries@.len() as int) =~= entries@);
            }
            Some(PaletteNode::Namespace(out))
        },
        ConfigNode::Other => None,
    }
}

/// The palette after loading a table's entries, in order: a color built
/// from a child goes through the name routing of `Palette::set_color`, a
/// namespace is installed wholesale, and a child that builds nothing
/// leaves the palette as it was.
pub open spec fn load_spec(v: PaletteView, entries: Seq<(String, ConfigNode)>) -> PaletteView
    decreases entries,
{
    if entries.len() == 0 {
        v
    } else {
        let i = entries.len() - 1;
        let prev = load_spec(v, entries.subrange(0, i));
        match build_spec(entries[i].1) {
            Some(node) => apply_entry(prev, entries[i].0@, node),
            None => prev,
        }
    }
}

impl Palette {
    /// Fills the palette with the colors built from the given table.
    ///
    /// Each entry whose node builds something is installed under its key: a
    /// top-level scalar named like a built-in role updates the built-in
    /// mapping directly, while tables and unmatched names populate the
    /// custom values. Entries that build nothing are dropped; the load
    /// itself never fails.
    pub fn load_table(&mut self, table: &Vec<(String, ConfigNode)>)
        requires
            old(self).wf(),
        ensures
            final(self).wf(),
            final(self)@ == load_spec(old(self)@, table@),
    {
        let mut i: usize = 0;
        while i < table.len()
            invariant
                i <= table@.len(),
                self.wf(),
                self@ == load_spec(old(self)@, table@.subrange(0, i as int)),
            decreases table@.len() - i,
        {
            proof {
                let s1 = table@.subrange(0, i + 1);
                assert(s1.subrange(0, s1.len() - 1) =~= table@.subrange(0, i as int));
                assert(s1[s1.len() - 1] == table@[i as int]);
            }
            match build_node(&table[i].1) {
                Some(PaletteNode::Color(color)) => {
                    self.set_color(table[i].0.as_str(), color);
                },
                Some(PaletteNode::Namespace(namespace)) => {
                    self.add_namespace(table[i].0.as_str(), namespace);
                },
                None => {},
            }
            i = i + 1;
        }
        proof {
            assert(table@.subrange(0, table@.len() as int) =~= table@);
        }
    }
}

} // verus!
