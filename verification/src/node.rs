//! The tree of custom palette values.
//!
//! Custom entries form a finite, acyclic tree: a name maps either to a single
//! color or to a namespace, itself a mapping from names to further nodes.
//! Namespaces are stored as vectors of key/node pairs with distinct keys; in
//! contracts they are read through [`entries_view`], a finite map from names
//! to node values in which a later entry under the same name wins.

use crate::color::Color;
use crate::text::str_eq;
use vstd::prelude::*;

verus! {

/// A node in the palette tree.
///
/// This describes a value attached to a custom keyword in the palette:
/// either a single color, or a nested namespace with its own mapping.
#[derive(Debug, PartialEq, Eq)]
pub enum PaletteNode {
    /// A single color.
    Color(Color),
    /// A group of values bundled in the same namespace.
    ///
    /// Namespaces can be merged in the palette with `Palette::merge`.
    Namespace(Vec<(String, PaletteNode)>),
}

/// The mathematical value of a palette node: a color, or a finite map from
/// names to further values, the order of entries erased.
#[verifier::ext_equal]
pub enum NodeView {
    /// A single color.
    Color(Color),
    /// A namespace as a finite map.
    Namespace(Map<Seq<char>, NodeView>),
}

/// The value of a node.
pub open spec fn node_view(node: PaletteNode) -> NodeView
    decreases node,
{
    match node {
        PaletteNode::Color(c) => NodeView::Color(c),
        PaletteNode::Namespace(entries) => NodeView::Namespace(entries_view(entries@)),
    }
}

/// The map that a sequence of key/node pairs denotes: entries are taken in
/// order, so a later entry under the same key wins.
pub open spec fn entries_view(s: Seq<(String, PaletteNode)>) -> Map<Seq<char>, NodeView>
    decreases s,
{
    if s.len() == 0 {
        Map::empty()
    } else {
        let i = s.len() - 1;
        entries_view(s.subrange(0, i)).insert(s[i].0@, node_view(s[i].1))
    }
}

impl View for PaletteNode {
    type V = NodeView;

    open spec fn view(&self) -> NodeView {
        node_view(*self)
    }
}

/// Whether the keys of a sequence of entries are pairwise distinct.
pub open spec fn keys_unique(s: Seq<(String, PaletteNode)>) -> bool {
    forall|i: int, j: int| 0 <= i < j < s.len() ==> s[i].0@ != s[j].0@
}

/// The node stored under a key, if any; a later entry wins, as in
/// [`entries_view`].
pub open spec fn stored_node(s: Seq<(String, PaletteNode)>, key: Seq<char>) -> Option<
    PaletteNode,
>
    decreases s,
{
    if s.len() == 0 {
        None
    } else {
        let i = s.len() - 1;
        if s[i].0@ == key {
            Some(s[i].1)
        } else {
            stored_node(s.subrange(0, i), key)
        }
    }
}

/// The map of a sequence of entries holds a key exactly when some entry
/// stores it, and then holds the value of the stored node.
pub proof fn lemma_stored_node_view(s: Seq<(String, PaletteNode)>, key: Seq<char>)
    ensures
        entries_view(s).contains_key(key) == (stored_node(s, key) is Some),
        stored_node(s, key) matches Some(node) ==> entries_view(s)[key] == node_view(node),
    decreases s,
{
    if s.len() > 0 {
        let i = s.len() - 1;
        if s[i].0@ != key {
            lemma_stored_node_view(s.subrange(0, i), key);
        }
    }
}

/// A key that no entry carries is stored nowhere.
pub proof fn lemma_absent_key_stored(s: Seq<(String, PaletteNode)>, key: Seq<char>)
    requires
        forall|j: int| 0 <= j < s.len() ==> s[j].0@ != key,
    ensures
        stored_node(s, key) is None,
    decreases s,
{
    if s.len() > 0 {
        let n = s.len() - 1;
        assert(forall|j: int| 0 <= j < n ==> s.subrange(0, n)[j] == s[j]);
        lemma_absent_key_stored(s.subrange(0, n), key);
    }
}

/// With pairwise distinct keys, any entry that stores a key is the stored one.
pub proof fn lemma_unique_key_stored(s: Seq<(String, PaletteNode)>, i: int)
    requires
        keys_unique(s),
        0 <= i < s.len(),
    ensures
        stored_node(s, s[i].0@) == Some(s[i].1),
    decreases s,
{
    let n = s.len() - 1;
    if i < n {
        assert(s[n].0@ != s[i].0@);
        lemma_unique_key_stored(s.subrange(0, n), i);
        assert(s.subrange(0, n)[i] == s[i]);
    }
}

/// Appending an entry inserts its value into the map of the sequence.
pub proof fn lemma_entries_view_push(s: Seq<(String, PaletteNode)>, pair: (String, PaletteNode))
    ensures
        entries_view(s.push(pair)) == entries_view(s).insert(pair.0@, node_view(pair.1)),
{
    let t = s.push(pair);
    assert(t.subrange(0, t.len() - 1) =~= s);
}

/// Replacing the entry that stores a key updates the map at that key alone.
pub proof fn lemma_entries_view_update(
    s: Seq<(String, PaletteNode)>,
    i: int,
    pair: (String, PaletteNode),
)
    requires
        keys_unique(s),
        0 <= i < s.len(),
        pair.0@ == s[i].0@,
    ensures
        entries_view(s.update(i, pair)) == entries_view(s).insert(pair.0@, node_view(pair.1)),
    decreases s,
{
    let n = s.len() - 1;
    let t = s.update(i, pair);
    if i == n {
        assert(t.subrange(0, n) =~= s.subrange(0, n));
        assert(entries_view(t) =~= entries_view(s).insert(pair.0@, node_view(pair.1)));
    } else {
        assert(t.subrange(0, n) =~= s.subrange(0, n).update(i, pair));
        assert(keys_unique(s.subrange(0, n)));
        assert(s.subrange(0, n)[i] == s[i]);
        lemma_entries_view_update(s.subrange(0, n), i, pair);
        assert(s[n].0@ != s[i].0@);
        assert(t[n] == s[n]);
        assert(entries_view(t) =~= entries_view(s).insert(pair.0@, node_view(pair.1)));
    }
}

/// Two entry sequences whose keys and node values agree pairwise denote the
/// same map and agree on key distinctness.
pub proof fn lemma_entries_view_congruent(
    a: Seq<(String, PaletteNode)>,
    b: Seq<(String, PaletteNode)>,
)
    requires
        a.len() == b.len(),
        forall|i: int|
            0 <= i < a.len() ==> a[i].0@ == b[i].0@ && node_view(a[i].1) == node_view(b[i].1),
    ensures
        entries_view(a) == entries_view(b),
        keys_unique(a) == keys_unique(b),
    decreases a,
{
    if a.len() > 0 {
        let n = a.len() - 1;
        assert(forall|i: int|
            0 <= i < n ==> a.subrange(0, n)[i] == a[i] && b.subrange(0, n)[i] == b[i]);
        lemma_entries_view_congruent(a.subrange(0, n), b.subrange(0, n));
        assert(entries_view(a) =~= entries_view(b));
    }
}

/// Finds the position of the entry stored under a key, if any.
pub(crate) fn find_index(entries: &Vec<(String, PaletteNode)>, key: &str) -> (r: Option<usize>)
    ensures
        match r {
            Some(i) => i < entries@.len() && entries@[i as int].0@ == key@,
            None => forall|j: int| 0 <= j < entries@.len() ==> entries@[j].0@ != key@,
        },
{
    let mut i: usize = 0;
    while i < entries.len()
        invariant
            i <= entries@.len(),
            forall|j: int| 0 <= j < i ==> entries@[j].0@ != key@,
        decreases entries@.len() - i,
    {
        if str_eq(entries[i].0.as_str(), key) {
            return Some(i);
        }
        i = i + 1;
    }
    None
}

/// Inserts a node under a key, overwriting the entry that stored the key
/// before, and keeping keys pairwise distinct.
pub(crate) fn put_entry(entries: &mut Vec<(String, PaletteNode)>, key: &str, node: PaletteNode)
    requires
        keys_unique(old(entries)@),
    ensures
        keys_unique(final(entries)@),
        entries_view(final(entries)@) == entries_view(old(entries)@).insert(key@, node@),
{
    let owned_key: String = key.to_owned();
    match find_index(entries, key) {
        Some(i) => {
            proof {
                lemma_entries_view_update(entries@, i as int, (owned_key, node));
            }
            entries[i] = (owned_key, node);
            proof {
                assert(forall|l: int|
                    0 <= l < final(entries)@.len() ==> final(entries)@[l].0@ == old(
                        entries,
                    )@[l].0@);
            }
        },
        None => {
            proof {
                lemma_entries_view_push(entries@, (owned_key, node));
            }
            entries.push((owned_key, node));
        },
    }
}

/// Copies a node; the copy has the same value.
pub(crate) fn copy_node(node: &PaletteNode) -> (r: PaletteNode)
    ensures
        r@ == node@,
    decreases *node,
{
    match node {
        PaletteNode::Color(c) => PaletteNode::Color(*c),
        PaletteNode::Namespace(entries) => PaletteNode::Namespace(copy_entries(entries)),
    }
}

/// Copies a sequence of entries; the copy agrees pairwise on keys and node
/// values, so it denotes the same map.
pub(crate) fn copy_entries(entries: &Vec<(String, PaletteNode)>) -> (r: Vec<
    (String, PaletteNode),
>)
    ensures
        r@.len() == entries@.len(),
        forall|i: int|
            0 <= i < entries@.len() ==> r@[i].0@ == entries@[i].0@ && r@[i].1@ == entries@[i].1@,
        entries_view(r@) == entries_view(entries@),
        keys_unique(r@) == keys_unique(entries@),
    decreases entries@,
{
    let mut out: Vec<(String, PaletteNode)> = Vec::new();
    let mut i: usize = 0;
    while i < entries.len()
        invariant
            i <= entries@.len(),
            out@.len() == i,
            forall|j: int|
                0 <= j < i ==> out@[j].0@ == entries@[j].0@ && out@[j].1@ == entries@[j].1@,
        decreases entries@.len() - i,
    {
        let entry_key = entries[i].0.clone();
        let entry_node = copy_node(&entries[i].1);
        out.push((entry_key, entry_node));
        i = i + 1;
    }
    proof {
        lemma_entries_view_congruent(out@, entries@);
    }
    out
}

} // verus!
