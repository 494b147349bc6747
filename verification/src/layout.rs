//! The autolayout engine: on a fresh tree snapshot, locate the focused
//! node and its parent along the focus path, then either impose a split
//! direction that follows the focused node's aspect ratio or do nothing.
//!
//! Alternating the split orientation with the window's shape approximates
//! a dwindling tiling discipline without keeping any per-workspace state.

use vstd::prelude::*;

use crate::errors::DecisionError;

verus! {

broadcast use vstd::std_specs::vec::group_vec_axioms;

/// The type of a tree node, as far as the layout decision tells them
/// apart.
#[derive(Clone, Copy, Debug, PartialEq, Eq, Structural)]
pub enum NodeKind {
    /// An ordinary tiling container.
    Normal,
    /// A floating container.
    Floating,
    /// Anything else (root, output, workspace).
    Other,
}

/// A node's layout mode.
#[derive(Clone, Copy, Debug, PartialEq, Eq, Structural)]
pub enum LayoutKind {
    /// Children split horizontally.
    SplitH,
    /// Children split vertically.
    SplitV,
    /// Children stacked.
    Stacked,
    /// Children tabbed.
    Tabbed,
    /// Anything else.
    Other,
}

/// A node's geometry, as far as the decision reads it.
#[derive(Clone, Copy, Debug, PartialEq, Eq, Structural)]
pub struct NodeRect {
    /// Width in pixels.
    pub width: i32,
    /// Height in pixels.
    pub height: i32,
}

/// One node of a point-in-time tree snapshot.
#[derive(Debug)]
pub struct TreeNode {
    /// The node's id, unique for the window manager's lifetime.
    pub id: i64,
    /// Whether this node is the focused one.
    pub focused: bool,
    /// What kind of container the node is.
    pub kind: NodeKind,
    /// The node's layout mode.
    pub layout: LayoutKind,
    /// The node's geometry.
    pub rect: NodeRect,
    /// Whether the node is taken as fullscreen: its size indicator
    /// exceeds the whole of its parent.
    pub fullscreen: bool,
    /// Child ids in focus order; the first entry leads towards the
    /// focused leaf.
    pub focus: Vec<i64>,
    /// Tiling children.
    pub nodes: Vec<TreeNode>,
    /// Floating children.
    pub floating_nodes: Vec<TreeNode>,
}

/// The first node of `s` whose id is `id`.
pub open spec fn child_with_id(s: Seq<TreeNode>, id: i64) -> Option<TreeNode>
    decreases s.len(),
{
    if s.len() == 0 {
        None
    } else if s[0].id == id {
        Some(s[0])
    } else {
        child_with_id(s.skip(1), id)
    }
}

/// The next node on the focus path below `n`: the child — tiling children
/// searched before floating ones — whose id is the first entry of `n`'s
/// focus order.
pub open spec fn focus_child(n: TreeNode) -> Option<TreeNode> {
    if n.focus@.len() == 0 {
        None
    } else {
        match child_with_id(n.nodes@, n.focus@[0]) {
            Some(c) => Some(c),
            None => child_with_id(n.floating_nodes@, n.focus@[0]),
        }
    }
}

proof fn lemma_child_with_id_at(s: Seq<TreeNode>, id: i64, i: int)
    requires
        0 <= i < s.len(),
        s[i].id == id,
        forall|j: int| 0 <= j < i ==> s[j].id != id,
    ensures
        child_with_id(s, id) == Some(s[i]),
    decreases i,
{
    if i > 0 {
        lemma_child_with_id_at(s.skip(1), id, i - 1);
        assert(s.skip(1)[i - 1] == s[i]);
    }
}

proof fn lemma_child_with_id_none(s: Seq<TreeNode>, id: i64)
    requires
        forall|j: int| 0 <= j < s.len() ==> s[j].id != id,
    ensures
        child_with_id(s, id) is None,
    decreases s.len(),
{
    if s.len() > 0 {
        lemma_child_with_id_none(s.skip(1), id);
    }
}

proof fn lemma_child_with_id_mem(s: Seq<TreeNode>, id: i64)
    ensures
        match child_with_id(s, id) {
            Some(c) => exists|j: int| 0 <= j < s.len() && s[j] == c,
            None => true,
        },
    decreases s.len(),
{
    if s.len() == 0 {
    } else if s[0].id == id {
        assert(s[0] == s[0]);
    } else {
        lemma_child_with_id_mem(s.skip(1), id);
        match child_with_id(s.skip(1), id) {
            Some(c) => {
                let j = choose|j: int| 0 <= j < s.skip(1).len() && s.skip(1)[j] == c;
                assert(s[j + 1] == s.skip(1)[j]);
            },
            None => {},
        }
    }
}

proof fn lemma_focus_child_smaller(n: TreeNode)
    ensures
        match focus_child(n) {
            Some(c) => decreases_to!(n => c),
            None => true,
        },
{
    match focus_child(n) {
        Some(c) => {
            lemma_child_with_id_mem(n.nodes@, n.focus@[0]);
            lemma_child_with_id_mem(n.floating_nodes@, n.focus@[0]);
            match child_with_id(n.nodes@, n.focus@[0]) {
                Some(_) => {
                    let j = choose|j: int| 0 <= j < n.nodes@.len() && n.nodes@[j] == c;
                    assert(decreases_to!(n => n.nodes));
                    assert(decreases_to!(n.nodes@ => n.nodes@[j]));
                    assert(decreases_to!(n => c));
                },
                None => {
                    let j = choose|j: int|
                        0 <= j < n.floating_nodes@.len() && n.floating_nodes@[j] == c;
                    assert(decreases_to!(n => n.floating_nodes));
                    assert(decreases_to!(n.floating_nodes@ => n.floating_nodes@[j]));
                    assert(decreases_to!(n => c));
                },
            }
        },
        None => {},
    }
}

/// The first node along the focus path from `n` that is itself focused.
pub open spec fn find_focused_spec(n: TreeNode) -> Option<TreeNode>
    decreases n,
    via find_focused_spec_dec
{
    if n.focused {
        Some(n)
    } else {
        match focus_child(n) {
            Some(c) => find_focused_spec(c),
            None => None,
        }
    }
}

#[via_fn]
proof fn find_focused_spec_dec(n: TreeNode) {
    lemma_focus_child_smaller(n);
}

/// Whether one of `n`'s direct tiling children is the focused node.
pub open spec fn has_focused_tiling_child(n: TreeNode) -> bool {
    exists|j: int| 0 <= j < n.nodes@.len() && n.nodes@[j].focused
}

/// The first node along the focus path from `n` whose direct tiling
/// children include the focused node: the focused node's parent.
pub open spec fn find_parent_spec(n: TreeNode) -> Option<TreeNode>
    decreases n,
    via find_parent_spec_dec
{
    if has_focused_tiling_child(n) {
        Some(n)
    } else {
        match focus_child(n) {
            Some(c) => find_parent_spec(c),
            None => None,
        }
    }
}

#[via_fn]
proof fn find_parent_spec_dec(n: TreeNode) {
    lemma_focus_child_smaller(n);
}

/// What the focus-path search finds is in fact the focused node: when the
/// search succeeds, the node it returns has the focus flag set.
pub proof fn lemma_find_focused_is_focused(n: TreeNode)
    ensures
        match find_focused_spec(n) {
            Some(f) => f.focused,
            None => true,
        },
    decreases n,
{
    if !n.focused {
        match focus_child(n) {
            Some(c) => {
                lemma_focus_child_smaller(n);
                lemma_find_focused_is_focused(c);
            },
            None => {},
        }
    }
}

/// What the parent search finds is in fact a parent of the focused node:
/// when the search succeeds, one of the returned node's direct tiling
/// children has the focus flag set.
pub proof fn lemma_find_parent_has_focused_child(n: TreeNode)
    ensures
        match find_parent_spec(n) {
            Some(p) => has_focused_tiling_child(p),
            None => true,
        },
    decreases n,
{
    if !has_focused_tiling_child(n) {
        match focus_child(n) {
            Some(c) => {
                lemma_focus_child_smaller(n);
                lemma_find_parent_has_focused_child(c);
            },
            None => {},
        }
    }
}

fn find_child<'a>(nodes: &'a Vec<TreeNode>, id: i64) -> (r: Option<&'a TreeNode>)
    ensures
        match r {
            Some(c) => child_with_id(nodes@, id) == Some(*c),
            None => child_with_id(nodes@, id) is None,
        },
{
    let n = nodes.len();
    let mut i: usize = 0;
    while i < n
        invariant
            i <= n,
            n == nodes@.len(),
            forall|j: int| 0 <= j < i ==> nodes@[j].id != id,
        decreases n - i,
    {
        if nodes[i].id == id {
            proof {
                lemma_child_with_id_at(nodes@, id, i as int);
            }
            return Some(&nodes[i]);
        }
        i = i + 1;
    }
    proof {
        lemma_child_with_id_none(nodes@, id);
    }
    None
}

fn focus_child_of<'a>(n: &'a TreeNode) -> (r: Option<&'a TreeNode>)
    ensures
        match r {
            Some(c) => focus_child(*n) == Some(*c),
            None => focus_child(*n) is None,
        },
{
    if n.focus.len() == 0 {
        return None;
    }
    let id = n.focus[0];
    match find_child(&n.nodes, id) {
        Some(c) => Some(c),
        None => find_child(&n.floating_nodes, id),
    }
}

/// Locates the focused node: the first node along the focus path that is
/// itself focused.
pub fn find_focused<'a>(n: &'a TreeNode) -> (r: Option<&'a TreeNode>)
    ensures
        match r {
            Some(c) => find_focused_spec(*n) == Some(*c),
            None => find_focused_spec(*n) is None,
        },
    decreases *n,
{
    if n.focused {
        return Some(n);
    }
    match focus_child_of(n) {
        Some(c) => {
            proof {
                lemma_focus_child_smaller(*n);
            }
            find_focused(c)
        },
        None => None,
    }
}

fn any_child_focused(nodes: &Vec<TreeNode>) -> (r: bool)
    ensures
        r == exists|j: int| 0 <= j < nodes@.len() && nodes@[j].focused,
{
    let n = nodes.len();
    let mut i: usize = 0;
    while i < n
        invariant
            i <= n,
            n == nodes@.len(),
            forall|j: int| 0 <= j < i ==> !nodes@[j].focused,
        decreases n - i,
    {
        if nodes[i].focused {
            return true;
        }
        i = i + 1;
    }
    false
}

/// Locates the focused node's parent: the first node along the focus path
/// whose direct tiling children include the focused node.
pub fn find_parent<'a>(n: &'a TreeNode) -> (r: Option<&'a TreeNode>)
    ensures
        match r {
            Some(c) => find_parent_spec(*n) == Some(*c),
            None => find_parent_spec(*n) is None,
        },
    decreases *n,
{
    if any_child_focused(&n.nodes) {
        return Some(n);
    }
    match focus_child_of(n) {
        Some(c) => {
            proof {
                lemma_focus_child_smaller(*n);
            }
            find_parent(c)
        },
        None => None,
    }
}

/// The split decision for the focused node `f` under parent `p`: nothing
/// when `f` floats or is fullscreen or `p` is stacked or tabbed; otherwise
/// one split command, vertical exactly when `f` is taller than wide.
pub open spec fn split_decision(f: TreeNode, p: TreeNode) -> Option<Seq<char>> {
    if f.kind is Floating || f.fullscreen || p.layout is Stacked || p.layout is Tabbed {
        None
    } else if f.rect.height > f.rect.width {
        Some("split v"@)
    } else {
        Some("split h"@)
    }
}

/// What autolayout does with a fresh tree snapshot: the split decision
/// for the focused node under its parent, or the failure that kept it
/// from finding either.
pub open spec fn autolayout_of(tree: TreeNode) -> Result<Option<Seq<char>>, DecisionError> {
    match find_focused_spec(tree) {
        None => Err(DecisionError::NoFocusedNode),
        Some(f) => match find_parent_spec(tree) {
            None => Err(DecisionError::NoParent),
            Some(p) => Ok(split_decision(f, p)),
        },
    }
}

/// Runs the autolayout decision on a fresh tree snapshot.  Never issues a
/// command for a floating or fullscreen node or under a stacked or tabbed
/// parent; otherwise issues exactly one split command whose direction is
/// vertical exactly when the focused node is taller than it is wide.
pub fn autolayout_command(tree: &TreeNode) -> (r: Result<Option<String>, DecisionError>)
    ensures
        match (r, autolayout_of(*tree)) {
            (Ok(Some(c)), Ok(Some(sc))) => c@ == sc,
            (Ok(None), Ok(None)) => true,
            (Err(e), Err(se)) => e == se,
            _ => false,
        },
{
    let focused = match find_focused(tree) {
        Some(f) => f,
        None => {
            return Err(DecisionError::NoFocusedNode);
        },
    };
    let parent = match find_parent(tree) {
        Some(p) => p,
        None => {
            return Err(DecisionError::NoParent);
        },
    };
    let is_floating = focused.kind == NodeKind::Floating;
    let is_full_screen = focused.fullscreen;
    let is_stacked = parent.layout == LayoutKind::Stacked;
    let is_tabbed = parent.layout == LayoutKind::Tabbed;
    if !is_floating && !is_full_screen && !is_stacked && !is_tabbed {
        if focused.rect.height > focused.rect.width {
            Ok(Some(String::from_str("split v")))
        } else {
            Ok(Some(String::from_str("split h")))
        }
    } else {
        Ok(None)
    }
}

} // verus!
