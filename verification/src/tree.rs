//! The window manager's layout tree, and the walks over it: the workspace
//! that holds the focus, all workspaces, and the windows of a workspace.

use vstd::prelude::*;

use crate::text::str_eq;

verus! {

/// What a node of the layout tree stands for.
#[derive(Debug, Clone, Copy, PartialEq, Eq, Structural)]
pub enum NodeKind {
    Workspace,
    Container,
    Window,
    Other,
}

/// A node of the layout tree, with what the walks read of it.
#[derive(Debug)]
pub struct LayoutNode {
    /// The identity that a parent's focus path names.
    pub id: i64,
    pub kind: NodeKind,
    pub name: Option<String>,
    /// The windowing system's identifier of the window, if the node shows one.
    pub window: Option<i32>,
    pub focused: bool,
    /// The children, in the tree's own order.
    pub nodes: Vec<LayoutNode>,
    /// The identities of the children, the one on the way to the focus first.
    pub focus: Vec<i64>,
}

/// Whether `name` is the reserved name of the hidden workspace.
pub open spec fn is_scratch_name(name: Option<String>) -> bool {
    name matches Some(n) && n@ == "__i3_scratch"@
}

/// Whether a walk over all workspaces lists `node`: it is a workspace, and
/// not the hidden one.
pub open spec fn is_listed(node: LayoutNode) -> bool {
    node.kind == NodeKind::Workspace && !is_scratch_name(node.name)
}

/// The nodes behind a sequence of references.
pub open spec fn nodes_of(refs: Seq<&LayoutNode>) -> Seq<LayoutNode> {
    refs.map_values(|n: &LayoutNode| *n)
}

/// The node behind an optional reference.
pub open spec fn node_of(r: Option<&LayoutNode>) -> Option<LayoutNode> {
    match r {
        Some(n) => Some(*n),
        None => None,
    }
}

/// The leaves below `node`, from left to right. A node without children has
/// no leaves below it: it is a leaf of its parent.
pub open spec fn leaves_of(node: LayoutNode) -> Seq<LayoutNode>
    decreases node, 0nat,
{
    leaves_of_first(node.nodes@, node.nodes@.len())
}

/// The leaves at and below the first `n` of `children`.
pub open spec fn leaves_of_first(children: Seq<LayoutNode>, n: nat) -> Seq<LayoutNode>
    decreases children, n,
{
    if n == 0 || n > children.len() {
        Seq::empty()
    } else {
        let child = children[n - 1];
        leaves_of_first(children, (n - 1) as nat) + if child.nodes@.len() == 0 {
            seq![child]
        } else {
            leaves_of(child)
        }
    }
}

/// The listed workspaces at and below `node`, a node before its children and
/// the children from left to right.
pub open spec fn workspaces_of(node: LayoutNode) -> Seq<LayoutNode>
    decreases node, 0nat,
{
    let here = if is_listed(node) {
        seq![node]
    } else {
        Seq::empty()
    };
    here + workspaces_of_first(node.nodes@, node.nodes@.len())
}

/// The listed workspaces at and below the first `n` of `children`.
pub open spec fn workspaces_of_first(children: Seq<LayoutNode>, n: nat) -> Seq<LayoutNode>
    decreases children, n,
{
    if n == 0 || n > children.len() {
        Seq::empty()
    } else {
        workspaces_of_first(children, (n - 1) as nat) + workspaces_of(children[n - 1])
    }
}

/// How many listed workspaces stand at and below `node`.
pub open spec fn workspace_count(node: LayoutNode) -> nat
    decreases node, 0nat,
{
    let here: nat = if is_listed(node) {
        1
    } else {
        0
    };
    here + workspace_count_first(node.nodes@, node.nodes@.len())
}

/// How many listed workspaces stand at and below the first `n` of `children`.
pub open spec fn workspace_count_first(children: Seq<LayoutNode>, n: nat) -> nat
    decreases children, n,
{
    if n == 0 || n > children.len() {
        0
    } else {
        workspace_count_first(children, (n - 1) as nat) + workspace_count(children[n - 1])
    }
}

/// The position of the first of `children` at or after `from` whose identity
/// is `id`, or the number of children if there is none.
pub open spec fn child_position(children: Seq<LayoutNode>, id: i64, from: int) -> int
    decreases children.len() - from,
{
    if 0 <= from < children.len() && children[from].id != id {
        child_position(children, id, from + 1)
    } else {
        from
    }
}

/// The workspace that holds the focus, seen from `node` with `above` as the
/// nearest workspace above it.
///
/// The walk follows the first entry of each node's focus path. At the focused
/// node the answer is the nearest workspace at or above it. There is none
/// where a node on the way has an empty focus path, or names a child that it
/// does not have.
pub open spec fn focused_workspace_below(node: LayoutNode, above: Option<LayoutNode>) -> Option<
    LayoutNode,
>
    decreases node,
{
    let nearest = if node.kind == NodeKind::Workspace {
        Some(node)
    } else {
        above
    };
    if node.focused {
        nearest
    } else if node.focus@.len() == 0 {
        None
    } else {
        let at = child_position(node.nodes@, node.focus@[0], 0);
        if 0 <= at < node.nodes@.len() {
            focused_workspace_below(node.nodes@[at], nearest)
        } else {
            None
        }
    }
}

/// The workspace that holds the focus in the tree under `root`.
pub open spec fn focused_workspace(root: LayoutNode) -> Option<LayoutNode> {
    focused_workspace_below(root, None)
}

/// Every workspace that a walk lists is a workspace other than the hidden
/// one, and the walk lists as many as the tree holds.
pub proof fn lemma_workspaces_listed(node: LayoutNode)
    ensures
        forall|i: int|
            0 <= i < workspaces_of(node).len() ==> is_listed(#[trigger] workspaces_of(node)[i]),
        workspaces_of(node).len() == workspace_count(node),
    decreases node, 0nat,
{
    lemma_workspaces_listed_first(node.nodes@, node.nodes@.len());
}

/// The same of the first `n` of `children`.
pub proof fn lemma_workspaces_listed_first(children: Seq<LayoutNode>, n: nat)
    ensures
        forall|i: int|
            0 <= i < workspaces_of_first(children, n).len() ==> is_listed(
                #[trigger] workspaces_of_first(children, n)[i],
            ),
        workspaces_of_first(children, n).len() == workspace_count_first(children, n),
    decreases children, n,
{
    if n == 0 || n > children.len() {
    } else {
        lemma_workspaces_listed_first(children, (n - 1) as nat);
        lemma_workspaces_listed(children[n - 1]);
    }
}

/// Whether `node` is the hidden workspace's name bearer.
fn has_scratch_name(node: &LayoutNode) -> (r: bool)
    ensures
        r == is_scratch_name(node.name),
{
    match &node.name {
        Some(n) => str_eq(n.as_str(), "__i3_scratch"),
        None => false,
    }
}

/// Finds the workspace that holds the focus, following the focus path from
/// `node` down and never leaving it.
pub fn find_focused_workspace<'a>(node: &'a LayoutNode) -> (r: Option<&'a LayoutNode>)
    ensures
        node_of(r) == focused_workspace(*node),
{
    find_focused_workspace_rec(node, None)
}

/// The walk along the focus path from `node` down, with `work_node` the
/// nearest workspace above `node`.
fn find_focused_workspace_rec<'a>(node: &'a LayoutNode, work_node: Option<&'a LayoutNode>) -> (r:
    Option<&'a LayoutNode>)
    ensures
        node_of(r) == focused_workspace_below(*node, node_of(work_node)),
    decreases node,
{
    let nearest = if node.kind == NodeKind::Workspace {
        Some(node)
    } else {
        work_node
    };
    if node.focused {
        return nearest;
    }
    if node.focus.len() == 0 {
        return None;
    }
    let want = node.focus[0];
    let mut i: usize = 0;
    while i < node.nodes.len() && node.nodes[i].id != want
        invariant
            i <= node.nodes@.len(),
            child_position(node.nodes@, want, 0) == child_position(node.nodes@, want, i as int),
        decreases node.nodes@.len() - i,
    {
        i += 1;
    }
    if i < node.nodes.len() {
        find_focused_workspace_rec(&node.nodes[i], nearest)
    } else {
        None
    }
}

/// Lists every workspace in the tree under `node` but the hidden one, in the
/// order of a walk that visits a node before its children.
pub fn find_workspaces<'a>(node: &'a LayoutNode) -> (r: Vec<&'a LayoutNode>)
    ensures
        nodes_of(r@) == workspaces_of(*node),
        forall|i: int| 0 <= i < r@.len() ==> is_listed(*#[trigger] r@[i]),
        r@.len() == workspace_count(*node),
{
    let mut ws: Vec<&'a LayoutNode> = Vec::new();
    find_workspaces_rec(node, &mut ws);
    proof {
        lemma_workspaces_listed(*node);
        assert(nodes_of(ws@) =~= workspaces_of(*node));
        assert forall|i: int| 0 <= i < ws@.len() implies is_listed(*#[trigger] ws@[i]) by {
            assert(*ws@[i] == nodes_of(ws@)[i]);
        }
    }
    ws
}

/// Adds the listed workspaces at and below `node` to `ws`.
pub fn find_workspaces_rec<'a>(node: &'a LayoutNode, ws: &mut Vec<&'a LayoutNode>)
    ensures
        nodes_of(final(ws)@) == nodes_of(old(ws)@) + workspaces_of(*node),
    decreases node,
{
    let ghost before = nodes_of(ws@);
    if node.kind == NodeKind::Workspace && !has_scratch_name(node) {
        ws.push(node);
    }
    let ghost here = if is_listed(*node) {
        seq![*node]
    } else {
        Seq::empty()
    };
    assert(nodes_of(ws@) =~= before + here);
    let mut i: usize = 0;
    while i < node.nodes.len()
        invariant
            i <= node.nodes@.len(),
            nodes_of(ws@) == before + here + workspaces_of_first(node.nodes@, i as nat),
        decreases node.nodes@.len() - i,
    {
        find_workspaces_rec(&node.nodes[i], ws);
        i += 1;
        assert(nodes_of(ws@) =~= before + here + workspaces_of_first(node.nodes@, i as nat));
    }
    assert(nodes_of(ws@) =~= before + workspaces_of(*node));
}

/// Lists the leaves below `node`, from left to right.
///
/// A node without children has none.
pub fn leaves<'a>(node: &'a LayoutNode) -> (r: Vec<&'a LayoutNode>)
    ensures
        nodes_of(r@) == leaves_of(*node),
        node.nodes@.len() == 0 ==> r@.len() == 0,
        forall|i: int| 0 <= i < r@.len() ==> (#[trigger] r@[i]).nodes@.len() == 0,
    decreases node,
{
    let mut vec: Vec<&'a LayoutNode> = Vec::new();
    let mut i: usize = 0;
    assert(nodes_of(vec@) =~= leaves_of_first(node.nodes@, 0));
    while i < node.nodes.len()
        invariant
            i <= node.nodes@.len(),
            nodes_of(vec@) == leaves_of_first(node.nodes@, i as nat),
            forall|j: int| 0 <= j < vec@.len() ==> (#[trigger] vec@[j]).nodes@.len() == 0,
        decreases node.nodes@.len() - i,
    {
        let n = &node.nodes[i];
        let ghost before = nodes_of(vec@);
        if n.nodes.len() == 0 {
            vec.push(n);
            assert(nodes_of(vec@) =~= before + seq![*n]);
        } else {
            let mut child_leaves = leaves(n);
            let ghost added = nodes_of(child_leaves@);
            vec.append(&mut child_leaves);
            assert(nodes_of(vec@) =~= before + added);
        }
        i += 1;
    }
    vec
}

} // verus!
