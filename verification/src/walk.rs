//! What the pass makes of a tree: the walk from the first node to the last,
//! with the state handed on from each node to the next.

use crate::markup::visited_element;
use crate::module::ModuleItemView;
use crate::rewrite::visited_expr;
use crate::state::{kept, TransformState};
use crate::tree::{root_functions_among, root_functions_in, well_formed, NodeView};
use vstd::prelude::*;

verus! {

/// The walk of one node: the state after it and what has become of it.
/// A function is walked in a scope of its own or in the one that it
/// inherits, and the walk leaves that scope where it entered it; a
/// declaration is recorded; an expression and the opening tag of an element
/// are rewritten; of any other node the children are walked in order.
pub open spec fn visited_node(state: TransformState, node: NodeView) -> (TransformState, NodeView)
    decreases node, 0int,
{
    match node {
        NodeView::Function(children) => {
            let (inside, visited) = visited_nodes(
                state.entered(),
                children,
                children.len() as int,
            );
            (inside.left(state.guard()), NodeView::Function(visited))
        },
        NodeView::Binding(id) => (state.declared(id), node),
        NodeView::Expr(e) => (state, NodeView::Expr(visited_expr(state, e))),
        NodeView::Element(el) => (state, NodeView::Element(visited_element(state, el))),
        NodeView::Other(children) => {
            let (after, visited) = visited_nodes(state, children, children.len() as int);
            (after, NodeView::Other(visited))
        },
    }
}

/// The walk of the first `n` of `nodes`, in order: the state after them and
/// what has become of them.
pub open spec fn visited_nodes(state: TransformState, nodes: Seq<NodeView>, n: int) -> (
    TransformState,
    Seq<NodeView>,
)
    decreases nodes, n,
{
    if n <= 0 || n > nodes.len() {
        (state, Seq::empty())
    } else {
        let (before, done) = visited_nodes(state, nodes, n - 1);
        let (after, visited) = visited_node(before, nodes[n - 1]);
        (after, done.push(visited))
    }
}

/// The walk of one item of a module: an import declaration is read and
/// stays as it is, any other item is walked as the tree that it is.
pub open spec fn visited_item(state: TransformState, item: ModuleItemView) -> (
    TransformState,
    ModuleItemView,
) {
    match item {
        ModuleItemView::Import(decl) => (state.with_import(decl), item),
        ModuleItemView::Other(node) => {
            let (after, visited) = visited_node(state, node);
            (after, ModuleItemView::Other(visited))
        },
    }
}

/// The walk of the first `n` of `items`, in order.
pub open spec fn visited_items(state: TransformState, items: Seq<ModuleItemView>, n: int) -> (
    TransformState,
    Seq<ModuleItemView>,
)
    decreases n,
{
    if n <= 0 || n > items.len() {
        (state, Seq::empty())
    } else {
        let (before, done) = visited_items(state, items, n - 1);
        let (after, visited) = visited_item(before, items[n - 1]);
        (after, done.push(visited))
    }
}

/// The walk of a module: every item is walked in order, then the imports of
/// the module of the pass are dropped. Nothing else is dropped: every other
/// item, an import of any other source among them, stays where it is.
pub open spec fn visited_module(state: TransformState, items: Seq<ModuleItemView>) -> (
    TransformState,
    Seq<ModuleItemView>,
) {
    let (after, visited) = visited_items(state, items, items.len() as int);
    (after, kept(visited))
}

/// Whether every element of the item has a name to go by.
pub open spec fn item_well_formed(item: ModuleItemView) -> bool {
    item matches ModuleItemView::Other(node) ==> well_formed(node)
}

/// Whether every element of the module has a name to go by.
pub open spec fn module_well_formed(items: Seq<ModuleItemView>) -> bool {
    forall|i: int| 0 <= i < items.len() ==> item_well_formed(#[trigger] items[i])
}

/// How many functions of the first `n` of `items` stand outside every other
/// function of them.
pub open spec fn root_functions_in_items(items: Seq<ModuleItemView>, n: int) -> nat
    decreases n,
{
    if n <= 0 || n > items.len() {
        0
    } else {
        root_functions_in_items(items, n - 1) + match items[n - 1] {
            ModuleItemView::Import(_) => 0,
            ModuleItemView::Other(node) => root_functions_in(node),
        }
    }
}

/// The root functions of a part of a list are among those of the whole list.
pub proof fn root_functions_among_grows(nodes: Seq<NodeView>, m: int, n: int)
    requires
        0 <= m <= n <= nodes.len(),
    ensures
        root_functions_among(nodes, m) <= root_functions_among(nodes, n),
    decreases n - m,
{
    if m < n {
        root_functions_among_grows(nodes, m, n - 1);
    }
}

/// The root functions of a part of a module are among those of the whole
/// module.
pub proof fn root_functions_in_items_grows(items: Seq<ModuleItemView>, m: int, n: int)
    requires
        0 <= m <= n <= items.len(),
    ensures
        root_functions_in_items(items, m) <= root_functions_in_items(items, n),
    decreases n - m,
{
    if m < n {
        root_functions_in_items_grows(items, m, n - 1);
    }
}

/// How many scopes a walk opens that starts in `state` and meets
/// `root_functions` functions outside every other function: all of them at
/// the top level of the module, none inside a scope, where every function
/// inherits the scope.
pub open spec fn scopes_opened(state: TransformState, root_functions: nat) -> nat {
    if state.current_scope is Some {
        0
    } else {
        root_functions
    }
}

/// Whether the pass can number the scopes that such a walk opens.
pub open spec fn has_room(state: TransformState, root_functions: nat) -> bool {
    state.scope_counter + scopes_opened(state, root_functions) <= usize::MAX
}

/// What a walk makes of the state that it starts in: it keeps the file, what
/// the imports have declared, and the scope that the pass is in; and it
/// counts the scopes that it has opened.
pub open spec fn follows(after: TransformState, before: TransformState, root_functions: nat)
    -> bool {
    &&& after.file_identity == before.file_identity
    &&& after.tag_binding == before.tag_binding
    &&& after.scope_name_binding == before.scope_name_binding
    &&& after.current_scope == before.current_scope
    &&& after.scope_counter == before.scope_counter + scopes_opened(before, root_functions)
}

/// The walk of a node ends in the scope in which it started, with one more
/// scope counted for every function that it met at the top level of the
/// module and none for any other. The walk of a function ends with the
/// bindings with which it started.
pub proof fn node_walk_follows(state: TransformState, node: NodeView)
    ensures
        follows(visited_node(state, node).0, state, root_functions_in(node)),
        node is Function ==> visited_node(state, node).0.local_bindings == state.local_bindings,
    decreases node, 0int,
{
    match node {
        NodeView::Function(children) => {
            nodes_walk_follows(state.entered(), children, children.len() as int);
        },
        NodeView::Other(children) => {
            nodes_walk_follows(state, children, children.len() as int);
        },
        _ => {},
    }
}

/// The walk of a list of nodes ends in the scope in which it started, with
/// one more scope counted for every function that it met at the top level of
/// the module, and gives as many nodes as it walked.
pub proof fn nodes_walk_follows(state: TransformState, nodes: Seq<NodeView>, n: int)
    requires
        0 <= n <= nodes.len(),
    ensures
        follows(visited_nodes(state, nodes, n).0, state, root_functions_among(nodes, n)),
        visited_nodes(state, nodes, n).1.len() == n,
    decreases nodes, n,
{
    if n > 0 {
        nodes_walk_follows(state, nodes, n - 1);
        node_walk_follows(visited_nodes(state, nodes, n - 1).0, nodes[n - 1]);
    }
}

/// The walk of a list of items keeps the file and the scope, counts the
/// scopes that it has opened, records no binding at the top level of the
/// module, and gives as many items as it walked.
pub proof fn items_walk_follows(state: TransformState, items: Seq<ModuleItemView>, n: int)
    requires
        0 <= n <= items.len(),
    ensures
        visited_items(state, items, n).0.file_identity == state.file_identity,
        visited_items(state, items, n).0.current_scope == state.current_scope,
        state.current_scope is None ==> visited_items(state, items, n).0.local_bindings
            == state.local_bindings,
        visited_items(state, items, n).0.scope_counter == state.scope_counter + scopes_opened(
            state,
            root_functions_in_items(items, n),
        ),
        visited_items(state, items, n).1.len() == n,
    decreases n,
{
    if n > 0 {
        items_walk_follows(state, items, n - 1);
        let before = visited_items(state, items, n - 1).0;
        match items[n - 1] {
            ModuleItemView::Import(decl) => {
                before.specifiers_keep_the_place(decl.specifiers, decl.specifiers.len() as int);
            },
            ModuleItemView::Other(node) => {
                node_walk_follows(before, node);
                if state.current_scope is None {
                    top_level_walk_declares_nothing(before, node);
                }
            },
        }
    }
}

/// At the top level of the module a walk records no binding: what it has
/// declared when it ends is what it had declared when it started.
pub proof fn top_level_walk_declares_nothing(state: TransformState, node: NodeView)
    requires
        state.current_scope is None,
    ensures
        visited_node(state, node).0.local_bindings == state.local_bindings,
    decreases node, 0int,
{
    node_walk_follows(state, node);
    match node {
        NodeView::Other(children) => {
            top_level_walks_declare_nothing(state, children, children.len() as int);
        },
        _ => {},
    }
}

/// At the top level of the module a walk of a list records no binding.
pub proof fn top_level_walks_declare_nothing(state: TransformState, nodes: Seq<NodeView>, n: int)
    requires
        state.current_scope is None,
        0 <= n <= nodes.len(),
    ensures
        visited_nodes(state, nodes, n).0.local_bindings == state.local_bindings,
    decreases nodes, n,
{
    if n > 0 {
        top_level_walks_declare_nothing(state, nodes, n - 1);
        nodes_walk_follows(state, nodes, n - 1);
        top_level_walk_declares_nothing(visited_nodes(state, nodes, n - 1).0, nodes[n - 1]);
    }
}

} // verus!
