//! The tree of a program, as far as the pass looks at it.

use crate::expr::{Expr, ExprView};
use crate::ident::{BindingId, Ident};
use crate::jsx::{JSXElementNameView, JSXOpeningElement, JSXOpeningElementView};
use vstd::prelude::*;

verus! {

/// A node of a program's tree. A front end hands the pass the nodes that the
/// pass acts on, each as the kind that it is, and everything else as
/// [`Node::Other`] with what lies below it.
#[derive(Debug, PartialEq, Eq)]
pub enum Node {
    /// A function declaration or an arrow function, with its parameters and
    /// its body: a boundary of scopes.
    Function(Vec<Node>),
    /// The declaration of a binding: a parameter, a declared variable, an
    /// element of a destructuring pattern.
    Binding(Ident),
    /// An expression that the pass may rewrite.
    Expr(Expr),
    /// The opening tag of a markup element.
    Element(JSXOpeningElement),
    /// Any other node, with its children in source order.
    Other(Vec<Node>),
}

/// The mathematical value of a [`Node`].
pub enum NodeView {
    Function(Seq<NodeView>),
    Binding(BindingId),
    Expr(ExprView),
    Element(JSXOpeningElementView),
    Other(Seq<NodeView>),
}

pub open spec fn node_view(node: &Node) -> NodeView
    decreases node,
{
    match node {
        Node::Function(children) => NodeView::Function(
            Seq::new(
                children.len() as nat,
                |i: int|
                    if 0 <= i < children.len() {
                        node_view(&children[i])
                    } else {
                        arbitrary()
                    },
            ),
        ),
        Node::Binding(id) => NodeView::Binding(id@),
        Node::Expr(e) => NodeView::Expr(e@),
        Node::Element(el) => NodeView::Element(el@),
        Node::Other(children) => NodeView::Other(
            Seq::new(
                children.len() as nat,
                |i: int|
                    if 0 <= i < children.len() {
                        node_view(&children[i])
                    } else {
                        arbitrary()
                    },
            ),
        ),
    }
}

impl View for Node {
    type V = NodeView;

    open spec fn view(&self) -> NodeView {
        node_view(self)
    }
}

/// The values of a list of nodes.
pub open spec fn nodes_view(nodes: &Vec<Node>) -> Seq<NodeView> {
    Seq::new(nodes.len() as nat, |i: int| nodes[i]@)
}

/// Whether the opening tag of an element has a name to go by: a name that is
/// an identifier is not empty.
pub open spec fn is_named(el: JSXOpeningElementView) -> bool {
    el.name matches JSXElementNameView::Ident(id) ==> id.sym.len() > 0
}

/// Whether every element of the tree has a name to go by.
pub open spec fn well_formed(node: NodeView) -> bool
    decreases node,
{
    match node {
        NodeView::Function(children) => forall|i: int|
            0 <= i < children.len() ==> well_formed(#[trigger] children[i]),
        NodeView::Other(children) => forall|i: int|
            0 <= i < children.len() ==> well_formed(#[trigger] children[i]),
        NodeView::Element(el) => is_named(el),
        _ => true,
    }
}

/// Whether every element of every tree of the list has a name to go by.
pub open spec fn all_well_formed(nodes: Seq<NodeView>) -> bool {
    forall|i: int| 0 <= i < nodes.len() ==> well_formed(#[trigger] nodes[i])
}

/// How many functions of the tree stand outside every other function of it:
/// these are the functions for which a walk that starts at the top level of
/// the module opens a scope.
pub open spec fn root_functions_in(node: NodeView) -> nat
    decreases node, 0int,
{
    match node {
        NodeView::Function(_) => 1,
        NodeView::Other(children) => root_functions_among(children, children.len() as int),
        _ => 0,
    }
}

/// How many functions of the first `n` of `nodes` stand outside every other
/// function of them.
pub open spec fn root_functions_among(nodes: Seq<NodeView>, n: int) -> nat
    decreases nodes, n,
{
    if n <= 0 || n > nodes.len() {
        0
    } else {
        root_functions_among(nodes, n - 1) + root_functions_in(nodes[n - 1])
    }
}

} // verus!
