//! What the pass makes of the opening tag of a markup element.

use crate::class_name::{merged, scan, Scan, CLASS_NAME};
use crate::expr::{BinaryOp, ExprView};
use crate::jsx::{JSXAttrNameView, JSXAttrOrSpreadView, JSXAttrValueView, JSXElementNameView};
use crate::jsx::JSXOpeningElementView;
use crate::rewrite::visited_expr;
use crate::state::TransformState;
use crate::utils::{bin, capitalized};
use vstd::prelude::*;

verus! {

/// The one tag that never gets a class name.
pub const EXEMPT_TAG: &'static str = "style";

/// Whether an element of this name is a plain element rather than a
/// component: its name is an identifier other than [`EXEMPT_TAG`] that
/// either starts in lower case or is bound by a local declaration, which no
/// component is.
pub open spec fn is_intrinsic(state: TransformState, name: JSXElementNameView) -> bool {
    name matches JSXElementNameView::Ident(id) && id.sym != EXEMPT_TAG@ && (!capitalized(id.sym)
        || state.local_bindings.contains(id))
}

/// The class name that an element gets: the scope name alone, or the scope
/// name, a space and the class name that the element already declares.
pub open spec fn new_class_name(state: TransformState, found: Scan) -> ExprView {
    let scope = ExprView::Str(state.scope_name());
    match merged(found) {
        Some(existing) => bin(
            BinaryOp::Add,
            bin(BinaryOp::Add, scope, ExprView::Str(seq![' '])),
            existing,
        ),
        None => scope,
    }
}

/// The attribute `className={value}`.
pub open spec fn class_name_attr(value: ExprView) -> JSXAttrOrSpreadView {
    JSXAttrOrSpreadView::JSXAttr {
        name: JSXAttrNameView::Ident(CLASS_NAME@),
        value: Some(JSXAttrValueView::Expr(value)),
    }
}

/// `attrs` without the entry at `index`, if there is an index.
pub open spec fn without(attrs: Seq<JSXAttrOrSpreadView>, index: Option<int>) -> Seq<
    JSXAttrOrSpreadView,
> {
    match index {
        Some(i) => attrs.remove(i),
        None => attrs,
    }
}

/// What is done to the opening tag of a plain element.
pub struct ClassNameInjectionView {
    /// The value of the class-name attribute that the tag gets.
    pub class_name: ExprView,
    /// Where the spread stands that the new attribute stands for, if any.
    pub spread_index: Option<int>,
    /// Where the class-name attribute stands that the new one replaces, if
    /// any.
    pub attr_index: Option<int>,
}

/// What is done to the opening tag `el`: something if it is the tag of a
/// plain element, nothing if it is the tag of a component.
pub open spec fn injection(state: TransformState, el: JSXOpeningElementView) -> Option<
    ClassNameInjectionView,
> {
    if is_intrinsic(state, el.name) {
        let found = scan(el.attrs, el.attrs.len() as int);
        Some(
            ClassNameInjectionView {
                class_name: new_class_name(state, found),
                spread_index: found.spread_index,
                attr_index: found.attr_index,
            },
        )
    } else {
        None
    }
}

/// The opening tag `el` with its class name injected, where it is the tag of
/// a plain element: the new class-name attribute is added at the end, and
/// the entries that it stands for are taken out. The tag of a component stays
/// as it is.
pub open spec fn injected(state: TransformState, el: JSXOpeningElementView)
    -> JSXOpeningElementView {
    match injection(state, el) {
        Some(plan) => {
            let added = el.attrs.push(class_name_attr(plan.class_name));
            JSXOpeningElementView {
                attrs: without(without(added, plan.spread_index), plan.attr_index),
                ..el
            }
        },
        None => el,
    }
}

/// The attribute `attr` after the pass: the expression that it holds or
/// spreads is visited.
pub open spec fn visited_attr(state: TransformState, attr: JSXAttrOrSpreadView)
    -> JSXAttrOrSpreadView {
    match attr {
        JSXAttrOrSpreadView::JSXAttr { name, value: Some(JSXAttrValueView::Expr(e)) } => {
            JSXAttrOrSpreadView::JSXAttr {
                name,
                value: Some(JSXAttrValueView::Expr(visited_expr(state, e))),
            }
        },
        JSXAttrOrSpreadView::SpreadElement(e) => JSXAttrOrSpreadView::SpreadElement(
            visited_expr(state, e),
        ),
        other => other,
    }
}

/// The opening tag `el` after the pass: first its attributes, then the tag
/// itself.
pub open spec fn visited_element(state: TransformState, el: JSXOpeningElementView)
    -> JSXOpeningElementView {
    injected(
        state,
        JSXOpeningElementView {
            attrs: Seq::new(el.attrs.len(), |i: int| visited_attr(state, el.attrs[i])),
            ..el
        },
    )
}

} // verus!
