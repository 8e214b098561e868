//! What the pass makes of an expression.

use crate::expr::{BinaryOp, ExprView, PropOrSpreadView, TplView};
use crate::state::TransformState;
use crate::utils::bin;
use vstd::prelude::*;

verus! {

/// Whether `e` is a template tagged with the identifier that is bound to the
/// template tag. A tag that is no plain identifier never is.
pub open spec fn is_scoped_template(state: TransformState, e: ExprView) -> bool {
    e matches ExprView::TaggedTpl { tag, .. } && *tag matches ExprView::Ident(id)
        && state.tag_binding == Some(id)
}

/// Whether `e` is a read of the scope name: an identifier that is bound to
/// the scope name and that no local declaration shadows.
pub open spec fn is_scope_name_read(state: TransformState, e: ExprView) -> bool {
    e matches ExprView::Ident(id) && state.scope_name_binding == Some(id)
        && !state.local_bindings.contains(id)
}

/// The scope name followed by one space: what is put before a template.
pub open spec fn template_prefix(state: TransformState) -> Seq<char> {
    state.scope_name() + seq![' ']
}

/// The first rule, on the node `e` alone: a template with the template tag
/// becomes the sum of the scope name, followed by a space, and the template
/// as it is. Anything else stays.
pub open spec fn replaced_template(state: TransformState, e: ExprView) -> ExprView {
    if is_scoped_template(state, e) {
        bin(
            BinaryOp::Add,
            ExprView::Str(template_prefix(state)),
            ExprView::Tpl(e->TaggedTpl_tpl),
        )
    } else {
        e
    }
}

/// The second rule, on the node `e` alone: a read of the scope name becomes
/// the scope name as a string literal. Anything else stays.
pub open spec fn replaced_scope_name(state: TransformState, e: ExprView) -> ExprView {
    if is_scope_name_read(state, e) {
        ExprView::Str(state.scope_name())
    } else {
        e
    }
}

/// Both rules on the node `e` alone. At most one of them applies.
pub open spec fn rewritten(state: TransformState, e: ExprView) -> ExprView {
    replaced_scope_name(state, replaced_template(state, e))
}

/// The expression `e` after the pass: first everything below it, then the
/// node itself, so that what a rule has made is not looked at again.
pub open spec fn visited_expr(state: TransformState, e: ExprView) -> ExprView
    decreases e,
{
    rewritten(
        state,
        match e {
            ExprView::Tpl(tpl) => ExprView::Tpl(visited_tpl(state, tpl)),
            ExprView::TaggedTpl { tag, tpl } => ExprView::TaggedTpl {
                tag: Box::new(visited_expr(state, *tag)),
                tpl: visited_tpl(state, tpl),
            },
            ExprView::Bin { op, left, right } => ExprView::Bin {
                op,
                left: Box::new(visited_expr(state, *left)),
                right: Box::new(visited_expr(state, *right)),
            },
            ExprView::Member { obj, prop } => ExprView::Member {
                obj: Box::new(visited_expr(state, *obj)),
                prop,
            },
            ExprView::Object(props) => ExprView::Object(
                Seq::new(
                    props.len(),
                    |i: int|
                        if 0 <= i < props.len() {
                            visited_prop(state, props[i])
                        } else {
                            arbitrary()
                        },
                ),
            ),
            other => other,
        },
    )
}

/// The template literal `tpl` after the pass: its interpolated expressions
/// are visited, its text is not touched.
pub open spec fn visited_tpl(state: TransformState, tpl: TplView) -> TplView
    decreases tpl,
{
    TplView {
        quasis: tpl.quasis,
        exprs: Seq::new(
            tpl.exprs.len(),
            |i: int|
                if 0 <= i < tpl.exprs.len() {
                    visited_expr(state, tpl.exprs[i])
                } else {
                    arbitrary()
                },
        ),
    }
}

/// The object-literal member `p` after the pass: the expression that it
/// spreads or holds is visited.
pub open spec fn visited_prop(state: TransformState, p: PropOrSpreadView) -> PropOrSpreadView
    decreases p,
{
    match p {
        PropOrSpreadView::Spread(e) => PropOrSpreadView::Spread(visited_expr(state, e)),
        PropOrSpreadView::KeyValue { key, value } => PropOrSpreadView::KeyValue {
            key,
            value: visited_expr(state, value),
        },
        other => other,
    }
}

/// Whether the pass finds anything to rewrite in `e`: a template with the
/// template tag or a read of the scope name, at `e` itself or below it.
pub open spec fn mentions(state: TransformState, e: ExprView) -> bool
    decreases e,
{
    ||| is_scoped_template(state, e)
    ||| is_scope_name_read(state, e)
    ||| match e {
        ExprView::Tpl(tpl) => tpl_mentions(state, tpl),
        ExprView::TaggedTpl { tag, tpl } => mentions(state, *tag) || tpl_mentions(state, tpl),
        ExprView::Bin { left, right, .. } => mentions(state, *left) || mentions(state, *right),
        ExprView::Member { obj, .. } => mentions(state, *obj),
        ExprView::Object(props) => exists|i: int|
            0 <= i < props.len() && prop_mentions(state, #[trigger] props[i]),
        _ => false,
    }
}

/// Whether the pass finds anything to rewrite in the expressions of `tpl`.
pub open spec fn tpl_mentions(state: TransformState, tpl: TplView) -> bool
    decreases tpl,
{
    exists|i: int| 0 <= i < tpl.exprs.len() && mentions(state, #[trigger] tpl.exprs[i])
}

/// Whether the pass finds anything to rewrite in the expression of `p`.
pub open spec fn prop_mentions(state: TransformState, p: PropOrSpreadView) -> bool
    decreases p,
{
    match p {
        PropOrSpreadView::Spread(e) => mentions(state, e),
        PropOrSpreadView::KeyValue { value, .. } => mentions(state, value),
        _ => false,
    }
}

} // verus!
