//! What holds of the pass as a whole.

use crate::class_name::{contribution, scan, scan_points_into_the_list, Contribution};
use crate::expr::{BinaryOp, ExprView, PropOrSpreadView, TplView};
use crate::jsx::{JSXAttrOrSpreadView, JSXAttrValueView, JSXElementNameView};
use crate::jsx::JSXOpeningElementView;
use crate::markup::{class_name_attr, injected, is_intrinsic, visited_attr, visited_element};
use crate::markup::EXEMPT_TAG;
use crate::module::{ImportDeclView, ModuleItemView};
use crate::rewrite::{mentions, prop_mentions};
use crate::rewrite::{replaced_template, rewritten, template_prefix, tpl_mentions};
use crate::rewrite::{visited_expr, visited_prop, visited_tpl};
use crate::scope_name::{decimal, digit, is_scope_char, sanitized, scope_name, MARKER};
use crate::state::{is_kept, is_the_import, kept};
use crate::state::{TransformState, IMPORT_NAME};
use crate::tree::NodeView;
use crate::utils::{bin, capitalized};
use crate::walk::{items_walk_follows, node_walk_follows, nodes_walk_follows, visited_item};
use crate::walk::{visited_items, visited_module, visited_node, visited_nodes};
use vstd::prelude::*;

verus! {

/// The number that a digit stands for.
pub open spec fn digit_value(c: char) -> nat {
    if c == '1' {
        1
    } else if c == '2' {
        2
    } else if c == '3' {
        3
    } else if c == '4' {
        4
    } else if c == '5' {
        5
    } else if c == '6' {
        6
    } else if c == '7' {
        7
    } else if c == '8' {
        8
    } else if c == '9' {
        9
    } else {
        0
    }
}

/// The number that a string of digits stands for.
pub open spec fn decimal_value(s: Seq<char>) -> nat
    decreases s.len(),
{
    if s.len() == 0 {
        0
    } else {
        decimal_value(s.drop_last()) * 10 + digit_value(s.last())
    }
}

/// Reading a number back from its decimal form gives the number.
pub proof fn decimal_reads_back(n: nat)
    ensures
        decimal_value(decimal(n)) == n,
    decreases n,
{
    if n < 10 {
        assert(decimal(n).drop_last() =~= Seq::<char>::empty());
        assert(decimal_value(decimal(n).drop_last()) == 0);
        assert(decimal(n).last() == digit(n));
    } else {
        decimal_reads_back(n / 10);
        assert(decimal(n).drop_last() =~= decimal(n / 10));
        assert(decimal(n).last() == digit(n % 10));
    }
}

/// The marker is the one letter `\u{df}`.
pub proof fn marker_is_one_letter()
    ensures
        MARKER@ == seq!['\u{df}'],
{
    reveal_strlit("\u{df}");
    assert(MARKER@ =~= seq!['\u{df}']);
}

/// A sanitized file identity is as long as the file identity and holds
/// nothing but ASCII letters, ASCII digits, `_` and `-`; and it keeps every
/// character of the file identity that is one of these.
pub proof fn sanitized_is_safe(file_identity: Seq<char>, i: int)
    requires
        0 <= i < file_identity.len(),
    ensures
        sanitized(file_identity).len() == file_identity.len(),
        is_scope_char(sanitized(file_identity)[i]),
        is_scope_char(file_identity[i]) ==> sanitized(file_identity)[i] == file_identity[i],
        !is_scope_char(file_identity[i]) ==> sanitized(file_identity)[i] == '_',
{
}

/// Sanitizing what is sanitized changes nothing.
pub proof fn sanitizing_twice_is_sanitizing_once(file_identity: Seq<char>)
    ensures
        sanitized(sanitized(file_identity)) == sanitized(file_identity),
{
    assert(sanitized(sanitized(file_identity)) =~= sanitized(file_identity));
}

/// Whether the scope that the pass is in is one that it has opened: scopes
/// are numbered from 1, in the order in which they are opened.
pub open spec fn well_numbered(state: TransformState) -> bool {
    state.current_scope matches Some(id) ==> 1 <= id <= state.scope_counter
}

/// Every step of the pass keeps the scopes well numbered, from the state in
/// which the pass starts.
pub proof fn steps_keep_the_scopes_well_numbered(
    state: TransformState,
    guard: crate::state::ScopeGuardView,
    id: crate::ident::BindingId,
    decl: ImportDeclView,
)
    requires
        well_numbered(state),
    ensures
        well_numbered(TransformState::initial(state.file_identity)),
        well_numbered(state.entered()),
        well_numbered(state.left(guard)),
        well_numbered(state.declared(id)),
        well_numbered(state.with_import(decl)),
{
    state.specifiers_keep_the_place(decl.specifiers, decl.specifiers.len() as int);
}

/// The scope name is a function of the file identity and the scope id:
/// the same two always give the same name.
pub proof fn scope_name_is_stable(
    file_identity: Seq<char>,
    scope_id: nat,
    other_identity: Seq<char>,
    other_id: nat,
)
    requires
        file_identity == other_identity,
        scope_id == other_id,
    ensures
        scope_name(file_identity, scope_id) == scope_name(other_identity, other_id),
{
}

/// Two scopes of one file never share a name.
pub proof fn scope_names_are_distinct(file_identity: Seq<char>, scope_id: nat, other_id: nat)
    requires
        scope_name(file_identity, scope_id) == scope_name(file_identity, other_id),
    ensures
        scope_id == other_id,
{
    let head = MARKER@ + seq!['-'] + sanitized(file_identity) + seq!['-'];
    let one = scope_name(file_identity, scope_id);
    let other = scope_name(file_identity, other_id);
    assert(one.subrange(head.len() as int, one.len() as int) =~= decimal(scope_id));
    assert(other.subrange(head.len() as int, other.len() as int) =~= decimal(other_id));
    decimal_reads_back(scope_id);
    decimal_reads_back(other_id);
}

/// At the top level of the module the scope id is 0, and the functions met
/// there are numbered in the order in which they are met: whatever the pass
/// does inside the first without opening a scope, the first gets the next
/// id and the one after it the id after that.
pub proof fn root_functions_are_numbered_in_order(state: TransformState, inside: TransformState)
    requires
        state.current_scope is None,
        inside.scope_counter == state.entered().scope_counter,
        inside.current_scope == state.entered().current_scope,
    ensures
        state.scope_id() == 0,
        state.entered().scope_id() == state.scope_counter + 1,
        inside.left(state.guard()).scope_id() == 0,
        inside.left(state.guard()).entered().scope_id() == state.scope_counter + 2,
{
}

/// A pass starts at the top level of the module, and the first function
/// that it meets gets the id 1.
pub proof fn first_scope_is_one(file_identity: Seq<char>)
    ensures
        TransformState::initial(file_identity).scope_id() == 0,
        TransformState::initial(file_identity).entered().scope_id() == 1,
{
}

/// A function inside a scope inherits it: entering it opens no scope, the
/// scope name stays the same, so a template inside it gets the prefix of
/// the enclosing function; and leaving it leaves the pass in that scope.
pub proof fn nested_function_inherits_scope(state: TransformState, e: ExprView)
    requires
        state.current_scope is Some,
    ensures
        state.entered().scope_counter == state.scope_counter,
        state.entered().current_scope == state.current_scope,
        state.entered().scope_name() == state.scope_name(),
        replaced_template(state.entered(), e) == replaced_template(state, e),
        state.entered().left(state.guard()) == state,
{
    assert(template_prefix(state.entered()) == template_prefix(state));
    assert(state.entered().left(state.guard()).local_bindings == state.local_bindings);
}

/// Entering a function and leaving it again restores the scope and the
/// bindings of the surrounding code, whatever was declared in between.
pub proof fn leaving_restores_the_surrounding_scope(state: TransformState, inside: TransformState)
    requires
        inside.current_scope == state.entered().current_scope,
    ensures
        inside.left(state.guard()).current_scope == state.current_scope,
        inside.left(state.guard()).local_bindings == state.local_bindings,
{
}

/// A declaration shadows the scope name: once the innermost scope has
/// declared the binding, a read of it is no read of the scope name and stays
/// as it is.
pub proof fn shadowed_scope_name_stays(state: TransformState, e: ExprView)
    requires
        e matches ExprView::Ident(id) && state.local_bindings.contains(id),
    ensures
        rewritten(state, e) == e,
        visited_expr(state, e) == e,
{
}

/// An identifier with the symbol of the scope name but another binding is
/// no read of the scope name.
pub proof fn other_binding_stays(state: TransformState, e: ExprView)
    requires
        e matches ExprView::Ident(id) && state.scope_name_binding != Some(id),
    ensures
        visited_expr(state, e) == e,
{
}

/// While no import has declared the template tag or the scope name, no
/// expression mentions either.
pub proof fn nothing_to_mention_without_bindings(state: TransformState, e: ExprView)
    requires
        state.tag_binding is None,
        state.scope_name_binding is None,
    ensures
        !mentions(state, e),
    decreases e,
{
    match e {
        ExprView::Tpl(tpl) => {
            nothing_to_mention_without_bindings_tpl(state, tpl);
        },
        ExprView::TaggedTpl { tag, tpl } => {
            nothing_to_mention_without_bindings(state, *tag);
            nothing_to_mention_without_bindings_tpl(state, tpl);
        },
        ExprView::Bin { left, right, .. } => {
            nothing_to_mention_without_bindings(state, *left);
            nothing_to_mention_without_bindings(state, *right);
        },
        ExprView::Member { obj, .. } => {
            nothing_to_mention_without_bindings(state, *obj);
        },
        ExprView::Object(props) => {
            assert forall|i: int| 0 <= i < props.len() implies !prop_mentions(
                state,
                #[trigger] props[i],
            ) by {
                nothing_to_mention_without_bindings_prop(state, props[i]);
            }
        },
        _ => {},
    }
}

proof fn nothing_to_mention_without_bindings_tpl(state: TransformState, tpl: TplView)
    requires
        state.tag_binding is None,
        state.scope_name_binding is None,
    ensures
        !tpl_mentions(state, tpl),
    decreases tpl,
{
    assert forall|i: int| 0 <= i < tpl.exprs.len() implies !mentions(
        state,
        #[trigger] tpl.exprs[i],
    ) by {
        nothing_to_mention_without_bindings(state, tpl.exprs[i]);
    }
}

proof fn nothing_to_mention_without_bindings_prop(state: TransformState, p: PropOrSpreadView)
    requires
        state.tag_binding is None,
        state.scope_name_binding is None,
    ensures
        !prop_mentions(state, p),
    decreases p,
{
    match p {
        PropOrSpreadView::Spread(e) => {
            nothing_to_mention_without_bindings(state, e);
        },
        PropOrSpreadView::KeyValue { value, .. } => {
            nothing_to_mention_without_bindings(state, value);
        },
        _ => {},
    }
}

/// The pass leaves an expression as it is if the expression mentions
/// neither the template tag nor the scope name.
pub proof fn unmentioned_expression_stays(state: TransformState, e: ExprView)
    requires
        !mentions(state, e),
    ensures
        visited_expr(state, e) == e,
    decreases e,
{
    match e {
        ExprView::Tpl(tpl) => {
            unmentioned_tpl_stays(state, tpl);
        },
        ExprView::TaggedTpl { tag, tpl } => {
            unmentioned_expression_stays(state, *tag);
            unmentioned_tpl_stays(state, tpl);
        },
        ExprView::Bin { left, right, .. } => {
            unmentioned_expression_stays(state, *left);
            unmentioned_expression_stays(state, *right);
        },
        ExprView::Member { obj, .. } => {
            unmentioned_expression_stays(state, *obj);
        },
        ExprView::Object(props) => {
            assert forall|i: int| 0 <= i < props.len() implies visited_prop(state, props[i])
                == props[i] by {
                assert(!prop_mentions(state, props[i]));
                unmentioned_prop_stays(state, props[i]);
            }
            assert(visited_expr(state, e)->Object_0 =~= props);
        },
        _ => {},
    }
}

proof fn unmentioned_tpl_stays(state: TransformState, tpl: TplView)
    requires
        !tpl_mentions(state, tpl),
    ensures
        visited_tpl(state, tpl) == tpl,
    decreases tpl,
{
    assert forall|i: int| 0 <= i < tpl.exprs.len() implies visited_expr(state, tpl.exprs[i])
        == tpl.exprs[i] by {
        assert(!mentions(state, tpl.exprs[i]));
        unmentioned_expression_stays(state, tpl.exprs[i]);
    }
    assert(visited_tpl(state, tpl).exprs =~= tpl.exprs);
}

proof fn unmentioned_prop_stays(state: TransformState, p: PropOrSpreadView)
    requires
        !prop_mentions(state, p),
    ensures
        visited_prop(state, p) == p,
    decreases p,
{
    match p {
        PropOrSpreadView::Spread(e) => {
            unmentioned_expression_stays(state, e);
        },
        PropOrSpreadView::KeyValue { value, .. } => {
            unmentioned_expression_stays(state, value);
        },
        _ => {},
    }
}

/// What the pass has made of an expression mentions neither the template
/// tag nor the scope name any more.
pub proof fn visited_expression_mentions_nothing(state: TransformState, e: ExprView)
    ensures
        !mentions(state, visited_expr(state, e)),
    decreases e,
{
    match e {
        ExprView::Tpl(tpl) => {
            visited_tpl_mentions_nothing(state, tpl);
        },
        ExprView::TaggedTpl { tag, tpl } => {
            visited_expression_mentions_nothing(state, *tag);
            visited_tpl_mentions_nothing(state, tpl);
            assert(!mentions(state, ExprView::Str(template_prefix(state))));
            assert(!mentions(state, ExprView::Tpl(visited_tpl(state, tpl))));
        },
        ExprView::Bin { left, right, .. } => {
            visited_expression_mentions_nothing(state, *left);
            visited_expression_mentions_nothing(state, *right);
        },
        ExprView::Member { obj, .. } => {
            visited_expression_mentions_nothing(state, *obj);
        },
        ExprView::Object(props) => {
            let visited = visited_expr(state, e)->Object_0;
            assert forall|i: int| 0 <= i < visited.len() implies !prop_mentions(
                state,
                #[trigger] visited[i],
            ) by {
                visited_prop_mentions_nothing(state, props[i]);
            }
        },
        _ => {},
    }
}

proof fn visited_tpl_mentions_nothing(state: TransformState, tpl: TplView)
    ensures
        !tpl_mentions(state, visited_tpl(state, tpl)),
    decreases tpl,
{
    let visited = visited_tpl(state, tpl).exprs;
    assert forall|i: int| 0 <= i < visited.len() implies !mentions(state, #[trigger] visited[i]) by {
        visited_expression_mentions_nothing(state, tpl.exprs[i]);
    }
}

proof fn visited_prop_mentions_nothing(state: TransformState, p: PropOrSpreadView)
    ensures
        !prop_mentions(state, visited_prop(state, p)),
    decreases p,
{
    match p {
        PropOrSpreadView::Spread(e) => {
            visited_expression_mentions_nothing(state, e);
        },
        PropOrSpreadView::KeyValue { value, .. } => {
            visited_expression_mentions_nothing(state, value);
        },
        _ => {},
    }
}

/// Visiting an expression a second time changes nothing: what a rule has
/// made is not rewritten again.
pub proof fn visiting_twice_is_visiting_once(state: TransformState, e: ExprView)
    ensures
        visited_expr(state, visited_expr(state, e)) == visited_expr(state, e),
{
    visited_expression_mentions_nothing(state, e);
    unmentioned_expression_stays(state, visited_expr(state, e));
}

/// The tag of a component gets no class name: an element whose name is
/// capitalized and not bound by a local declaration stays as it is.
pub proof fn component_gets_no_class_name(state: TransformState, el: JSXOpeningElementView)
    ensures
        (el.name matches JSXElementNameView::Ident(id) && capitalized(id.sym)
            && !state.local_bindings.contains(id)) ==> !is_intrinsic(state, el.name) && injected(
            state,
            el,
        ) == el,
        !(el.name is Ident) ==> injected(state, el) == el,
{
}

/// A name that starts with an ASCII character other than a capital letter
/// is the name of a plain element, unless it is the exempt tag: `div` is.
pub proof fn lower_case_name_is_plain(state: TransformState, id: crate::ident::BindingId)
    requires
        id.sym.len() > 0,
        id.sym[0] <= '\u{7f}',
        !('A' <= id.sym[0] && id.sym[0] <= 'Z'),
        id.sym != EXEMPT_TAG@,
    ensures
        !capitalized(id.sym),
        is_intrinsic(state, JSXElementNameView::Ident(id)),
{
}

/// A name that starts with an ASCII capital letter is the name of a
/// component unless a local declaration binds it: `Foo` is, and the opening
/// tag of such an element stays as it is.
pub proof fn capital_name_is_a_component(
    state: TransformState,
    el: JSXOpeningElementView,
    id: crate::ident::BindingId,
)
    requires
        el.name == JSXElementNameView::Ident(id),
        id.sym.len() > 0,
        'A' <= id.sym[0] && id.sym[0] <= 'Z',
        !state.local_bindings.contains(id),
    ensures
        capitalized(id.sym),
        !is_intrinsic(state, el.name),
        injected(state, el) == el,
{
}

/// The tag of a plain element always ends with its new class-name attribute,
/// and no other entry is added to it.
pub proof fn plain_element_gets_one_class_name(state: TransformState, el: JSXOpeningElementView)
    requires
        is_intrinsic(state, el.name),
    ensures
        injected(state, el).attrs.len() >= 1,
        injected(state, el).attrs.len() <= el.attrs.len() + 1,
        injected(state, el).attrs.last() matches JSXAttrOrSpreadView::JSXAttr {
            value: Some(JSXAttrValueView::Expr(_)),
            ..
        },
        injected(state, el).name == el.name,
{
    scan_points_into_the_list(el.attrs, el.attrs.len() as int);
}

/// A scan passes over the entries that cannot set the class name: what it
/// finds in a list is what it finds in the list without such entries at its
/// end.
pub proof fn scan_passes_over_nothing(attrs: Seq<JSXAttrOrSpreadView>, m: int, n: int)
    requires
        0 <= m <= n <= attrs.len(),
        forall|i: int| m <= i < n ==> contribution(#[trigger] attrs[i]) is Nothing,
    ensures
        scan(attrs, n) == scan(attrs, m),
    decreases n - m,
{
    if m < n {
        assert(contribution(attrs[n - 1]) is Nothing);
        scan_passes_over_nothing(attrs, m, n - 1);
    }
}

/// Only what the new class name stands for leaves the attribute list: the
/// class-name attribute that decided the scan, or the spread of an object
/// literal that holds the class name and nothing else. An opaque spread, and
/// every other entry, stays.
pub proof fn only_what_is_stood_for_leaves(attrs: Seq<JSXAttrOrSpreadView>, n: int)
    requires
        0 <= n <= attrs.len(),
    ensures
        scan(attrs, n).attr_index matches Some(i) ==> contribution(attrs[i]) is Direct,
        scan(attrs, n).spread_index matches Some(i) ==> (contribution(attrs[i])
            matches Contribution::Resolved { sole, .. } && sole),
    decreases n,
{
    if n > 0 {
        only_what_is_stood_for_leaves(attrs, n - 1);
    }
}

/// A plain element that says nothing about its class name gains the scope
/// name as its class name, and keeps every attribute that it has.
pub proof fn element_without_class_gains_the_scope_name(
    state: TransformState,
    el: JSXOpeningElementView,
)
    requires
        is_intrinsic(state, el.name),
        forall|i: int| 0 <= i < el.attrs.len() ==> contribution(#[trigger] el.attrs[i]) is Nothing,
    ensures
        injected(state, el).attrs == el.attrs.push(
            class_name_attr(ExprView::Str(state.scope_name())),
        ),
{
    scan_passes_over_nothing(el.attrs, 0, el.attrs.len() as int);
}

/// A plain element whose class name is a string literal gets the scope
/// name, a space and that literal as its class name; the attribute with the
/// literal leaves, and the new one comes at the end.
pub proof fn literal_class_is_kept_behind_the_scope_name(
    state: TransformState,
    el: JSXOpeningElementView,
    at: int,
    class: Seq<char>,
)
    requires
        is_intrinsic(state, el.name),
        0 <= at < el.attrs.len(),
        contribution(el.attrs[at]) == Contribution::Direct(Some(ExprView::Str(class))),
        forall|i: int| at < i < el.attrs.len() ==> contribution(#[trigger] el.attrs[i]) is Nothing,
    ensures
        injected(state, el).attrs == el.attrs.push(
            class_name_attr(
                bin(
                    BinaryOp::Add,
                    bin(
                        BinaryOp::Add,
                        ExprView::Str(state.scope_name()),
                        ExprView::Str(seq![' ']),
                    ),
                    ExprView::Str(class),
                ),
            ),
        ).remove(at),
{
    scan_passes_over_nothing(el.attrs, at + 1, el.attrs.len() as int);
}

/// An opaque spread stays where it is, and the class name that it may set
/// at run time is asked for in the new class name: where the last entry that
/// says anything about the class name is an opaque spread, and nothing
/// before it says anything, the new class name is the scope name, a space,
/// and the guarded class name of the spread or else the empty string.
pub proof fn opaque_spread_is_asked_at_run_time(
    state: TransformState,
    el: JSXOpeningElementView,
    at: int,
    target: ExprView,
)
    requires
        is_intrinsic(state, el.name),
        0 <= at < el.attrs.len(),
        contribution(el.attrs[at]) == Contribution::Opaque(target),
        forall|i: int|
            0 <= i < el.attrs.len() && i != at ==> contribution(#[trigger] el.attrs[i]) is Nothing,
    ensures
        injected(state, el).attrs == el.attrs.push(
            class_name_attr(
                bin(
                    BinaryOp::Add,
                    bin(
                        BinaryOp::Add,
                        ExprView::Str(state.scope_name()),
                        ExprView::Str(seq![' ']),
                    ),
                    bin(
                        BinaryOp::LogicalOr,
                        crate::class_name::guarded(target),
                        crate::class_name::empty_string(),
                    ),
                ),
            ),
        ),
{
    scan_passes_over_nothing(el.attrs, at + 1, el.attrs.len() as int);
    scan_passes_over_nothing(el.attrs, 0, at);
    let found = scan(el.attrs, at + 1);
    assert(found.spreads =~= seq![crate::class_name::guarded(target)]);
    reveal_with_fuel(crate::class_name::rendered, 2);
    reveal_with_fuel(crate::class_name::or_chain, 2);
}

/// An import of another module is none of the pass's business, whatever its
/// source is, the empty one too: it changes neither the state nor the
/// declaration, and it stays in its statement list.
pub proof fn other_import_stays(state: TransformState, decl: ImportDeclView)
    requires
        decl.src != IMPORT_NAME@,
    ensures
        state.with_import(decl) == state,
        visited_item(state, ModuleItemView::Import(decl)) == (state, ModuleItemView::Import(decl)),
        is_kept(ModuleItemView::Import(decl)),
{
}

/// The tag of a component stays as it is where none of its attributes
/// mentions the template tag or the scope name.
pub proof fn component_without_mentions_stays(state: TransformState, el: JSXOpeningElementView)
    requires
        !is_intrinsic(state, el.name),
        forall|i: int|
            0 <= i < el.attrs.len() ==> match #[trigger] el.attrs[i] {
                JSXAttrOrSpreadView::JSXAttr { value: Some(JSXAttrValueView::Expr(e)), .. } => {
                    !mentions(state, e)
                },
                JSXAttrOrSpreadView::SpreadElement(e) => !mentions(state, e),
                _ => true,
            },
    ensures
        visited_element(state, el) == el,
{
    assert forall|i: int| 0 <= i < el.attrs.len() implies visited_attr(state, el.attrs[i])
        == el.attrs[i] by {
        match el.attrs[i] {
            JSXAttrOrSpreadView::JSXAttr { value: Some(JSXAttrValueView::Expr(e)), .. } => {
                unmentioned_expression_stays(state, e);
            },
            JSXAttrOrSpreadView::SpreadElement(e) => {
                unmentioned_expression_stays(state, e);
            },
            _ => {},
        }
    }
    assert(Seq::new(el.attrs.len(), |i: int| visited_attr(state, el.attrs[i])) =~= el.attrs);
}

/// Inside a scope the walk of a node opens no scope: it ends with the scope
/// and the scope name with which it started, whatever functions the node
/// holds.
pub proof fn inside_a_scope_a_node_keeps_it(state: TransformState, node: NodeView)
    requires
        state.current_scope is Some,
    ensures
        visited_node(state, node).0.current_scope == state.current_scope,
        visited_node(state, node).0.scope_counter == state.scope_counter,
        visited_node(state, node).0.scope_name() == state.scope_name(),
{
    node_walk_follows(state, node);
}

/// Inside a scope the walk of a list of nodes opens no scope: every node of
/// the list, and so every template in it, is met with the scope name with
/// which the walk started.
pub proof fn inside_a_scope_nodes_keep_it(state: TransformState, nodes: Seq<NodeView>, n: int)
    requires
        state.current_scope is Some,
        0 <= n <= nodes.len(),
    ensures
        visited_nodes(state, nodes, n).0.current_scope == state.current_scope,
        visited_nodes(state, nodes, n).0.scope_counter == state.scope_counter,
        visited_nodes(state, nodes, n).0.scope_name() == state.scope_name(),
{
    nodes_walk_follows(state, nodes, n);
}

/// The walk of a function at the top level of the module opens one scope,
/// whatever the function holds: its children are walked in the scope with
/// the next id, and after it the walk is at the top level again, with the
/// counter one higher and the bindings that it had.
pub proof fn root_function_opens_one_scope(state: TransformState, children: Seq<NodeView>)
    requires
        state.current_scope is None,
    ensures
        state.entered().current_scope == Some(state.scope_counter + 1),
        visited_node(state, NodeView::Function(children)).1 == NodeView::Function(
            visited_nodes(state.entered(), children, children.len() as int).1,
        ),
        visited_node(state, NodeView::Function(children)).0.current_scope is None,
        visited_node(state, NodeView::Function(children)).0.scope_counter == state.scope_counter
            + 1,
        visited_node(state, NodeView::Function(children)).0.local_bindings
            == state.local_bindings,
{
    node_walk_follows(state, NodeView::Function(children));
}

/// A function inside a function is walked in the scope of the function
/// around it: its children are walked from the very state of the function
/// around it, but for the bindings, of which it starts with none.
pub proof fn nested_function_is_walked_in_the_enclosing_scope(
    state: TransformState,
    children: Seq<NodeView>,
)
    requires
        state.current_scope is Some,
    ensures
        state.entered() == (TransformState { local_bindings: Set::empty(), ..state }),
        visited_node(state, NodeView::Function(children)).1 == NodeView::Function(
            visited_nodes(
                TransformState { local_bindings: Set::empty(), ..state },
                children,
                children.len() as int,
            ).1,
        ),
        visited_node(state, NodeView::Function(children)).0.scope_name() == state.scope_name(),
        visited_node(state, NodeView::Function(children)).0.scope_counter == state.scope_counter,
        visited_node(state, NodeView::Function(children)).0.current_scope == state.current_scope,
        visited_node(state, NodeView::Function(children)).0.local_bindings == state.local_bindings,
{
    inside_a_scope_a_node_keeps_it(state, NodeView::Function(children));
}

/// Of two functions that follow each other at the top level of a module,
/// the first is walked in the scope with the next id and the second in the
/// scope with the id after that, whatever the first holds; and after both
/// the walk is at the top level again, where the scope id is 0.
pub proof fn sibling_functions_get_consecutive_scopes(
    state: TransformState,
    first: Seq<NodeView>,
    second: Seq<NodeView>,
)
    requires
        state.current_scope is None,
    ensures
        ({
            let siblings = seq![NodeView::Function(first), NodeView::Function(second)];
            let one = state.entered();
            let between = visited_node(state, NodeView::Function(first)).0;
            let two = between.entered();
            &&& state.scope_id() == 0
            &&& one.scope_id() == state.scope_counter + 1
            &&& between.scope_id() == 0
            &&& two.scope_id() == state.scope_counter + 2
            &&& visited_nodes(state, siblings, 2).1 == seq![
                NodeView::Function(visited_nodes(one, first, first.len() as int).1),
                NodeView::Function(visited_nodes(two, second, second.len() as int).1),
            ]
            &&& visited_nodes(state, siblings, 2).0.scope_id() == 0
            &&& visited_nodes(state, siblings, 2).0.scope_counter == state.scope_counter + 2
        }),
{
    let siblings = seq![NodeView::Function(first), NodeView::Function(second)];
    let one = state.entered();
    inside_a_scope_nodes_keep_it(one, first, first.len() as int);
    let between = visited_node(state, NodeView::Function(first)).0;
    let two = between.entered();
    inside_a_scope_nodes_keep_it(two, second, second.len() as int);
    reveal_with_fuel(visited_nodes, 3);
    assert(visited_nodes(state, siblings, 0).1 =~= Seq::<NodeView>::empty());
    assert(visited_nodes(state, siblings, 1).0 == between);
    assert(visited_nodes(state, siblings, 2).1 =~= seq![
        NodeView::Function(visited_nodes(one, first, first.len() as int).1),
        NodeView::Function(visited_nodes(two, second, second.len() as int).1),
    ]);
}

/// Whether the walk of `node` from `state` finds nothing to do: no
/// expression mentions the template tag or the scope name where the walk
/// meets it, and no element is a plain element where the walk meets it.
pub open spec fn is_quiet(state: TransformState, node: NodeView) -> bool
    decreases node, 0int,
{
    match node {
        NodeView::Function(children) => all_quiet(state.entered(), children, children.len() as int),
        NodeView::Binding(_) => true,
        NodeView::Expr(e) => !mentions(state, e),
        NodeView::Element(el) => {
            &&& !is_intrinsic(state, el.name)
            &&& forall|i: int|
                0 <= i < el.attrs.len() ==> match #[trigger] el.attrs[i] {
                    JSXAttrOrSpreadView::JSXAttr {
                        value: Some(JSXAttrValueView::Expr(e)),
                        ..
                    } => !mentions(state, e),
                    JSXAttrOrSpreadView::SpreadElement(e) => !mentions(state, e),
                    _ => true,
                }
        },
        NodeView::Other(children) => all_quiet(state, children, children.len() as int),
    }
}

/// Whether the walk of the first `n` of `nodes` from `state` finds nothing
/// to do.
pub open spec fn all_quiet(state: TransformState, nodes: Seq<NodeView>, n: int) -> bool
    decreases nodes, n,
{
    if n <= 0 || n > nodes.len() {
        true
    } else {
        all_quiet(state, nodes, n - 1) && is_quiet(
            visited_nodes(state, nodes, n - 1).0,
            nodes[n - 1],
        )
    }
}

/// Whether the walk of the first `n` of `items` from `state` finds nothing
/// to do but to read the imports.
pub open spec fn items_quiet(state: TransformState, items: Seq<ModuleItemView>, n: int) -> bool
    decreases n,
{
    if n <= 0 || n > items.len() {
        true
    } else {
        items_quiet(state, items, n - 1) && match items[n - 1] {
            ModuleItemView::Import(_) => true,
            ModuleItemView::Other(node) => is_quiet(visited_items(state, items, n - 1).0, node),
        }
    }
}

/// A walk that finds nothing to do leaves the node as it is.
pub proof fn quiet_node_stays(state: TransformState, node: NodeView)
    requires
        is_quiet(state, node),
    ensures
        visited_node(state, node).1 == node,
    decreases node, 0int,
{
    match node {
        NodeView::Function(children) => {
            quiet_nodes_stay(state.entered(), children, children.len() as int);
            assert(children.take(children.len() as int) =~= children);
        },
        NodeView::Binding(_) => {},
        NodeView::Expr(e) => {
            unmentioned_expression_stays(state, e);
        },
        NodeView::Element(el) => {
            component_without_mentions_stays(state, el);
        },
        NodeView::Other(children) => {
            quiet_nodes_stay(state, children, children.len() as int);
            assert(children.take(children.len() as int) =~= children);
        },
    }
}

/// A walk that finds nothing to do leaves the nodes as they are.
pub proof fn quiet_nodes_stay(state: TransformState, nodes: Seq<NodeView>, n: int)
    requires
        0 <= n <= nodes.len(),
        all_quiet(state, nodes, n),
    ensures
        visited_nodes(state, nodes, n).1 == nodes.take(n),
    decreases nodes, n,
{
    if n > 0 {
        quiet_nodes_stay(state, nodes, n - 1);
        quiet_node_stays(visited_nodes(state, nodes, n - 1).0, nodes[n - 1]);
        assert(nodes.take(n - 1).push(nodes[n - 1]) =~= nodes.take(n));
    } else {
        assert(nodes.take(0) =~= Seq::<NodeView>::empty());
    }
}

/// Where a file never mentions the template tag or the scope name, and holds
/// no plain element, the pass does nothing but to drop the imports of its
/// module: every other item, every other import among them, stays as it is
/// and where it is.
pub proof fn quiet_module_only_loses_the_import(state: TransformState, items: Seq<ModuleItemView>)
    requires
        items_quiet(state, items, items.len() as int),
    ensures
        visited_module(state, items).1 == kept(items),
{
    quiet_items_stay(state, items, items.len() as int);
    assert(items.take(items.len() as int) =~= items);
}

/// A walk that finds nothing to do but to read the imports leaves the items
/// as they are.
pub proof fn quiet_items_stay(state: TransformState, items: Seq<ModuleItemView>, n: int)
    requires
        0 <= n <= items.len(),
        items_quiet(state, items, n),
    ensures
        visited_items(state, items, n).1 == items.take(n),
    decreases n,
{
    if n > 0 {
        quiet_items_stay(state, items, n - 1);
        let before = visited_items(state, items, n - 1);
        match items[n - 1] {
            ModuleItemView::Import(_) => {},
            ModuleItemView::Other(node) => {
                quiet_node_stays(before.0, node);
            },
        }
        assert(items.take(n - 1).push(items[n - 1]) =~= items.take(n));
    } else {
        assert(items.take(0) =~= Seq::<ModuleItemView>::empty());
    }
}

/// A module that holds no import of the module of the pass stays as it is,
/// where a walk of it finds nothing to do.
pub proof fn module_without_the_import_stays(state: TransformState, items: Seq<ModuleItemView>)
    requires
        items_quiet(state, items, items.len() as int),
        forall|i: int| 0 <= i < items.len() ==> !is_the_import(#[trigger] items[i]),
    ensures
        visited_module(state, items).1 == items,
{
    quiet_module_only_loses_the_import(state, items);
    all_kept(items);
}

/// A list that holds no import of the module of the pass loses nothing.
pub proof fn all_kept(items: Seq<ModuleItemView>)
    requires
        forall|i: int| 0 <= i < items.len() ==> !is_the_import(#[trigger] items[i]),
    ensures
        kept(items) == items,
    decreases items.len(),
{
    if items.len() > 0 {
        assert(!is_the_import(items[items.len() - 1]));
        let front = items.drop_last();
        assert forall|i: int| 0 <= i < front.len() implies !is_the_import(#[trigger] front[i]) by {
            assert(front[i] == items[i]);
        }
        all_kept(front);
        assert(front.push(items.last()) =~= items);
    }
}

/// A module of nothing but imports of other modules stays as it is and
/// declares nothing, whatever the sources of the imports are.
pub proof fn module_of_other_imports_stays(state: TransformState, items: Seq<ModuleItemView>)
    requires
        forall|i: int|
            0 <= i < items.len() ==> (#[trigger] items[i] is Import && !is_the_import(items[i])),
    ensures
        visited_module(state, items) == (state, items),
{
    other_imports_stay(state, items, items.len() as int);
    assert(items.take(items.len() as int) =~= items);
    all_kept(items);
}

proof fn other_imports_stay(state: TransformState, items: Seq<ModuleItemView>, n: int)
    requires
        0 <= n <= items.len(),
        forall|i: int|
            0 <= i < items.len() ==> (#[trigger] items[i] is Import && !is_the_import(items[i])),
    ensures
        visited_items(state, items, n) == (state, items.take(n)),
    decreases n,
{
    if n > 0 {
        other_imports_stay(state, items, n - 1);
        assert(items[n - 1] is Import && !is_the_import(items[n - 1]));
        assert(items.take(n - 1).push(items[n - 1]) =~= items.take(n));
    } else {
        assert(items.take(0) =~= Seq::<ModuleItemView>::empty());
    }
}

/// Exactly the imports of the module of the pass leave a module. What is
/// left are the walked items that are no such import, in their order: every
/// item that was no such import is there, walked, and no item that was one.
pub proof fn exactly_the_import_is_dropped(state: TransformState, items: Seq<ModuleItemView>)
    ensures
        visited_module(state, items).1 == kept(
            visited_items(state, items, items.len() as int).1,
        ),
        visited_items(state, items, items.len() as int).1.len() == items.len(),
        forall|i: int|
            0 <= i < items.len() ==> is_the_import(
                #[trigger] visited_items(state, items, items.len() as int).1[i],
            ) == is_the_import(items[i]),
        forall|i: int|
            0 <= i < visited_module(state, items).1.len() ==> !is_the_import(
                #[trigger] visited_module(state, items).1[i],
            ),
        visited_module(state, items).1.len() + imports_of_the_module(items) == items.len(),
{
    let n = items.len() as int;
    let visited = visited_items(state, items, n).1;
    walked_imports_are_the_imports(state, items, n);
    assert forall|i: int| 0 <= i < kept(visited).len() implies !is_the_import(
        #[trigger] kept(visited)[i],
    ) by {
        kept_are_kept(visited, i);
    }
    kept_counts(visited);
    same_imports_same_count(visited, items);
}

/// How many of `items` are imports of the module of the pass.
pub open spec fn imports_of_the_module(items: Seq<ModuleItemView>) -> nat
    decreases items.len(),
{
    if items.len() == 0 {
        0
    } else if is_the_import(items.last()) {
        imports_of_the_module(items.drop_last()) + 1
    } else {
        imports_of_the_module(items.drop_last())
    }
}

proof fn walked_imports_are_the_imports(state: TransformState, items: Seq<ModuleItemView>, n: int)
    requires
        0 <= n <= items.len(),
    ensures
        visited_items(state, items, n).1.len() == n,
        forall|j: int|
            0 <= j < n ==> is_the_import(#[trigger] visited_items(state, items, n).1[j])
                == is_the_import(items[j]),
    decreases n,
{
    if n > 0 {
        walked_imports_are_the_imports(state, items, n - 1);
        let before = visited_items(state, items, n - 1);
        let next = visited_items(state, items, n).1;
        assert forall|j: int| 0 <= j < n implies is_the_import(#[trigger] next[j]) == is_the_import(
            items[j],
        ) by {
            if j < n - 1 {
                assert(next[j] == before.1[j]);
            }
        }
    }
}

proof fn kept_are_kept(items: Seq<ModuleItemView>, i: int)
    requires
        0 <= i < kept(items).len(),
    ensures
        is_kept(kept(items)[i]),
    decreases items.len(),
{
    if items.len() > 0 {
        let front = items.drop_last();
        if !(is_kept(items.last()) && i == kept(front).len()) {
            kept_are_kept(front, i);
        }
    }
}

proof fn kept_counts(items: Seq<ModuleItemView>)
    ensures
        kept(items).len() + imports_of_the_module(items) == items.len(),
    decreases items.len(),
{
    if items.len() > 0 {
        kept_counts(items.drop_last());
    }
}

proof fn same_imports_same_count(one: Seq<ModuleItemView>, other: Seq<ModuleItemView>)
    requires
        one.len() == other.len(),
        forall|i: int| 0 <= i < one.len() ==> is_the_import(#[trigger] one[i]) == is_the_import(
            other[i],
        ),
    ensures
        imports_of_the_module(one) == imports_of_the_module(other),
    decreases one.len(),
{
    if one.len() > 0 {
        let a = one.drop_last();
        let b = other.drop_last();
        assert(is_the_import(one[one.len() - 1]) == is_the_import(other[other.len() - 1]));
        assert forall|i: int| 0 <= i < a.len() implies is_the_import(#[trigger] a[i])
            == is_the_import(b[i]) by {
            assert(a[i] == one[i]);
            assert(b[i] == other[i]);
        }
        same_imports_same_count(a, b);
    }
}

/// At the top level of a module the walk stays at the top level, where the
/// scope id is 0: a read of the scope name that stands there is given the
/// name of scope 0, whatever the module holds before it.
pub proof fn top_level_is_scope_zero(state: TransformState, items: Seq<ModuleItemView>, n: int)
    requires
        state.current_scope is None,
        0 <= n <= items.len(),
    ensures
        visited_items(state, items, n).0.scope_id() == 0,
        visited_items(state, items, n).0.scope_name() == scope_name(state.file_identity, 0),
{
    items_walk_follows(state, items, n);
}

} // verus!
