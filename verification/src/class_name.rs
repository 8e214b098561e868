//! The class name that a markup element already declares, gathered from its
//! attributes so that it can be merged with the scope name.

use crate::expr::{clone_expr, BinaryOp, Expr, ExprView, PropName, PropNameView};
use crate::expr::{PropOrSpread, PropOrSpreadView, TplView};
use crate::ident::symbol_is;
use crate::jsx::{JSXAttrNameView, JSXAttrOrSpread, JSXAttrOrSpreadView};
use crate::jsx::{JSXAttrName, JSXAttrValue, JSXAttrValueView, JSXOpeningElement};
use crate::transform::Eszett;
use crate::utils::bin;
use vstd::prelude::*;

verus! {

/// The attribute, and the property key, that holds an element's class name.
pub const CLASS_NAME: &'static str = "className";

/// What one entry of an attribute list says about the class name.
pub enum Contribution {
    /// A class-name attribute, with its value if that is a string or an
    /// expression. It decides the outcome: nothing before it is looked at.
    Direct(Option<ExprView>),
    /// The spread of an object literal with a class-name key. `value` is what
    /// the key holds; `sole` says that the literal holds nothing else. It
    /// decides the outcome like a class-name attribute.
    Resolved { value: ExprView, sole: bool },
    /// An entry that cannot set the class name.
    Nothing,
    /// A spread whose properties are not known: it may or may not set the
    /// class name, which only a check at run time can tell.
    Opaque(ExprView),
}

/// Whether an object-literal member is `className: value`.
pub open spec fn is_class_name_prop(p: PropOrSpreadView) -> bool {
    p matches PropOrSpreadView::KeyValue { key: PropNameView::Ident(k), .. } && k == CLASS_NAME@
}

/// Whether an object-literal member may set properties that cannot be named
/// by reading the literal: a nested spread, or a computed key.
pub open spec fn is_unknown_prop(p: PropOrSpreadView) -> bool {
    p is Spread || (p matches PropOrSpreadView::KeyValue { key: PropNameView::Computed(_), .. })
}

/// The value of the last `className: value` member among `props`.
pub open spec fn class_name_value(props: Seq<PropOrSpreadView>) -> Option<ExprView>
    decreases props.len(),
{
    if props.len() == 0 {
        None
    } else if is_class_name_prop(props.last()) {
        Some(props.last()->KeyValue_value)
    } else {
        class_name_value(props.drop_last())
    }
}

/// Whether any of `props` is a nested spread or has a computed key.
pub open spec fn has_unknown_prop(props: Seq<PropOrSpreadView>) -> bool {
    exists|j: int| 0 <= j < props.len() && is_unknown_prop(#[trigger] props[j])
}

/// The value of an attribute as an expression, where it has one.
pub open spec fn attr_value_expr(value: Option<JSXAttrValueView>) -> Option<ExprView> {
    match value {
        Some(JSXAttrValueView::Str(s)) => Some(ExprView::Str(s)),
        Some(JSXAttrValueView::Expr(e)) => Some(e),
        _ => None,
    }
}

/// What `attr` says about the class name.
pub open spec fn contribution(attr: JSXAttrOrSpreadView) -> Contribution {
    match attr {
        JSXAttrOrSpreadView::JSXAttr { name: JSXAttrNameView::Ident(n), value } => {
            if n == CLASS_NAME@ {
                Contribution::Direct(attr_value_expr(value))
            } else {
                Contribution::Nothing
            }
        },
        JSXAttrOrSpreadView::JSXAttr { .. } => Contribution::Nothing,
        JSXAttrOrSpreadView::SpreadElement(ExprView::Object(props)) => {
            match class_name_value(props) {
                Some(value) => Contribution::Resolved { value, sole: props.len() == 1 },
                None => {
                    if has_unknown_prop(props) {
                        Contribution::Opaque(ExprView::Object(props))
                    } else {
                        Contribution::Nothing
                    }
                },
            }
        },
        JSXAttrOrSpreadView::SpreadElement(target) => Contribution::Opaque(target),
    }
}

/// `target.className`
pub open spec fn class_name_of(target: ExprView) -> ExprView {
    ExprView::Member { obj: Box::new(target), prop: CLASS_NAME@ }
}

/// `target && target.className != null && target.className`: the class name
/// that a spread of `target` sets, or a falsy value if it sets none.
pub open spec fn guarded(target: ExprView) -> ExprView {
    bin(
        BinaryOp::LogicalAnd,
        bin(
            BinaryOp::LogicalAnd,
            target,
            bin(BinaryOp::NotEq, class_name_of(target), ExprView::Null),
        ),
        class_name_of(target),
    )
}

/// What a scan of an attribute list has found.
pub struct Scan {
    /// The guarded expressions of the opaque spreads, nearest first.
    pub spreads: Seq<ExprView>,
    /// The class-name value that decided the scan, if the scan found one.
    pub class_name: Option<ExprView>,
    /// Where the class-name attribute stands, if one decided the scan.
    pub attr_index: Option<int>,
    /// Where the spread stands whose only property is the class name, if one
    /// decided the scan.
    pub spread_index: Option<int>,
}

/// The scan of the first `n` attributes, from the last of them backwards:
/// later attributes override earlier ones, so the first entry that decides
/// the class name ends the scan, and the opaque spreads passed on the way
/// are gathered in the order in which they are met.
pub open spec fn scan(attrs: Seq<JSXAttrOrSpreadView>, n: int) -> Scan
    decreases n,
{
    if n <= 0 {
        Scan { spreads: Seq::empty(), class_name: None, attr_index: None, spread_index: None }
    } else {
        match contribution(attrs[n - 1]) {
            Contribution::Direct(value) => Scan {
                spreads: Seq::empty(),
                class_name: value,
                attr_index: Some(n - 1),
                spread_index: None,
            },
            Contribution::Resolved { value, sole } => Scan {
                spreads: Seq::empty(),
                class_name: Some(value),
                attr_index: None,
                spread_index: if sole {
                    Some(n - 1)
                } else {
                    None
                },
            },
            Contribution::Nothing => scan(attrs, n - 1),
            Contribution::Opaque(target) => {
                let rest = scan(attrs, n - 1);
                Scan { spreads: seq![guarded(target)] + rest.spreads, ..rest }
            },
        }
    }
}

/// A scan points into the attributes that it has read, and it points at an
/// attribute or at a spread, never at both.
pub proof fn scan_points_into_the_list(attrs: Seq<JSXAttrOrSpreadView>, n: int)
    requires
        0 <= n <= attrs.len(),
    ensures
        scan(attrs, n).attr_index matches Some(i) ==> 0 <= i < n,
        scan(attrs, n).spread_index matches Some(i) ==> 0 <= i < n,
        scan(attrs, n).attr_index is None || scan(attrs, n).spread_index is None,
    decreases n,
{
    if n > 0 {
        scan_points_into_the_list(attrs, n - 1);
    }
}

/// `spreads[0] || spreads[1] || ..`, grouped from the left.
pub open spec fn or_chain(spreads: Seq<ExprView>) -> ExprView
    recommends
        spreads.len() > 0,
    decreases spreads.len(),
{
    if spreads.len() <= 1 {
        spreads[0]
    } else {
        bin(BinaryOp::LogicalOr, or_chain(spreads.drop_last()), spreads.last())
    }
}

/// The empty string literal.
pub open spec fn empty_string() -> ExprView {
    ExprView::Str(Seq::empty())
}

/// What an element already says about its class name.
pub enum ClassNameSource {
    /// Nothing.
    Absent,
    /// A string literal.
    StringLiteral(Seq<char>),
    /// A template literal.
    TemplateLiteral(TplView),
    /// Any other expression.
    Expression(ExprView),
    /// Opaque spreads, by their guarded expressions from the nearest to the
    /// furthest, each of which may set the class name at run time, before
    /// what the element says where none of them does.
    OrChain { spreads: Seq<ExprView>, otherwise: Box<ClassNameSource> },
}

/// The source that a class-name value is.
pub open spec fn value_source(class_name: Option<ExprView>) -> ClassNameSource {
    match class_name {
        Some(ExprView::Str(text)) => ClassNameSource::StringLiteral(text),
        Some(ExprView::Tpl(tpl)) => ClassNameSource::TemplateLiteral(tpl),
        Some(value) => ClassNameSource::Expression(value),
        None => ClassNameSource::Absent,
    }
}

/// The source that a scan has found.
pub open spec fn source(found: Scan) -> ClassNameSource {
    if found.spreads.len() > 0 {
        ClassNameSource::OrChain {
            spreads: found.spreads,
            otherwise: Box::new(value_source(found.class_name)),
        }
    } else {
        value_source(found.class_name)
    }
}

/// A source as one expression, if it is any: a string or template literal as
/// it is; any other expression as `value || ''`, so that a falsy value gives
/// the empty string; a chain of spreads as `spreads || otherwise`, with `''`
/// where there is nothing otherwise.
pub open spec fn rendered(source: ClassNameSource) -> Option<ExprView>
    decreases source,
{
    match source {
        ClassNameSource::Absent => None,
        ClassNameSource::StringLiteral(text) => Some(ExprView::Str(text)),
        ClassNameSource::TemplateLiteral(tpl) => Some(ExprView::Tpl(tpl)),
        ClassNameSource::Expression(value) => Some(
            bin(BinaryOp::LogicalOr, value, empty_string()),
        ),
        ClassNameSource::OrChain { spreads, otherwise } => Some(
            bin(
                BinaryOp::LogicalOr,
                or_chain(spreads),
                match rendered(*otherwise) {
                    Some(value) => value,
                    None => empty_string(),
                },
            ),
        ),
    }
}

/// The existing class name of a scan, as one expression.
pub open spec fn merged(found: Scan) -> Option<ExprView> {
    rendered(source(found))
}

/// The values of a vector of expressions.
pub open spec fn exprs_view(v: &Vec<Expr>) -> Seq<ExprView> {
    Seq::new(v.len() as nat, |i: int| v[i]@)
}

/// The value of an optional expression.
pub open spec fn option_view(e: Option<Expr>) -> Option<ExprView> {
    match e {
        Some(e) => Some(e@),
        None => None,
    }
}

/// An optional position as a mathematical integer.
pub open spec fn option_index(i: Option<usize>) -> Option<int> {
    match i {
        Some(i) => Some(i as int),
        None => None,
    }
}

/// `spreads[0] || spreads[1] || ..`, grouped from the left.
pub fn join_spreads(spreads: Vec<Expr>) -> (res: Expr)
    requires
        spreads.len() > 0,
    ensures
        res@ == or_chain(exprs_view(&spreads)),
{
    let ghost all = exprs_view(&spreads);
    let mut new_expr = clone_expr(&spreads[0]);
    let mut i: usize = 1;
    assert(all.take(1) =~= seq![all[0]]);
    while i < spreads.len()
        invariant
            1 <= i <= spreads.len(),
            all == exprs_view(&spreads),
            new_expr@ == or_chain(all.take(i as int)),
        decreases spreads.len() - i,
    {
        proof {
            let next = all.take(i + 1);
            assert(next.drop_last() =~= all.take(i as int));
            assert(next.last() == all[i as int]);
        }
        new_expr = crate::utils::or(new_expr, clone_expr(&spreads[i]));
        i += 1;
    }
    assert(all.take(spreads.len() as int) =~= all);
    new_expr
}

/// The value of the last `className: value` member of an object literal,
/// and whether the literal has a nested spread or a computed key.
fn object_class_name(props: &Vec<PropOrSpread>) -> (res: (Option<Expr>, bool))
    ensures
        option_view(res.0) == class_name_value(Expr::Object(*props)@->Object_0),
        res.1 == has_unknown_prop(Expr::Object(*props)@->Object_0),
{
    let ghost all = Expr::Object(*props)@->Object_0;
    let mut class_name: Option<Expr> = None;
    let mut unknown = false;
    let mut j: usize = 0;
    assert(all.take(0) =~= Seq::empty());
    while j < props.len()
        invariant
            j <= props.len(),
            all == Expr::Object(*props)@->Object_0,
            all.len() == props.len(),
            option_view(class_name) == class_name_value(all.take(j as int)),
            unknown == has_unknown_prop(all.take(j as int)),
        decreases props.len() - j,
    {
        let ghost before = all.take(j as int);
        let ghost after = all.take(j + 1);
        proof {
            assert(after.drop_last() =~= before);
            assert(after.last() == all[j as int]);
            assert(all[j as int] == props[j as int]@);
            if has_unknown_prop(before) {
                let k = choose|k: int| 0 <= k < before.len() && is_unknown_prop(#[trigger] before[k]);
                assert(is_unknown_prop(after[k]));
            }
            if has_unknown_prop(after) && !is_unknown_prop(all[j as int]) {
                let k = choose|k: int| 0 <= k < after.len() && is_unknown_prop(#[trigger] after[k]);
                assert(is_unknown_prop(before[k]));
            }
            if is_unknown_prop(all[j as int]) {
                assert(is_unknown_prop(after[j as int]));
            }
        }
        match &props[j] {
            PropOrSpread::KeyValue { key: PropName::Ident(name), value } => {
                if symbol_is(&name.sym, CLASS_NAME) {
                    class_name = Some(clone_expr(value));
                }
            },
            PropOrSpread::KeyValue { key: PropName::Computed(_), .. } => {
                unknown = true;
            },
            PropOrSpread::Spread(_) => {
                unknown = true;
            },
            _ => {},
        }
        j += 1;
    }
    assert(all.take(props.len() as int) =~= all);
    (class_name, unknown)
}

/// `target && target.className != null && target.className`
fn guard(target: &Expr) -> (res: Expr)
    ensures
        res@ == guarded(target@),
{
    let member = Expr::Member {
        obj: Box::new(clone_expr(target)),
        prop: crate::utils::ident(CLASS_NAME),
    };
    crate::utils::and(
        crate::utils::and(
            clone_expr(target),
            crate::utils::not_eq(clone_expr(&member), Expr::Null),
        ),
        member,
    )
}

impl Eszett {

/// The class name that the attributes of `el` already declare, as one
/// expression; the position of the class-name attribute that it stands for;
/// and the position of the spread that it stands for entirely. Both positions
/// are of entries that the merged class name makes redundant.
pub fn get_existing_class_name(el: &JSXOpeningElement) -> (res: (
    Option<Expr>,
    Option<usize>,
    Option<usize>,
))
    ensures
        option_view(res.0) == merged(scan(el@.attrs, el@.attrs.len() as int)),
        option_index(res.1) == scan(el@.attrs, el@.attrs.len() as int).attr_index,
        option_index(res.2) == scan(el@.attrs, el@.attrs.len() as int).spread_index,
{
    let ghost attrs = el@.attrs;
    let ghost whole = scan(attrs, attrs.len() as int);
    let mut spreads: Vec<Expr> = Vec::new();
    let mut class_name_expr: Option<Expr> = None;
    let mut existing_index: Option<usize> = None;
    let mut existing_spread_index: Option<usize> = None;
    let mut decided = false;
    let mut i: usize = el.attrs.len();
    assert(exprs_view(&spreads) + whole.spreads =~= whole.spreads);
    while i > 0 && !decided
        invariant
            i <= el.attrs.len(),
            attrs == el@.attrs,
            attrs.len() == el.attrs.len(),
            whole == scan(attrs, attrs.len() as int),
            !decided ==> {
                &&& class_name_expr is None
                &&& existing_index is None
                &&& existing_spread_index is None
                &&& whole == (Scan {
                    spreads: exprs_view(&spreads) + scan(attrs, i as int).spreads,
                    ..scan(attrs, i as int)
                })
            },
            decided ==> whole == (Scan {
                spreads: exprs_view(&spreads),
                class_name: option_view(class_name_expr),
                attr_index: option_index(existing_index),
                spread_index: option_index(existing_spread_index),
            }),
        decreases i,
    {
        i -= 1;
        let ghost here = scan(attrs, i + 1);
        let ghost gathered = exprs_view(&spreads);
        assert(attrs[i as int] == el.attrs[i as int]@);
        match &el.attrs[i] {
            JSXAttrOrSpread::JSXAttr { name: JSXAttrName::Ident(name), value } => {
                if symbol_is(&name.sym, CLASS_NAME) {
                    existing_index = Some(i);
                    class_name_expr = match value {
                        Some(JSXAttrValue::Str(text)) => Some(Expr::Str(text.clone())),
                        Some(JSXAttrValue::Expr(expr)) => Some(clone_expr(expr)),
                        _ => None,
                    };
                    decided = true;
                    assert(gathered + here.spreads =~= gathered);
                }
            },
            JSXAttrOrSpread::JSXAttr { .. } => {},
            JSXAttrOrSpread::SpreadElement(target) => {
                let opaque = match target {
                    Expr::Object(props) => {
                        let (value, unknown) = object_class_name(props);
                        let found = value.is_some();
                        if found {
                            class_name_expr = value;
                            if props.len() == 1 {
                                existing_spread_index = Some(i);
                            }
                            decided = true;
                            assert(gathered + here.spreads =~= gathered);
                        }
                        !found && unknown
                    },
                    _ => true,
                };
                if opaque {
                    spreads.push(guard(target));
                    assert(exprs_view(&spreads) =~= gathered.push(guarded(target@)));
                    assert(gathered + here.spreads =~= exprs_view(&spreads) + scan(
                        attrs,
                        i as int,
                    ).spreads);
                }
            },
        }
    }
    assert(exprs_view(&spreads) + Seq::<ExprView>::empty() =~= exprs_view(&spreads));
    assert(whole.spreads == exprs_view(&spreads));
    proof {
        reveal_with_fuel(rendered, 2);
    }
    let spread_expr = if spreads.len() == 0 {
        None
    } else {
        Some(join_spreads(spreads))
    };
    let class_name_expr = match class_name_expr {
        Some(Expr::Tpl(tpl)) => Some(Expr::Tpl(tpl)),
        Some(Expr::Str(text)) => Some(Expr::Str(text)),
        Some(value) => Some(crate::utils::or(value, Expr::Str(String::new()))),
        None => None,
    };
    let existing_class_name_expr = match (spread_expr, class_name_expr) {
        (Some(spread_expr), Some(class_name_expr)) => Some(
            crate::utils::or(spread_expr, class_name_expr),
        ),
        (Some(spread_expr), None) => Some(crate::utils::or(spread_expr, Expr::Str(String::new()))),
        (None, Some(class_name_expr)) => Some(class_name_expr),
        (None, None) => None,
    };
    (existing_class_name_expr, existing_index, existing_spread_index)
}

} // impl Eszett

} // verus!
