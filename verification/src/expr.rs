//! Expressions: the part of the program tree that the rewrite reads and builds.

use crate::ident::{BindingId, Ident, IdentName, NodeId};
use vstd::prelude::*;

verus! {

/// The binary operators that the rewrite produces.
#[derive(Debug, Clone, Copy, PartialEq, Eq, Structural)]
pub enum BinaryOp {
    /// `+`
    Add,
    /// `&&`
    LogicalAnd,
    /// `||`
    LogicalOr,
    /// `!=`
    NotEq,
}

/// A template literal: `quasis` are the text pieces, `exprs` the
/// interpolated expressions between them.
#[derive(Debug, PartialEq, Eq)]
pub struct Tpl {
    pub quasis: Vec<String>,
    pub exprs: Vec<Expr>,
}

/// The key of an object-literal property.
#[derive(Debug, PartialEq, Eq)]
pub enum PropName {
    /// `{ key: .. }`
    Ident(IdentName),
    /// `{ "key": .. }`
    Str(String),
    /// `{ [key]: .. }`
    Computed(NodeId),
    /// A numeric key.
    Num(NodeId),
}

/// One member of an object literal.
#[derive(Debug, PartialEq, Eq)]
pub enum PropOrSpread {
    /// `{ ...expr }`
    Spread(Expr),
    /// `{ key: value }`
    KeyValue { key: PropName, value: Expr },
    /// `{ name }`
    Shorthand(Ident),
    /// A method, getter, setter or any other member.
    Other(NodeId),
}

/// An expression.
#[derive(Debug, PartialEq, Eq)]
pub enum Expr {
    /// A bare identifier.
    Ident(Ident),
    /// A string literal.
    Str(String),
    /// The literal `null`.
    Null,
    /// A template literal.
    Tpl(Tpl),
    /// A template literal preceded by a tag.
    TaggedTpl { tag: Box<Expr>, tpl: Tpl },
    /// `left op right`
    Bin { op: BinaryOp, left: Box<Expr>, right: Box<Expr> },
    /// `obj.prop`
    Member { obj: Box<Expr>, prop: IdentName },
    /// An object literal.
    Object(Vec<PropOrSpread>),
    /// Any other expression.
    Opaque(NodeId),
}

/// The mathematical value of a [`Tpl`].
pub struct TplView {
    pub quasis: Seq<Seq<char>>,
    pub exprs: Seq<ExprView>,
}

/// The mathematical value of a [`PropName`].
pub enum PropNameView {
    Ident(Seq<char>),
    Str(Seq<char>),
    Computed(NodeId),
    Num(NodeId),
}

/// The mathematical value of a [`PropOrSpread`].
pub enum PropOrSpreadView {
    Spread(ExprView),
    KeyValue { key: PropNameView, value: ExprView },
    Shorthand(BindingId),
    Other(NodeId),
}

/// The mathematical value of an [`Expr`].
pub enum ExprView {
    Ident(BindingId),
    Str(Seq<char>),
    Null,
    Tpl(TplView),
    TaggedTpl { tag: Box<ExprView>, tpl: TplView },
    Bin { op: BinaryOp, left: Box<ExprView>, right: Box<ExprView> },
    Member { obj: Box<ExprView>, prop: Seq<char> },
    Object(Seq<PropOrSpreadView>),
    Opaque(NodeId),
}

/// The texts of a vector of strings.
pub open spec fn strings_view(v: &Vec<String>) -> Seq<Seq<char>> {
    Seq::new(v.len() as nat, |i: int| v[i]@)
}

pub open spec fn expr_view(e: &Expr) -> ExprView
    decreases e,
{
    match e {
        Expr::Ident(id) => ExprView::Ident(id@),
        Expr::Str(s) => ExprView::Str(s@),
        Expr::Null => ExprView::Null,
        Expr::Tpl(tpl) => ExprView::Tpl(tpl_view(tpl)),
        Expr::TaggedTpl { tag, tpl } => ExprView::TaggedTpl {
            tag: Box::new(expr_view(tag)),
            tpl: tpl_view(tpl),
        },
        Expr::Bin { op, left, right } => ExprView::Bin {
            op: *op,
            left: Box::new(expr_view(left)),
            right: Box::new(expr_view(right)),
        },
        Expr::Member { obj, prop } => ExprView::Member {
            obj: Box::new(expr_view(obj)),
            prop: prop@,
        },
        Expr::Object(props) => ExprView::Object(
            Seq::new(
                props.len() as nat,
                |i: int|
                    if 0 <= i < props.len() {
                        prop_view(&props[i])
                    } else {
                        arbitrary()
                    },
            ),
        ),
        Expr::Opaque(node) => ExprView::Opaque(*node),
    }
}

pub open spec fn tpl_view(tpl: &Tpl) -> TplView
    decreases tpl,
{
    TplView {
        quasis: strings_view(&tpl.quasis),
        exprs: Seq::new(
            tpl.exprs.len() as nat,
            |i: int|
                if 0 <= i < tpl.exprs.len() {
                    expr_view(&tpl.exprs[i])
                } else {
                    arbitrary()
                },
        ),
    }
}

pub open spec fn prop_view(p: &PropOrSpread) -> PropOrSpreadView
    decreases p,
{
    match p {
        PropOrSpread::Spread(e) => PropOrSpreadView::Spread(expr_view(e)),
        PropOrSpread::KeyValue { key, value } => PropOrSpreadView::KeyValue {
            key: key@,
            value: expr_view(value),
        },
        PropOrSpread::Shorthand(id) => PropOrSpreadView::Shorthand(id@),
        PropOrSpread::Other(node) => PropOrSpreadView::Other(*node),
    }
}

impl View for PropName {
    type V = PropNameView;

    open spec fn view(&self) -> PropNameView {
        match self {
            PropName::Ident(name) => PropNameView::Ident(name@),
            PropName::Str(s) => PropNameView::Str(s@),
            PropName::Computed(node) => PropNameView::Computed(*node),
            PropName::Num(node) => PropNameView::Num(*node),
        }
    }
}

impl View for Expr {
    type V = ExprView;

    open spec fn view(&self) -> ExprView {
        expr_view(self)
    }
}

impl View for Tpl {
    type V = TplView;

    open spec fn view(&self) -> TplView {
        tpl_view(self)
    }
}

impl View for PropOrSpread {
    type V = PropOrSpreadView;

    open spec fn view(&self) -> PropOrSpreadView {
        prop_view(self)
    }
}

impl Clone for PropName {
    fn clone(&self) -> (res: Self)
        ensures
            res@ == self@,
    {
        match self {
            PropName::Ident(name) => PropName::Ident(name.clone()),
            PropName::Str(s) => PropName::Str(s.clone()),
            PropName::Computed(node) => PropName::Computed(*node),
            PropName::Num(node) => PropName::Num(*node),
        }
    }
}

/// A copy of a vector of strings, text for text.
pub fn clone_strings(v: &Vec<String>) -> (res: Vec<String>)
    ensures
        strings_view(&res) == strings_view(v),
{
    let mut out: Vec<String> = Vec::new();
    let mut i: usize = 0;
    while i < v.len()
        invariant
            i <= v.len(),
            out.len() == i,
            forall|j: int| 0 <= j < i ==> out[j]@ == v[j]@,
        decreases v.len() - i,
    {
        out.push(v[i].clone());
        i += 1;
    }
    assert(strings_view(&out) =~= strings_view(v));
    out
}

/// A deep copy of an expression.
pub fn clone_expr(e: &Expr) -> (res: Expr)
    ensures
        res@ == e@,
    decreases e,
{
    match e {
        Expr::Ident(id) => Expr::Ident(id.clone()),
        Expr::Str(s) => Expr::Str(s.clone()),
        Expr::Null => Expr::Null,
        Expr::Tpl(tpl) => Expr::Tpl(clone_tpl(tpl)),
        Expr::TaggedTpl { tag, tpl } => Expr::TaggedTpl {
            tag: Box::new(clone_expr(tag)),
            tpl: clone_tpl(tpl),
        },
        Expr::Bin { op, left, right } => Expr::Bin {
            op: *op,
            left: Box::new(clone_expr(left)),
            right: Box::new(clone_expr(right)),
        },
        Expr::Member { obj, prop } => Expr::Member {
            obj: Box::new(clone_expr(obj)),
            prop: prop.clone(),
        },
        Expr::Object(props) => {
            let mut out: Vec<PropOrSpread> = Vec::new();
            let mut i: usize = 0;
            while i < props.len()
                invariant
                    i <= props.len(),
                    out.len() == i,
                    decreases_to!(*e => *props),
                    forall|j: int| 0 <= j < i ==> out[j]@ == props[j]@,
                decreases props.len() - i,
            {
                proof {
                    assert(decreases_to!(*props => props[i as int]));
                }
                out.push(clone_prop(&props[i]));
                i += 1;
            }
            let res = Expr::Object(out);
            assert(res@->Object_0 =~= e@->Object_0);
            res
        },
        Expr::Opaque(node) => Expr::Opaque(*node),
    }
}

/// A deep copy of a template literal.
pub fn clone_tpl(tpl: &Tpl) -> (res: Tpl)
    ensures
        res@ == tpl@,
    decreases tpl,
{
    let quasis = clone_strings(&tpl.quasis);
    let mut exprs: Vec<Expr> = Vec::new();
    let mut i: usize = 0;
    while i < tpl.exprs.len()
        invariant
            i <= tpl.exprs.len(),
            exprs.len() == i,
            forall|j: int| 0 <= j < i ==> exprs[j]@ == tpl.exprs[j]@,
        decreases tpl.exprs.len() - i,
    {
        proof {
            assert(decreases_to!(tpl.exprs => tpl.exprs[i as int]));
        }
        exprs.push(clone_expr(&tpl.exprs[i]));
        i += 1;
    }
    let res = Tpl { quasis, exprs };
    assert(res@.exprs =~= tpl@.exprs);
    res
}

/// A deep copy of an object-literal member.
pub fn clone_prop(p: &PropOrSpread) -> (res: PropOrSpread)
    ensures
        res@ == p@,
    decreases p,
{
    match p {
        PropOrSpread::Spread(e) => PropOrSpread::Spread(clone_expr(e)),
        PropOrSpread::KeyValue { key, value } => PropOrSpread::KeyValue {
            key: key.clone(),
            value: clone_expr(value),
        },
        PropOrSpread::Shorthand(id) => PropOrSpread::Shorthand(id.clone()),
        PropOrSpread::Other(node) => PropOrSpread::Other(*node),
    }
}

impl Clone for Expr {
    fn clone(&self) -> (res: Self)
        ensures
            res@ == self@,
    {
        clone_expr(self)
    }
}

impl Clone for Tpl {
    fn clone(&self) -> (res: Self)
        ensures
            res@ == self@,
    {
        clone_tpl(self)
    }
}

impl Clone for PropOrSpread {
    fn clone(&self) -> (res: Self)
        ensures
            res@ == self@,
    {
        clone_prop(self)
    }
}

} // verus!
