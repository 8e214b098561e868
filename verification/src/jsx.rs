//! Markup elements: the opening tag of an element and its attributes.

use crate::expr::{Expr, ExprView};
use crate::ident::{BindingId, Ident, IdentName, NodeId};
use vstd::prelude::*;

verus! {

/// The name of an element.
#[derive(Debug, PartialEq, Eq)]
pub enum JSXElementName {
    /// `<name>`
    Ident(Ident),
    /// `<a.b>`, `<a:b>` or any other form.
    Other(NodeId),
}

/// The name of an attribute.
#[derive(Debug, PartialEq, Eq)]
pub enum JSXAttrName {
    /// `name=..`
    Ident(IdentName),
    /// `ns:name=..`
    Namespaced { ns: IdentName, name: IdentName },
}

/// The value of an attribute.
#[derive(Debug, PartialEq, Eq)]
pub enum JSXAttrValue {
    /// `name="text"`
    Str(String),
    /// `name={expr}`
    Expr(Expr),
    /// `name={}`, an element, a fragment.
    Other(NodeId),
}

/// One entry of an element's attribute list.
#[derive(Debug, PartialEq, Eq)]
pub enum JSXAttrOrSpread {
    /// `name`, `name="text"` or `name={expr}`
    JSXAttr { name: JSXAttrName, value: Option<JSXAttrValue> },
    /// `{...expr}`
    SpreadElement(Expr),
}

/// The opening tag of an element.
#[derive(Debug, PartialEq, Eq)]
pub struct JSXOpeningElement {
    pub name: JSXElementName,
    pub attrs: Vec<JSXAttrOrSpread>,
    pub self_closing: bool,
}

/// The mathematical value of a [`JSXElementName`].
pub enum JSXElementNameView {
    Ident(BindingId),
    Other(NodeId),
}

/// The mathematical value of a [`JSXAttrName`].
pub enum JSXAttrNameView {
    Ident(Seq<char>),
    Namespaced { ns: Seq<char>, name: Seq<char> },
}

/// The mathematical value of a [`JSXAttrValue`].
pub enum JSXAttrValueView {
    Str(Seq<char>),
    Expr(ExprView),
    Other(NodeId),
}

/// The mathematical value of a [`JSXAttrOrSpread`].
pub enum JSXAttrOrSpreadView {
    JSXAttr { name: JSXAttrNameView, value: Option<JSXAttrValueView> },
    SpreadElement(ExprView),
}

/// The mathematical value of a [`JSXOpeningElement`].
pub struct JSXOpeningElementView {
    pub name: JSXElementNameView,
    pub attrs: Seq<JSXAttrOrSpreadView>,
    pub self_closing: bool,
}

impl View for JSXElementName {
    type V = JSXElementNameView;

    open spec fn view(&self) -> JSXElementNameView {
        match self {
            JSXElementName::Ident(id) => JSXElementNameView::Ident(id@),
            JSXElementName::Other(node) => JSXElementNameView::Other(*node),
        }
    }
}

impl View for JSXAttrName {
    type V = JSXAttrNameView;

    open spec fn view(&self) -> JSXAttrNameView {
        match self {
            JSXAttrName::Ident(name) => JSXAttrNameView::Ident(name@),
            JSXAttrName::Namespaced { ns, name } => JSXAttrNameView::Namespaced {
                ns: ns@,
                name: name@,
            },
        }
    }
}

impl View for JSXAttrValue {
    type V = JSXAttrValueView;

    open spec fn view(&self) -> JSXAttrValueView {
        match self {
            JSXAttrValue::Str(s) => JSXAttrValueView::Str(s@),
            JSXAttrValue::Expr(e) => JSXAttrValueView::Expr(e@),
            JSXAttrValue::Other(node) => JSXAttrValueView::Other(*node),
        }
    }
}

impl View for JSXAttrOrSpread {
    type V = JSXAttrOrSpreadView;

    open spec fn view(&self) -> JSXAttrOrSpreadView {
        match self {
            JSXAttrOrSpread::JSXAttr { name, value } => JSXAttrOrSpreadView::JSXAttr {
                name: name@,
                value: match value {
                    Some(v) => Some(v@),
                    None => None,
                },
            },
            JSXAttrOrSpread::SpreadElement(e) => JSXAttrOrSpreadView::SpreadElement(e@),
        }
    }
}

/// The values of a list of attributes.
pub open spec fn attrs_view(attrs: &Vec<JSXAttrOrSpread>) -> Seq<JSXAttrOrSpreadView> {
    Seq::new(attrs.len() as nat, |i: int| attrs[i]@)
}

impl View for JSXOpeningElement {
    type V = JSXOpeningElementView;

    open spec fn view(&self) -> JSXOpeningElementView {
        JSXOpeningElementView {
            name: self.name@,
            attrs: attrs_view(&self.attrs),
            self_closing: self.self_closing,
        }
    }
}

} // verus!
