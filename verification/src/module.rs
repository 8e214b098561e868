//! Module items: import declarations and whatever else a module holds.

use crate::ident::{BindingId, Ident};
use crate::tree::{Node, NodeView};
use vstd::prelude::*;

verus! {

/// The name under which the imported module exports a binding.
#[derive(Debug, PartialEq, Eq)]
pub enum ModuleExportName {
    /// `import { name as local }`
    Ident(Ident),
    /// `import { "name" as local }`
    Str(String),
}

/// One specifier of an import declaration.
#[derive(Debug, PartialEq, Eq)]
pub enum ImportSpecifier {
    /// `import { local }` or `import { imported as local }`
    Named { local: Ident, imported: Option<ModuleExportName> },
    /// `import local`
    Default { local: Ident },
    /// `import * as local`
    Namespace { local: Ident },
}

/// An import declaration.
#[derive(Debug, PartialEq, Eq)]
pub struct ImportDecl {
    pub specifiers: Vec<ImportSpecifier>,
    pub src: String,
}

/// One item of a module's statement list.
#[derive(Debug, PartialEq, Eq)]
pub enum ModuleItem {
    /// An import declaration.
    Import(ImportDecl),
    /// Any other declaration or statement, as the tree that it is.
    Other(Node),
}

/// The mathematical value of a [`ModuleExportName`]: the exported name.
pub enum ModuleExportNameView {
    Ident(BindingId),
    Str(Seq<char>),
}

/// The mathematical value of an [`ImportSpecifier`].
pub enum ImportSpecifierView {
    Named { local: BindingId, imported: Option<ModuleExportNameView> },
    Default { local: BindingId },
    Namespace { local: BindingId },
}

/// The mathematical value of an [`ImportDecl`].
pub struct ImportDeclView {
    pub specifiers: Seq<ImportSpecifierView>,
    pub src: Seq<char>,
}

/// The mathematical value of a [`ModuleItem`].
pub enum ModuleItemView {
    Import(ImportDeclView),
    Other(NodeView),
}

impl View for ModuleExportName {
    type V = ModuleExportNameView;

    open spec fn view(&self) -> ModuleExportNameView {
        match self {
            ModuleExportName::Ident(id) => ModuleExportNameView::Ident(id@),
            ModuleExportName::Str(s) => ModuleExportNameView::Str(s@),
        }
    }
}

impl View for ImportSpecifier {
    type V = ImportSpecifierView;

    open spec fn view(&self) -> ImportSpecifierView {
        match self {
            ImportSpecifier::Named { local, imported } => ImportSpecifierView::Named {
                local: local@,
                imported: match imported {
                    Some(name) => Some(name@),
                    None => None,
                },
            },
            ImportSpecifier::Default { local } => ImportSpecifierView::Default { local: local@ },
            ImportSpecifier::Namespace { local } => ImportSpecifierView::Namespace {
                local: local@,
            },
        }
    }
}

/// The values of a list of import specifiers.
pub open spec fn specifiers_view(specifiers: &Vec<ImportSpecifier>) -> Seq<ImportSpecifierView> {
    Seq::new(specifiers.len() as nat, |i: int| specifiers[i]@)
}

impl View for ImportDecl {
    type V = ImportDeclView;

    open spec fn view(&self) -> ImportDeclView {
        ImportDeclView { specifiers: specifiers_view(&self.specifiers), src: self.src@ }
    }
}

impl View for ModuleItem {
    type V = ModuleItemView;

    open spec fn view(&self) -> ModuleItemView {
        match self {
            ModuleItem::Import(decl) => ModuleItemView::Import(decl@),
            ModuleItem::Other(node) => ModuleItemView::Other(node@),
        }
    }
}

/// The values of a statement list.
pub open spec fn items_view(items: &Vec<ModuleItem>) -> Seq<ModuleItemView> {
    Seq::new(items.len() as nat, |i: int| items[i]@)
}

} // verus!
