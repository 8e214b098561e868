//! The state of one pass over one file, as a mathematical value, and what
//! each step of the pass does to it.

use crate::ident::BindingId;
use crate::module::{ImportDeclView, ImportSpecifierView, ModuleExportNameView};
use crate::module::ModuleItemView;
use crate::scope_name::scope_name;
use vstd::prelude::*;

verus! {

/// The module whose import declares the tag and the scope name. It does not
/// exist at run time, so an import of it never reaches the output; an import
/// of any other source always does.
pub const IMPORT_NAME: &'static str = "eszett";

/// The export that stands for the template tag.
pub const TEMPLATE_LITERAL_TAG_NAME: &'static str = "sz";

/// The export that stands for the current scope name.
pub const SCOPE_NAME_NAME: &'static str = "scopeName";

/// The state of a pass.
pub struct TransformState {
    /// What identifies the file among all files.
    pub file_identity: Seq<char>,
    /// How many scopes the pass has opened so far.
    pub scope_counter: nat,
    /// The scope that the pass is in; `None` at the top level of the module.
    pub current_scope: Option<nat>,
    /// The local binding of the template tag, once an import has declared it.
    pub tag_binding: Option<BindingId>,
    /// The local binding of the scope name, once an import has declared it.
    pub scope_name_binding: Option<BindingId>,
    /// The bindings that the innermost scope has declared so far.
    pub local_bindings: Set<BindingId>,
}

/// What [`TransformState::entered`] hands to [`TransformState::left`].
pub struct ScopeGuardView {
    /// The bindings of the surrounding scope.
    pub surrounding_bindings: Set<BindingId>,
    /// Whether entering opened a new scope.
    pub did_create_new_scope: bool,
}

impl TransformState {
    /// The state in which the pass over the file `file_identity` starts.
    pub open spec fn initial(file_identity: Seq<char>) -> TransformState {
        TransformState {
            file_identity,
            scope_counter: 0,
            current_scope: None,
            tag_binding: None,
            scope_name_binding: None,
            local_bindings: Set::empty(),
        }
    }

    /// The id of the scope that the pass is in: 0 at the top level of the
    /// module.
    pub open spec fn scope_id(self) -> nat {
        match self.current_scope {
            Some(id) => id,
            None => 0,
        }
    }

    /// The name of the scope that the pass is in.
    pub open spec fn scope_name(self) -> Seq<char> {
        scope_name(self.file_identity, self.scope_id())
    }

    /// The state on entering the body of a function: at the top level a new
    /// scope is opened, with the next id; inside a scope the function
    /// inherits it. Either way the body starts with no bindings of its own.
    pub open spec fn entered(self) -> TransformState {
        match self.current_scope {
            None => TransformState {
                scope_counter: self.scope_counter + 1,
                current_scope: Some(self.scope_counter + 1),
                local_bindings: Set::empty(),
                ..self
            },
            Some(_) => TransformState { local_bindings: Set::empty(), ..self },
        }
    }

    /// What entering the body of a function keeps for leaving it.
    pub open spec fn guard(self) -> ScopeGuardView {
        ScopeGuardView {
            surrounding_bindings: self.local_bindings,
            did_create_new_scope: self.current_scope is None,
        }
    }

    /// The state on leaving the body of a function: the scope is closed if
    /// entering opened it, and the surrounding bindings are back.
    pub open spec fn left(self, guard: ScopeGuardView) -> TransformState {
        TransformState {
            current_scope: if guard.did_create_new_scope {
                None
            } else {
                self.current_scope
            },
            local_bindings: guard.surrounding_bindings,
            ..self
        }
    }

    /// The state after a declaration of `id`: inside a scope the binding is
    /// recorded, at the top level of the module it is not.
    pub open spec fn declared(self, id: BindingId) -> TransformState {
        if self.current_scope is Some {
            TransformState { local_bindings: self.local_bindings.insert(id), ..self }
        } else {
            self
        }
    }

    /// The state after one specifier of an import of [`IMPORT_NAME`]. The
    /// default import declares the template tag. A named import declares
    /// the template tag if it imports [`TEMPLATE_LITERAL_TAG_NAME`] and the
    /// scope name if it imports [`SCOPE_NAME_NAME`]. Any other specifier
    /// declares nothing.
    pub open spec fn with_specifier(self, specifier: ImportSpecifierView) -> TransformState {
        match specifier {
            ImportSpecifierView::Default { local } => TransformState {
                tag_binding: Some(local),
                ..self
            },
            ImportSpecifierView::Named { local, imported } => {
                let export_name = export_name(local, imported);
                if export_name == TEMPLATE_LITERAL_TAG_NAME@ {
                    TransformState { tag_binding: Some(local), ..self }
                } else if export_name == SCOPE_NAME_NAME@ {
                    TransformState { scope_name_binding: Some(local), ..self }
                } else {
                    self
                }
            },
            ImportSpecifierView::Namespace { .. } => self,
        }
    }

    /// The state after the first `n` of `specifiers`, taken in order.
    pub open spec fn with_specifiers(
        self,
        specifiers: Seq<ImportSpecifierView>,
        n: int,
    ) -> TransformState
        decreases n,
    {
        if n <= 0 {
            self
        } else {
            self.with_specifiers(specifiers, n - 1).with_specifier(specifiers[n - 1])
        }
    }

    /// The state after an import declaration: one of another module than
    /// [`IMPORT_NAME`] changes nothing.
    pub open spec fn with_import(self, decl: ImportDeclView) -> TransformState {
        if decl.src == IMPORT_NAME@ {
            self.with_specifiers(decl.specifiers, decl.specifiers.len() as int)
        } else {
            self
        }
    }
}

impl TransformState {
    /// Whether two states are in the same place of the same file: they may
    /// differ in what the imports have declared, in nothing else.
    pub open spec fn same_place(self, other: TransformState) -> bool {
        &&& self.file_identity == other.file_identity
        &&& self.scope_counter == other.scope_counter
        &&& self.current_scope == other.current_scope
        &&& self.local_bindings == other.local_bindings
    }

    /// Import specifiers declare bindings and do nothing else to the state.
    pub proof fn specifiers_keep_the_place(self, specifiers: Seq<ImportSpecifierView>, n: int)
        ensures
            self.with_specifiers(specifiers, n).same_place(self),
        decreases n,
    {
        if n > 0 {
            self.specifiers_keep_the_place(specifiers, n - 1);
        }
    }
}

/// The name under which a named import is exported: the imported name where
/// the specifier gives one, else the local name.
pub open spec fn export_name(local: BindingId, imported: Option<ModuleExportNameView>) -> Seq<
    char,
> {
    match imported {
        Some(ModuleExportNameView::Str(name)) => name,
        Some(ModuleExportNameView::Ident(name)) => name.sym,
        None => local.sym,
    }
}

/// Whether a module item is an import of [`IMPORT_NAME`]. Such an import is
/// known by its source, whatever it imports.
pub open spec fn is_the_import(item: ModuleItemView) -> bool {
    item matches ModuleItemView::Import(decl) && decl.src == IMPORT_NAME@
}

/// Whether a module item stays in its statement list: every item does but an
/// import of [`IMPORT_NAME`].
pub open spec fn is_kept(item: ModuleItemView) -> bool {
    !is_the_import(item)
}

/// The items among `items` that stay, in their order.
pub open spec fn kept(items: Seq<ModuleItemView>) -> Seq<ModuleItemView>
    decreases items.len(),
{
    if items.len() == 0 {
        items
    } else if is_kept(items.last()) {
        kept(items.drop_last()).push(items.last())
    } else {
        kept(items.drop_last())
    }
}

} // verus!
