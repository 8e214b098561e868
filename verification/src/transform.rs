//! The pass itself: the state that it carries through a file and the steps
//! that it takes at each kind of node.

use crate::bindings::BindingSet;
use crate::class_name::{option_index, scan_points_into_the_list, CLASS_NAME};
use crate::expr::{clone_tpl, expr_view, Expr, PropOrSpread, Tpl};
use crate::ident::{symbol_is, BindingId, Ident};
use crate::jsx::{attrs_view, JSXAttrName, JSXAttrOrSpread, JSXAttrValue, JSXElementName};
use crate::jsx::{JSXElementNameView, JSXOpeningElement};
use crate::markup::{class_name_attr, injected, injection, visited_attr, visited_element};
use crate::markup::ClassNameInjectionView;
use crate::markup::{is_intrinsic, EXEMPT_TAG};
use crate::module::{items_view, ImportDecl, ImportSpecifier, ModuleExportName, ModuleItem};
use crate::rewrite::{replaced_scope_name, replaced_template, visited_expr, visited_prop};
use crate::rewrite::{is_scope_name_read, is_scoped_template, visited_tpl};
use crate::scope_name::format_scope_name;
use crate::state::{is_kept, kept};
use crate::state::{ScopeGuardView, TransformState, IMPORT_NAME, SCOPE_NAME_NAME};
use crate::state::TEMPLATE_LITERAL_TAG_NAME;
use crate::tree::{all_well_formed, nodes_view, root_functions_among, root_functions_in};
use crate::tree::well_formed;
use crate::tree::Node;
use crate::utils::is_capitalized;
use crate::walk::{root_functions_among_grows, root_functions_in_items};
use crate::walk::{nodes_walk_follows, root_functions_in_items_grows, scopes_opened};
use crate::walk::{has_room, item_well_formed, items_walk_follows, module_well_formed};
use crate::walk::node_walk_follows;
use crate::walk::{visited_item, visited_items, visited_module};
use crate::walk::{visited_node, visited_nodes};
use vstd::prelude::*;
use vstd::string::StringExecFns;

verus! {

/// The file identity of a pass that was given none.
pub const DEFAULT_FILE: &'static str = "file.js";

/// The pass over one file. It is made once for the file and carried through
/// its tree from the first node to the last.
pub struct Eszett {
    file_identity: String,
    template_tag_identifier: Option<Ident>,
    scope_name_identifier: Option<Ident>,
    scope_counter: usize,
    current_scope: Option<usize>,
    nearest_bindings: BindingSet,
}

/// What [`Eszett::enter_scope`] hands to [`Eszett::leave_scope`].
pub struct ScopeGuard {
    surrounding_bindings: BindingSet,
    did_create_new_scope: bool,
}

/// What [`Eszett::class_name_injection`] has decided for the opening tag of
/// a plain element.
#[derive(Debug, PartialEq, Eq)]
pub struct ClassNameInjection {
    /// The value of the class-name attribute that the tag gets.
    pub class_name: Expr,
    /// Where the spread stands that the new attribute stands for, if any.
    pub spread_index: Option<usize>,
    /// Where the class-name attribute stands that the new one replaces, if
    /// any.
    pub attr_index: Option<usize>,
}

impl View for ClassNameInjection {
    type V = ClassNameInjectionView;

    open spec fn view(&self) -> ClassNameInjectionView {
        ClassNameInjectionView {
            class_name: self.class_name@,
            spread_index: option_index(self.spread_index),
            attr_index: option_index(self.attr_index),
        }
    }
}

/// The value of an optional decision.
pub open spec fn injection_view(plan: Option<ClassNameInjection>) -> Option<
    ClassNameInjectionView,
> {
    match plan {
        Some(plan) => Some(plan@),
        None => None,
    }
}

/// The binding of an optional identifier.
pub open spec fn option_binding(id: Option<Ident>) -> Option<BindingId> {
    match id {
        Some(id) => Some(id@),
        None => None,
    }
}

/// An optional scope id as a natural number.
pub open spec fn option_scope(scope: Option<usize>) -> Option<nat> {
    match scope {
        Some(id) => Some(id as nat),
        None => None,
    }
}

impl View for Eszett {
    type V = TransformState;

    closed spec fn view(&self) -> TransformState {
        TransformState {
            file_identity: self.file_identity@,
            scope_counter: self.scope_counter as nat,
            current_scope: option_scope(self.current_scope),
            tag_binding: option_binding(self.template_tag_identifier),
            scope_name_binding: option_binding(self.scope_name_identifier),
            local_bindings: self.nearest_bindings@,
        }
    }
}

impl View for ScopeGuard {
    type V = ScopeGuardView;

    closed spec fn view(&self) -> ScopeGuardView {
        ScopeGuardView {
            surrounding_bindings: self.surrounding_bindings@,
            did_create_new_scope: self.did_create_new_scope,
        }
    }
}

/// The pass, under the name of what it is to a tree: a visitor that
/// transforms it.
pub type TransformVisitor = Eszett;

/// The pass over the file that `filepath` identifies.
pub fn transformer(filepath: &str) -> (res: Eszett)
    ensures
        res@ == TransformState::initial(filepath@),
{
    Eszett::new(filepath)
}

/// Whether a module item stays in its statement list: every item does but
/// an import of [`IMPORT_NAME`].
pub fn keeps(item: &ModuleItem) -> (res: bool)
    ensures
        res == is_kept(item@),
{
    match item {
        ModuleItem::Import(import) => !symbol_is(&import.src, IMPORT_NAME),
        ModuleItem::Other(_) => true,
    }
}

impl Default for Eszett {
    fn default() -> (res: Self)
        ensures
            res@ == TransformState::initial(DEFAULT_FILE@),
    {
        Eszett::new(DEFAULT_FILE)
    }
}

impl Eszett {
    /// The pass over the file that `filepath` identifies, before its first node.
    pub fn new(filepath: &str) -> (res: Self)
        ensures
            res@ == TransformState::initial(filepath@),
    {
        Eszett {
            file_identity: filepath.to_owned(),
            template_tag_identifier: None,
            scope_name_identifier: None,
            scope_counter: 0,
            current_scope: None,
            nearest_bindings: BindingSet::new(),
        }
    }

    /// What identifies the file.
    pub fn file_identity(&self) -> (res: &str)
        ensures
            res@ == self@.file_identity,
    {
        self.file_identity.as_str()
    }

    /// How many scopes the pass has opened so far.
    pub fn scope_counter(&self) -> (res: usize)
        ensures
            res == self@.scope_counter,
    {
        self.scope_counter
    }

    /// The scope that the pass is in; `None` at the top level of the module.
    pub fn current_scope(&self) -> (res: Option<usize>)
        ensures
            option_scope(res) == self@.current_scope,
    {
        self.current_scope
    }

    /// The identifier that is bound to the template tag, if an import has
    /// declared one.
    pub fn template_tag_identifier(&self) -> (res: &Option<Ident>)
        ensures
            option_binding(*res) == self@.tag_binding,
    {
        &self.template_tag_identifier
    }

    /// The identifier that is bound to the scope name, if an import has
    /// declared one.
    pub fn scope_name_identifier(&self) -> (res: &Option<Ident>)
        ensures
            option_binding(*res) == self@.scope_name_binding,
    {
        &self.scope_name_identifier
    }

    /// Whether the innermost scope has declared the binding of `id`.
    pub fn is_local(&self, id: &Ident) -> (res: bool)
        ensures
            res == self@.local_bindings.contains(id@),
    {
        self.nearest_bindings.contains(id)
    }

    /// The name of the scope that the pass is in.
    pub fn get_scope_name(&self) -> (res: String)
        ensures
            res@ == self@.scope_name(),
    {
        let current_scope = match self.current_scope {
            Some(current_scope) => current_scope,
            None => 0,
        };
        format_scope_name(self.file_identity.as_str(), current_scope)
    }

    /// Enters the body of a function. What it returns goes to
    /// [`Eszett::leave_scope`] once the body has been visited.
    pub fn enter_scope(&mut self) -> (guard: ScopeGuard)
        requires
            old(self)@.current_scope is None ==> old(self)@.scope_counter < usize::MAX,
        ensures
            final(self)@ == old(self)@.entered(),
            guard@ == old(self)@.guard(),
    {
        let mut surrounding_bindings = BindingSet::new();
        core::mem::swap(&mut self.nearest_bindings, &mut surrounding_bindings);
        let did_create_new_scope = self.current_scope.is_none();
        if did_create_new_scope {
            self.scope_counter = self.scope_counter + 1;
            self.current_scope = Some(self.scope_counter);
        }
        ScopeGuard { surrounding_bindings, did_create_new_scope }
    }

    /// Leaves the body of a function that [`Eszett::enter_scope`] entered.
    pub fn leave_scope(&mut self, guard: ScopeGuard)
        ensures
            final(self)@ == old(self)@.left(guard@),
    {
        if guard.did_create_new_scope {
            self.current_scope = None;
        }
        self.nearest_bindings = guard.surrounding_bindings;
    }

    /// Records the declaration of a binding: a parameter, a declared
    /// variable, an element of a destructuring pattern.
    pub fn visit_mut_binding_ident(&mut self, ident: &Ident)
        ensures
            final(self)@ == old(self)@.declared(ident@),
    {
        if self.current_scope.is_some() {
            self.nearest_bindings.insert(ident.clone());
        }
    }

    /// Records the declaration that a shorthand property of an object
    /// pattern makes: `key` in `{ key }` or `{ key = value }`.
    pub fn visit_mut_assign_pat_prop(&mut self, key: &Ident)
        ensures
            final(self)@ == old(self)@.declared(key@),
    {
        if self.current_scope.is_some() {
            self.nearest_bindings.insert(key.clone());
        }
    }

    /// Reads an import declaration. One of [`IMPORT_NAME`] declares the
    /// bindings of the pass: the default import declares the template tag; a
    /// named import declares the template tag or the scope name, by the name
    /// that it imports. An import of any other source declares nothing. The
    /// declaration itself stays as it is: an import of [`IMPORT_NAME`] is
    /// known by its source, and by that
    /// [`Eszett::visit_mut_module_items`] drops it from its statement list.
    pub fn visit_mut_import_decl(&mut self, import_decl: &ImportDecl)
        ensures
            final(self)@ == old(self)@.with_import(import_decl@),
            final(self)@.same_place(old(self)@),
            import_decl@.src != IMPORT_NAME@ ==> final(self)@ == old(self)@,
    {
        if !symbol_is(&import_decl.src, IMPORT_NAME) {
            return ;
        }
        let ghost start = self@;
        proof {
            start.specifiers_keep_the_place(
                import_decl@.specifiers,
                import_decl@.specifiers.len() as int,
            );
        }
        let ghost specifiers = import_decl@.specifiers;
        let mut i: usize = 0;
        while i < import_decl.specifiers.len()
            invariant
                i <= import_decl.specifiers.len(),
                specifiers == import_decl@.specifiers,
                specifiers.len() == import_decl.specifiers.len(),
                self@ == start.with_specifiers(specifiers, i as int),
            decreases import_decl.specifiers.len() - i,
        {
            assert(specifiers[i as int] == import_decl.specifiers[i as int]@);
            match &import_decl.specifiers[i] {
                ImportSpecifier::Default { local } => {
                    self.template_tag_identifier = Some(local.clone());
                },
                ImportSpecifier::Named { local, imported } => {
                    let export_name = match imported {
                        Some(ModuleExportName::Str(name)) => name,
                        Some(ModuleExportName::Ident(name)) => &name.sym,
                        None => &local.sym,
                    };
                    if symbol_is(export_name, TEMPLATE_LITERAL_TAG_NAME) {
                        self.template_tag_identifier = Some(local.clone());
                    } else if symbol_is(export_name, SCOPE_NAME_NAME) {
                        self.scope_name_identifier = Some(local.clone());
                    }
                },
                ImportSpecifier::Namespace { .. } => {},
            }
            i += 1;
        }
    }

    /// Walks a module: every item in order, an import declaration by
    /// reading it, any other item as the tree that it is; then drops the
    /// imports of [`IMPORT_NAME`]. Every other item stays where it is, an
    /// import of any other source among them.
    pub fn visit_mut_module_items(&mut self, stmts: &mut Vec<ModuleItem>)
        requires
            module_well_formed(items_view(old(stmts))),
            has_room(
                old(self)@,
                root_functions_in_items(items_view(old(stmts)), old(stmts).len() as int),
            ),
        ensures
            (final(self)@, items_view(final(stmts))) == visited_module(
                old(self)@,
                items_view(old(stmts)),
            ),
            final(self)@.current_scope == old(self)@.current_scope,
            final(self)@.scope_counter == old(self)@.scope_counter + scopes_opened(
                old(self)@,
                root_functions_in_items(items_view(old(stmts)), old(stmts).len() as int),
            ),
    {
        let ghost start = self@;
        let ghost items = items_view(stmts);
        let ghost total = root_functions_in_items(items, items.len() as int);
        proof {
            items_walk_follows(start, items, 0);
        }
        let mut i: usize = 0;
        while i < stmts.len()
            invariant
                i <= stmts.len(),
                stmts.len() == items.len(),
                module_well_formed(items),
                total == root_functions_in_items(items, items.len() as int),
                has_room(start, total),
                self@ == visited_items(start, items, i as int).0,
                visited_items(start, items, i as int).1.len() == i,
                forall|j: int|
                    0 <= j < i ==> stmts[j]@ == #[trigger] visited_items(start, items, i as int).1[j],
                forall|j: int| i <= j < stmts.len() ==> stmts[j]@ == items[j],
            decreases stmts.len() - i,
        {
            let ghost before = self@;
            let ghost done = visited_items(start, items, i as int).1;
            proof {
                items_walk_follows(start, items, i as int);
                root_functions_in_items_grows(items, i + 1, items.len() as int);
                assert(item_well_formed(items[i as int]));
                assert(stmts[i as int]@ == items[i as int]);
            }
            match &mut stmts[i] {
                ModuleItem::Import(import_decl) => {
                    self.visit_mut_import_decl(import_decl);
                },
                ModuleItem::Other(node) => {
                    self.visit_mut_node(node);
                },
            }
            proof {
                let next = visited_items(start, items, i + 1).1;
                assert(next == done.push(visited_item(before, items[i as int]).1));
                assert forall|j: int| 0 <= j < i + 1 implies stmts[j]@ == #[trigger] next[j] by {
                    if j < i {
                        assert(next[j] == done[j]);
                    }
                }
            }
            i += 1;
        }
        let ghost visited = visited_items(start, items, items.len() as int).1;
        proof {
            items_walk_follows(start, items, items.len() as int);
        }
        assert(items_view(stmts) =~= visited);
        let ghost mut seen: int = 0;
        let mut at: usize = 0;
        assert(visited.take(0) =~= Seq::empty());
        assert(visited.skip(0) =~= visited);
        while at < stmts.len()
            invariant
                0 <= seen <= visited.len(),
                at <= stmts.len(),
                at == kept(visited.take(seen)).len(),
                items_view(stmts) == kept(visited.take(seen)) + visited.skip(seen),
            decreases stmts.len() - at,
        {
            let ghost held = items_view(stmts);
            proof {
                assert(held[at as int] == visited.skip(seen)[0]);
                assert(visited.take(seen + 1).drop_last() =~= visited.take(seen));
                assert(visited.take(seen + 1).last() == visited[seen]);
                assert(stmts[at as int]@ == held[at as int]);
            }
            if keeps(&stmts[at]) {
                proof {
                    assert(held =~= kept(visited.take(seen + 1)) + visited.skip(seen + 1));
                    seen = seen + 1;
                }
                at += 1;
            } else {
                stmts.remove(at);
                proof {
                    assert(items_view(stmts) =~= held.remove(at as int));
                    assert(held.remove(at as int) =~= kept(visited.take(seen + 1)) + visited.skip(
                        seen + 1,
                    ));
                    seen = seen + 1;
                }
            }
        }
        proof {
            assert(visited.skip(seen).len() == 0);
            assert(visited.take(seen) =~= visited);
            assert(items_view(stmts) =~= kept(visited));
        }
    }

    /// Walks one node of a tree: a function in its scope, a declaration by
    /// recording it, an expression and the opening tag of an element by
    /// rewriting them, any other node by walking its children. The walk ends
    /// in the scope in which it started.
    pub fn visit_mut_node(&mut self, node: &mut Node)
        requires
            well_formed(old(node)@),
            has_room(old(self)@, root_functions_in(old(node)@)),
        ensures
            (final(self)@, final(node)@) == visited_node(old(self)@, old(node)@),
            final(self)@.current_scope == old(self)@.current_scope,
            final(self)@.scope_counter == old(self)@.scope_counter + scopes_opened(
                old(self)@,
                root_functions_in(old(node)@),
            ),
        decreases *old(node), 0int,
    {
        proof {
            node_walk_follows(self@, node@);
        }
        match node {
            Node::Function(children) => {
                assert(nodes_view(children) =~= old(node)@->Function_0);
                self.visit_mut_children_providing_current_scope(children);
                assert(node@->Function_0 =~= nodes_view(children));
            },
            Node::Binding(ident) => {
                self.visit_mut_binding_ident(ident);
            },
            Node::Expr(expression) => {
                self.visit_mut_expr(expression);
            },
            Node::Element(jsx_opening_element) => {
                self.visit_mut_jsx_opening_element(jsx_opening_element);
            },
            Node::Other(children) => {
                assert(nodes_view(children) =~= old(node)@->Other_0);
                self.visit_mut_children(children);
                assert(node@->Other_0 =~= nodes_view(children));
            },
        }
    }

    /// Walks the children of a node, in order. The walk ends in the scope in
    /// which it started.
    pub fn visit_mut_children(&mut self, children: &mut Vec<Node>)
        requires
            all_well_formed(nodes_view(old(children))),
            has_room(
                old(self)@,
                root_functions_among(nodes_view(old(children)), old(children).len() as int),
            ),
        ensures
            (final(self)@, nodes_view(final(children))) == visited_nodes(
                old(self)@,
                nodes_view(old(children)),
                old(children).len() as int,
            ),
            final(self)@.current_scope == old(self)@.current_scope,
            final(self)@.scope_counter == old(self)@.scope_counter + scopes_opened(
                old(self)@,
                root_functions_among(nodes_view(old(children)), old(children).len() as int),
            ),
        decreases *old(children), 0int,
    {
        let ghost start = self@;
        let ghost before = *children;
        let ghost nodes = nodes_view(children);
        let ghost total = root_functions_among(nodes, nodes.len() as int);
        let mut i: usize = 0;
        while i < children.len()
            invariant
                i <= children.len(),
                children.len() == before.len(),
                before == *old(children),
                nodes == nodes_view(&before),
                total == root_functions_among(nodes, nodes.len() as int),
                has_room(start, total),
                forall|j: int| 0 <= j < nodes.len() ==> well_formed(#[trigger] nodes[j]),
                self@ == visited_nodes(start, nodes, i as int).0,
                visited_nodes(start, nodes, i as int).1.len() == i,
                forall|j: int|
                    0 <= j < i ==> children[j]@ == #[trigger] visited_nodes(start, nodes, i as int).1[j],
                forall|j: int| i <= j < children.len() ==> children[j] == before[j],
            decreases children.len() - i,
        {
            let ghost earlier = self@;
            let ghost done = visited_nodes(start, nodes, i as int).1;
            proof {
                nodes_walk_follows(start, nodes, i as int);
                root_functions_among_grows(nodes, i + 1, nodes.len() as int);
                assert(well_formed(nodes[i as int]));
                assert(children[i as int]@ == nodes[i as int]);
                assert(decreases_to!(before => before[i as int]));
            }
            self.visit_mut_node(&mut children[i]);
            proof {
                let next = visited_nodes(start, nodes, i + 1).1;
                assert(next == done.push(visited_node(earlier, nodes[i as int]).1));
                assert forall|j: int| 0 <= j < i + 1 implies children[j]@ == #[trigger] next[j] by {
                    if j < i {
                        assert(next[j] == done[j]);
                    }
                }
            }
            i += 1;
        }
        proof {
            nodes_walk_follows(start, nodes, nodes.len() as int);
        }
        assert(nodes_view(children) =~= visited_nodes(start, nodes, nodes.len() as int).1);
    }

    /// Walks the parameters and the body of a function. At the top level of
    /// the module the function gets a scope of its own, with the next id:
    /// the counter goes up by one, the children are walked in that scope,
    /// and the walk ends at the top level again. Inside a scope the function
    /// inherits it: no id is given, the children are walked in the scope
    /// around them, and the walk ends in that scope. Either way the children
    /// start with no bindings but their own, and the bindings of the code
    /// around the function are back when the walk ends.
    pub fn visit_mut_children_providing_current_scope(&mut self, children: &mut Vec<Node>)
        requires
            all_well_formed(nodes_view(old(children))),
            old(self)@.current_scope is None ==> old(self)@.scope_counter < usize::MAX,
        ensures
            final(self)@ == visited_nodes(
                old(self)@.entered(),
                nodes_view(old(children)),
                old(children).len() as int,
            ).0.left(old(self)@.guard()),
            nodes_view(final(children)) == visited_nodes(
                old(self)@.entered(),
                nodes_view(old(children)),
                old(children).len() as int,
            ).1,
            final(self)@.current_scope == old(self)@.current_scope,
            final(self)@.local_bindings == old(self)@.local_bindings,
            old(self)@.current_scope is None ==> final(self)@.scope_counter == old(
                self,
            )@.scope_counter + 1,
            old(self)@.current_scope is Some ==> final(self)@.scope_counter == old(
                self,
            )@.scope_counter,
        decreases *old(children), 1int,
    {
        let guard = self.enter_scope();

        self.visit_mut_children(children);

        self.leave_scope(guard);
    }

    /// The template of `expression`, if `expression` is a template with the
    /// template tag.
    fn scoped_template(&self, expression: &Expr) -> (res: Option<Tpl>)
        ensures
            res is Some == is_scoped_template(self@, expression@),
            res matches Some(tpl) ==> tpl@ == expression@->TaggedTpl_tpl,
    {
        proof {
            reveal_with_fuel(expr_view, 2);
        }
        match expression {
            Expr::TaggedTpl { tag, tpl } => {
                let tagged = match &**tag {
                    Expr::Ident(tag) => match &self.template_tag_identifier {
                        Some(template_tag_identifier) => tag.same_binding(template_tag_identifier),
                        None => false,
                    },
                    _ => false,
                };
                if tagged {
                    Some(clone_tpl(tpl))
                } else {
                    None
                }
            },
            _ => None,
        }
    }

    /// The first rule of the expression rewriter, on the node `expression`
    /// alone: a template with the template tag becomes the scope name,
    /// followed by a space, plus the template.
    pub fn replace_sz_identifier_with_scope_name(&self, expression: &mut Expr)
        ensures
            final(expression)@ == replaced_template(self@, old(expression)@),
    {
        match self.scoped_template(expression) {
            Some(template) => {
                let mut scope_name = self.get_scope_name();
                proof {
                    reveal_strlit(" ");
                }
                scope_name.append(" ");
                assert(scope_name@ =~= self@.scope_name() + seq![' ']);
                *expression = crate::utils::add(Expr::Str(scope_name), Expr::Tpl(template));
            },
            None => {},
        }
    }

    /// Whether `expression` is a read of the scope name.
    fn is_scope_name(&self, expression: &Expr) -> (res: bool)
        ensures
            res == is_scope_name_read(self@, expression@),
    {
        match expression {
            Expr::Ident(identifier) => match &self.scope_name_identifier {
                Some(scope_name_identifier) => identifier.same_binding(scope_name_identifier)
                    && !self.nearest_bindings.contains(identifier),
                None => false,
            },
            _ => false,
        }
    }

    /// The second rule of the expression rewriter, on the node `expression`
    /// alone: a read of the scope name becomes the scope name as a string
    /// literal.
    pub fn replace_scope_name_identifier_with_scope_name(&self, expression: &mut Expr)
        ensures
            final(expression)@ == replaced_scope_name(self@, old(expression)@),
    {
        if self.is_scope_name(expression) {
            *expression = Expr::Str(self.get_scope_name());
        }
    }

    /// Visits an expression: everything below it first, then the node itself
    /// with both rules.
    pub fn visit_mut_expr(&self, expression: &mut Expr)
        ensures
            final(expression)@ == visited_expr(self@, old(expression)@),
        decreases *old(expression),
    {
        match expression {
            Expr::Tpl(tpl) => {
                self.visit_mut_tpl(tpl);
            },
            Expr::TaggedTpl { tag, tpl } => {
                self.visit_mut_expr(&mut **tag);
                self.visit_mut_tpl(tpl);
            },
            Expr::Bin { left, right, .. } => {
                self.visit_mut_expr(&mut **left);
                self.visit_mut_expr(&mut **right);
            },
            Expr::Member { obj, .. } => {
                self.visit_mut_expr(&mut **obj);
            },
            Expr::Object(props) => {
                let ghost before = *props;
                let mut i: usize = 0;
                while i < props.len()
                    invariant
                        i <= props.len(),
                        props.len() == before.len(),
                        decreases_to!(*old(expression) => before),
                        forall|j: int| 0 <= j < i ==> props[j]@ == visited_prop(self@, before[j]@),
                        forall|j: int| i <= j < props.len() ==> props[j] == before[j],
                    decreases props.len() - i,
                {
                    proof {
                        assert(decreases_to!(before => before[i as int]));
                    }
                    self.visit_mut_prop(&mut props[i]);
                    i += 1;
                }
                assert(expression@->Object_0 =~= visited_expr(self@, old(expression)@)->Object_0);
            },
            _ => {},
        }
        self.replace_sz_identifier_with_scope_name(expression);
        self.replace_scope_name_identifier_with_scope_name(expression);
    }

    /// Visits a template literal: its interpolated expressions.
    pub fn visit_mut_tpl(&self, tpl: &mut Tpl)
        ensures
            final(tpl)@ == visited_tpl(self@, old(tpl)@),
        decreases *old(tpl),
    {
        let ghost before = tpl.exprs;
        let mut i: usize = 0;
        while i < tpl.exprs.len()
            invariant
                i <= tpl.exprs.len(),
                tpl.exprs.len() == before.len(),
                tpl.quasis == old(tpl).quasis,
                before == old(tpl).exprs,
                forall|j: int| 0 <= j < i ==> tpl.exprs[j]@ == visited_expr(self@, before[j]@),
                forall|j: int| i <= j < tpl.exprs.len() ==> tpl.exprs[j] == before[j],
            decreases tpl.exprs.len() - i,
        {
            proof {
                assert(decreases_to!(before => before[i as int]));
            }
            self.visit_mut_expr(&mut tpl.exprs[i]);
            i += 1;
        }
        assert(tpl@.exprs =~= visited_tpl(self@, old(tpl)@).exprs);
    }

    /// Whether an element of this name is a plain element, which gets a
    /// class name, rather than a component, which does not.
    pub fn is_intrinsic_element(&self, name: &JSXElementName) -> (res: bool)
        requires
            name@ matches JSXElementNameView::Ident(id) ==> id.sym.len() > 0,
        ensures
            res == is_intrinsic(self@, name@),
    {
        match name {
            JSXElementName::Ident(identifier) => {
                !symbol_is(&identifier.sym, EXEMPT_TAG) && (!is_capitalized(
                    identifier.sym.as_str(),
                ) || self.nearest_bindings.contains(identifier))
            },
            JSXElementName::Other(_) => false,
        }
    }

    /// What is to be done to the opening tag of an element: for a plain
    /// element the class name that it gets, which is the scope name merged
    /// with the class name that the tag already declares, and the positions
    /// of the entries that the new attribute stands for; for a component
    /// nothing.
    pub fn class_name_injection(&self, jsx_opening_element: &JSXOpeningElement) -> (res: Option<
        ClassNameInjection,
    >)
        requires
            jsx_opening_element@.name matches JSXElementNameView::Ident(id) ==> id.sym.len() > 0,
        ensures
            injection_view(res) == injection(self@, jsx_opening_element@),
    {
        if !self.is_intrinsic_element(&jsx_opening_element.name) {
            return None;
        }
        let (existing_class_name, existing_index, existing_spread_index) =
            Eszett::get_existing_class_name(jsx_opening_element);
        let scope_name_expression = Expr::Str(self.get_scope_name());
        let new_class_name = match existing_class_name {
            Some(existing_class_name) => {
                proof {
                    reveal_strlit(" ");
                }
                let space = String::from_str(" ");
                assert(space@ =~= seq![' ']);
                crate::utils::add(
                    crate::utils::add(scope_name_expression, Expr::Str(space)),
                    existing_class_name,
                )
            },
            None => scope_name_expression,
        };
        Some(
            ClassNameInjection {
                class_name: new_class_name,
                spread_index: existing_spread_index,
                attr_index: existing_index,
            },
        )
    }

    /// Gives the opening tag of a plain element its class name. The new
    /// attribute goes to the end of the attribute list, and the entries that
    /// it stands for leave the list. The tag of a component stays as it is.
    pub fn inject_class_name(&self, jsx_opening_element: &mut JSXOpeningElement)
        requires
            old(jsx_opening_element)@.name matches JSXElementNameView::Ident(id) ==> id.sym.len()
                > 0,
        ensures
            final(jsx_opening_element)@ == injected(self@, old(jsx_opening_element)@),
    {
        let ghost attrs = jsx_opening_element@.attrs;
        match self.class_name_injection(jsx_opening_element) {
            Some(plan) => {
                let ghost added = attrs.push(class_name_attr(plan.class_name@));
                proof {
                    scan_points_into_the_list(attrs, attrs.len() as int);
                }
                jsx_opening_element.attrs.push(
                    JSXAttrOrSpread::JSXAttr {
                        name: JSXAttrName::Ident(crate::utils::ident(CLASS_NAME)),
                        value: Some(JSXAttrValue::Expr(plan.class_name)),
                    },
                );
                assert(attrs_view(&jsx_opening_element.attrs) =~= added);
                match plan.spread_index {
                    Some(spread_index) => {
                        jsx_opening_element.attrs.remove(spread_index);
                        assert(attrs_view(&jsx_opening_element.attrs) =~= added.remove(
                            spread_index as int,
                        ));
                    },
                    None => {},
                }
                let ghost trimmed = attrs_view(&jsx_opening_element.attrs);
                match plan.attr_index {
                    Some(attr_index) => {
                        jsx_opening_element.attrs.remove(attr_index);
                        assert(attrs_view(&jsx_opening_element.attrs) =~= trimmed.remove(
                            attr_index as int,
                        ));
                    },
                    None => {},
                }
            },
            None => {},
        }
    }

    /// Visits the opening tag of an element: the expressions of its
    /// attributes first, then the tag itself.
    pub fn visit_mut_jsx_opening_element(&self, jsx_opening_element: &mut JSXOpeningElement)
        requires
            old(jsx_opening_element)@.name matches JSXElementNameView::Ident(id) ==> id.sym.len()
                > 0,
        ensures
            final(jsx_opening_element)@ == visited_element(self@, old(jsx_opening_element)@),
    {
        let ghost before = jsx_opening_element@.attrs;
        let mut i: usize = 0;
        while i < jsx_opening_element.attrs.len()
            invariant
                i <= jsx_opening_element.attrs.len(),
                jsx_opening_element.attrs.len() == before.len(),
                jsx_opening_element.name == old(jsx_opening_element).name,
                jsx_opening_element.self_closing == old(jsx_opening_element).self_closing,
                forall|j: int|
                    0 <= j < i ==> jsx_opening_element.attrs[j]@ == visited_attr(self@, before[j]),
                forall|j: int|
                    i <= j < before.len() ==> jsx_opening_element.attrs[j]@ == before[j],
            decreases jsx_opening_element.attrs.len() - i,
        {
            match &mut jsx_opening_element.attrs[i] {
                JSXAttrOrSpread::JSXAttr { value: Some(JSXAttrValue::Expr(expr)), .. } => {
                    self.visit_mut_expr(expr);
                },
                JSXAttrOrSpread::SpreadElement(expr) => {
                    self.visit_mut_expr(expr);
                },
                _ => {},
            }
            i += 1;
        }
        assert(jsx_opening_element@.attrs =~= Seq::new(
            before.len(),
            |i: int| visited_attr(self@, before[i]),
        ));
        self.inject_class_name(jsx_opening_element);
    }

    /// Visits a member of an object literal: the expression that it spreads
    /// or holds.
    pub fn visit_mut_prop(&self, prop: &mut PropOrSpread)
        ensures
            final(prop)@ == visited_prop(self@, old(prop)@),
        decreases *old(prop),
    {
        match prop {
            PropOrSpread::Spread(expr) => {
                self.visit_mut_expr(expr);
            },
            PropOrSpread::KeyValue { value, .. } => {
                self.visit_mut_expr(value);
            },
            _ => {},
        }
    }
}

} // verus!
