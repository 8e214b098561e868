use eszett::expr::{BinaryOp, Expr, PropName, PropOrSpread, Tpl};
use eszett::ident::{Ident, IdentName};
use eszett::module::{ImportDecl, ImportSpecifier, ModuleExportName, ModuleItem};
use eszett::transform::{transformer, Eszett, TransformVisitor};
use eszett::tree::Node;

fn s(text: &str) -> Expr {
    Expr::Str(text.to_string())
}

fn id(sym: &str, ctxt: u32) -> Expr {
    Expr::Ident(Ident::new(sym, ctxt))
}

fn tpl(text: &str) -> Tpl {
    Tpl { quasis: vec![text.to_string()], exprs: vec![] }
}

fn tagged(tag: Expr, text: &str) -> Expr {
    Expr::TaggedTpl { tag: Box::new(tag), tpl: tpl(text) }
}

fn plus(left: Expr, right: Expr) -> Expr {
    Expr::Bin { op: BinaryOp::Add, left: Box::new(left), right: Box::new(right) }
}

fn import(src: &str, specifiers: Vec<ImportSpecifier>) -> ImportDecl {
    ImportDecl { specifiers, src: src.to_string() }
}

fn default_import(local: &str) -> ImportSpecifier {
    ImportSpecifier::Default { local: Ident::new(local, 1) }
}

fn named_import(local: &str) -> ImportSpecifier {
    ImportSpecifier::Named { local: Ident::new(local, 1), imported: None }
}

fn renamed_import(imported: &str, local: &str) -> ImportSpecifier {
    ImportSpecifier::Named {
        local: Ident::new(local, 1),
        imported: Some(ModuleExportName::Ident(Ident::new(imported, 0))),
    }
}

fn string_import(imported: &str, local: &str) -> ImportSpecifier {
    ImportSpecifier::Named {
        local: Ident::new(local, 1),
        imported: Some(ModuleExportName::Str(imported.to_string())),
    }
}

/// A pass over `file.js` that has read `import sz from 'eszett'`.
fn pass_with_tag() -> Eszett {
    let mut pass = transformer("file.js");
    let decl = import("eszett", vec![default_import("sz")]);
    pass.visit_mut_import_decl(&decl);
    pass
}

/// A pass over `file.js` that has read `import { scopeName } from 'eszett'`.
fn pass_with_scope_name() -> Eszett {
    let mut pass = transformer("file.js");
    let decl = import("eszett", vec![named_import("scopeName")]);
    pass.visit_mut_import_decl(&decl);
    pass
}

/// A statement that the pass has nothing to do with.
fn other(number: u64) -> ModuleItem {
    ModuleItem::Other(Node::Other(vec![Node::Expr(Expr::Opaque(number))]))
}

fn visited(pass: &Eszett, mut e: Expr) -> Expr {
    pass.visit_mut_expr(&mut e);
    e
}

#[test]
fn should_remove_sz_import_when_using_default_import() {
    let mut pass = transformer("file.js");
    let mut items = vec![ModuleItem::Import(import("eszett", vec![default_import("sz")]))];
    pass.visit_mut_module_items(&mut items);
    assert_eq!(items, vec![]);
}

#[test]
fn should_remove_sz_import_when_using_named_import() {
    let mut pass = transformer("file.js");
    let mut items = vec![ModuleItem::Import(import("eszett", vec![named_import("scopeName")]))];
    pass.visit_mut_module_items(&mut items);
    assert_eq!(items, vec![]);
}

#[test]
fn should_remove_sz_import_when_using_both_import() {
    let mut pass = transformer("file.js");
    let mut items = vec![ModuleItem::Import(import(
        "eszett",
        vec![default_import("sz"), renamed_import("scopeName", "foo")],
    ))];
    pass.visit_mut_module_items(&mut items);
    assert_eq!(items, vec![]);
    assert_eq!(pass.template_tag_identifier(), &Some(Ident::new("sz", 1)));
    assert_eq!(pass.scope_name_identifier(), &Some(Ident::new("foo", 1)));
}

#[test]
fn should_keep_other_imports() {
    let mut pass = transformer("file.js");
    let mut items = vec![ModuleItem::Import(import("some_import", vec![default_import("sz")]))];
    pass.visit_mut_module_items(&mut items);
    assert_eq!(
        items,
        vec![ModuleItem::Import(import("some_import", vec![default_import("sz")]))]
    );
    assert!(pass.template_tag_identifier().is_none());
    assert!(pass.scope_name_identifier().is_none());
}

#[test]
fn should_keep_everything_but_the_import_in_order() {
    let mut pass = transformer("file.js");
    let mut items = vec![
        other(1),
        ModuleItem::Import(import("react", vec![default_import("React")])),
        ModuleItem::Import(import("eszett", vec![default_import("sz")])),
        other(2),
        ModuleItem::Import(import("eszett", vec![named_import("scopeName")])),
        ModuleItem::Import(import("./eszett", vec![named_import("sz")])),
        other(3),
    ];
    pass.visit_mut_module_items(&mut items);
    assert_eq!(
        items,
        vec![
            other(1),
            ModuleItem::Import(import("react", vec![default_import("React")])),
            other(2),
            ModuleItem::Import(import("./eszett", vec![named_import("sz")])),
            other(3),
        ]
    );
    assert_eq!(pass.template_tag_identifier(), &Some(Ident::new("sz", 1)));
    assert_eq!(pass.scope_name_identifier(), &Some(Ident::new("scopeName", 1)));
}

#[test]
fn should_keep_an_import_without_a_source() {
    let mut pass = transformer("file.js");
    let mut items = vec![ModuleItem::Import(import("", vec![default_import("x")])), other(1)];
    pass.visit_mut_module_items(&mut items);
    assert_eq!(
        items,
        vec![ModuleItem::Import(import("", vec![default_import("x")])), other(1)]
    );
    assert!(pass.template_tag_identifier().is_none());
    let mut bare = vec![ModuleItem::Import(import("", vec![]))];
    pass.visit_mut_module_items(&mut bare);
    assert_eq!(bare, vec![ModuleItem::Import(import("", vec![]))]);
}

#[test]
fn should_drop_every_import_of_the_module_and_nothing_else() {
    let mut pass = transformer("file.js");
    let mut items = vec![
        ModuleItem::Import(import("eszett", vec![])),
        ModuleItem::Import(import("", vec![named_import("sz")])),
        ModuleItem::Import(import("eszett", vec![ImportSpecifier::Namespace {
            local: Ident::new("all", 1),
        }])),
        ModuleItem::Import(import("Eszett", vec![default_import("sz")])),
        ModuleItem::Import(import("eszett ", vec![default_import("sz")])),
        ModuleItem::Import(import("eszett", vec![default_import("sz")])),
    ];
    pass.visit_mut_module_items(&mut items);
    assert_eq!(
        items,
        vec![
            ModuleItem::Import(import("", vec![named_import("sz")])),
            ModuleItem::Import(import("Eszett", vec![default_import("sz")])),
            ModuleItem::Import(import("eszett ", vec![default_import("sz")])),
        ]
    );
    assert_eq!(pass.template_tag_identifier(), &Some(Ident::new("sz", 1)));
}

#[test]
fn should_leave_an_empty_statement_list_empty() {
    let mut pass = transformer("file.js");
    let mut items: Vec<ModuleItem> = vec![];
    pass.visit_mut_module_items(&mut items);
    assert_eq!(items, vec![]);
}

#[test]
fn import_declaration_stays_as_it_is_when_read() {
    let mut pass = transformer("file.js");
    let decl = import("eszett", vec![default_import("sz"), named_import("scopeName")]);
    pass.visit_mut_import_decl(&decl);
    assert_eq!(decl, import("eszett", vec![default_import("sz"), named_import("scopeName")]));
    assert_eq!(pass.template_tag_identifier(), &Some(Ident::new("sz", 1)));
    assert_eq!(pass.scope_name_identifier(), &Some(Ident::new("scopeName", 1)));
}

#[test]
fn import_of_another_module_is_not_read() {
    let mut pass = transformer("file.js");
    let decl = import("errnesto/eszett", vec![default_import("sz"), named_import("scopeName")]);
    pass.visit_mut_import_decl(&decl);
    assert_eq!(decl, import("errnesto/eszett", vec![default_import("sz"), named_import("scopeName")]));
    pass.visit_mut_import_decl(&import("", vec![default_import("sz"), named_import("scopeName")]));
    assert!(pass.template_tag_identifier().is_none());
    assert!(pass.scope_name_identifier().is_none());
}

#[test]
fn default_import_binds_the_template_tag() {
    let pass = pass_with_tag();
    assert_eq!(pass.template_tag_identifier(), &Some(Ident::new("sz", 1)));
    assert!(pass.scope_name_identifier().is_none());
}

#[test]
fn named_imports_bind_by_the_name_they_import() {
    let mut pass = transformer("file.js");
    let decl = import("eszett", vec![named_import("sz"), named_import("scopeName")]);
    pass.visit_mut_import_decl(&decl);
    assert_eq!(pass.template_tag_identifier(), &Some(Ident::new("sz", 1)));
    assert_eq!(pass.scope_name_identifier(), &Some(Ident::new("scopeName", 1)));
}

#[test]
fn renamed_imports_bind_the_local_name() {
    let mut pass = transformer("file.js");
    let decl = import(
        "eszett",
        vec![renamed_import("sz", "prefix"), renamed_import("scopeName", "sc")],
    );
    pass.visit_mut_import_decl(&decl);
    assert_eq!(pass.template_tag_identifier(), &Some(Ident::new("prefix", 1)));
    assert_eq!(pass.scope_name_identifier(), &Some(Ident::new("sc", 1)));
}

#[test]
fn string_named_imports_bind_the_local_name() {
    let mut pass = transformer("file.js");
    let decl = import(
        "eszett",
        vec![string_import("sz", "prefix"), string_import("scopeName", "sc")],
    );
    pass.visit_mut_import_decl(&decl);
    assert_eq!(pass.template_tag_identifier(), &Some(Ident::new("prefix", 1)));
    assert_eq!(pass.scope_name_identifier(), &Some(Ident::new("sc", 1)));
}

#[test]
fn local_name_does_not_count_where_another_name_is_imported() {
    let mut pass = transformer("file.js");
    let decl = import(
        "eszett",
        vec![renamed_import("other", "sz"), string_import("thing", "scopeName")],
    );
    pass.visit_mut_import_decl(&decl);
    assert!(pass.template_tag_identifier().is_none());
    assert!(pass.scope_name_identifier().is_none());
}

#[test]
fn namespace_and_unknown_imports_bind_nothing() {
    let mut pass = transformer("file.js");
    let decl = import(
        "eszett",
        vec![ImportSpecifier::Namespace { local: Ident::new("all", 1) }, named_import("css")],
    );
    pass.visit_mut_import_decl(&decl);
    assert!(pass.template_tag_identifier().is_none());
    assert!(pass.scope_name_identifier().is_none());
}

#[test]
fn later_specifier_wins() {
    let mut pass = transformer("file.js");
    let decl = import("eszett", vec![default_import("a"), renamed_import("sz", "b")]);
    pass.visit_mut_import_decl(&decl);
    assert_eq!(pass.template_tag_identifier(), &Some(Ident::new("b", 1)));
}

#[test]
fn should_replace_tagged_template_literals() {
    let pass = pass_with_tag();
    assert_eq!(
        visited(&pass, tagged(id("sz", 1), "my-class")),
        plus(s("ß-file_js-0 "), Expr::Tpl(tpl("my-class")))
    );
}

#[test]
fn should_work_with_empty_template_literal() {
    let pass = pass_with_tag();
    assert_eq!(
        visited(&pass, tagged(id("sz", 1), "")),
        plus(s("ß-file_js-0 "), Expr::Tpl(tpl("")))
    );
}

#[test]
fn should_leave_non_sz_template_literals_alone() {
    let pass = pass_with_tag();
    assert_eq!(visited(&pass, tagged(id("css", 0), "my-class")), tagged(id("css", 0), "my-class"));
}

#[test]
fn should_leave_a_tag_with_the_same_symbol_but_another_binding_alone() {
    let pass = pass_with_tag();
    assert_eq!(visited(&pass, tagged(id("sz", 2), "a")), tagged(id("sz", 2), "a"));
}

#[test]
fn should_leave_a_member_expression_tag_alone() {
    let pass = pass_with_tag();
    let tag = Expr::Member {
        obj: Box::new(id("sz", 1)),
        prop: IdentName { sym: "global".to_string() },
    };
    let expected = Expr::TaggedTpl {
        tag: Box::new(Expr::Member {
            obj: Box::new(id("sz", 1)),
            prop: IdentName { sym: "global".to_string() },
        }),
        tpl: tpl("a"),
    };
    assert_eq!(visited(&pass, tagged(tag, "a")), expected);
}

#[test]
fn should_leave_everything_alone_without_the_import() {
    let pass = transformer("file.js");
    assert_eq!(visited(&pass, tagged(id("sz", 1), "a")), tagged(id("sz", 1), "a"));
    assert_eq!(visited(&pass, id("scopeName", 1)), id("scopeName", 1));
}

#[test]
fn should_create_a_new_scope_for_each_root_function() {
    let mut pass = pass_with_tag();
    let one = pass.enter_scope();
    pass.visit_mut_binding_ident(&Ident::new("hui", 2));
    assert_eq!(
        visited(&pass, tagged(id("sz", 1), "my-class")),
        plus(s("ß-file_js-1 "), Expr::Tpl(tpl("my-class")))
    );
    pass.leave_scope(one);
    let two = pass.enter_scope();
    pass.visit_mut_binding_ident(&Ident::new("hui", 3));
    assert_eq!(
        visited(&pass, tagged(id("sz", 1), "my-class")),
        plus(s("ß-file_js-2 "), Expr::Tpl(tpl("my-class")))
    );
    pass.leave_scope(two);
    assert_eq!(pass.current_scope(), None);
    assert_eq!(pass.scope_counter(), 2);
}

#[test]
fn should_use_the_same_scope_throughout_a_function_body() {
    let mut pass = pass_with_tag();
    let one = pass.enter_scope();
    assert_eq!(
        visited(&pass, tagged(id("sz", 1), "my-class")),
        plus(s("ß-file_js-1 "), Expr::Tpl(tpl("my-class")))
    );
    assert_eq!(
        visited(&pass, tagged(id("sz", 1), "my-class")),
        plus(s("ß-file_js-1 "), Expr::Tpl(tpl("my-class")))
    );
    pass.leave_scope(one);
}

#[test]
fn should_use_the_same_scope_in_lexically_nested_functions() {
    let mut pass = pass_with_tag();
    let one = pass.enter_scope();
    assert_eq!(
        visited(&pass, tagged(id("sz", 1), "my-class")),
        plus(s("ß-file_js-1 "), Expr::Tpl(tpl("my-class")))
    );
    let two = pass.enter_scope();
    assert_eq!(pass.current_scope(), Some(1));
    assert_eq!(
        visited(&pass, tagged(id("sz", 1), "my-class")),
        plus(s("ß-file_js-1 "), Expr::Tpl(tpl("my-class")))
    );
    pass.leave_scope(two);
    assert_eq!(pass.current_scope(), Some(1));
    assert_eq!(pass.get_scope_name(), "ß-file_js-1");
    pass.leave_scope(one);
    assert_eq!(pass.current_scope(), None);
    assert_eq!(pass.scope_counter(), 1);
    assert_eq!(pass.get_scope_name(), "ß-file_js-0");
}

#[test]
fn should_number_a_function_after_a_nested_one_with_the_next_id() {
    let mut pass = pass_with_tag();
    let one = pass.enter_scope();
    let inner = pass.enter_scope();
    pass.leave_scope(inner);
    pass.leave_scope(one);
    let two = pass.enter_scope();
    assert_eq!(pass.current_scope(), Some(2));
    assert_eq!(pass.get_scope_name(), "ß-file_js-2");
    pass.leave_scope(two);
}

#[test]
fn should_replace_scope_name_variable_with_current_scope() {
    let pass = pass_with_scope_name();
    assert_eq!(visited(&pass, id("scopeName", 1)), s("ß-file_js-0"));
}

#[test]
fn should_replace_scope_name_variable_when_renamed_in_import() {
    let mut pass = transformer("file.js");
    let decl = import("eszett", vec![renamed_import("scopeName", "sc")]);
    pass.visit_mut_import_decl(&decl);
    assert_eq!(visited(&pass, id("sc", 1)), s("ß-file_js-0"));
}

#[test]
fn should_not_replace_other_variables_with_the_scope_name_name() {
    let mut pass = transformer("file.js");
    let decl = import("eszett", vec![renamed_import("scopeName", "sc")]);
    pass.visit_mut_import_decl(&decl);
    assert_eq!(visited(&pass, id("scopeName", 0)), id("scopeName", 0));
}

#[test]
fn should_not_replace_variables_shaddowing_scope_name() {
    let mut pass = pass_with_scope_name();
    let hui = pass.enter_scope();
    pass.visit_mut_binding_ident(&Ident::new("scopeName", 2));
    pass.visit_mut_binding_ident(&Ident::new("bar", 2));
    assert_eq!(visited(&pass, id("scopeName", 2)), id("scopeName", 2));
    pass.leave_scope(hui);
}

#[test]
fn should_not_replace_a_binding_that_the_scope_itself_declares() {
    let mut pass = pass_with_scope_name();
    let f = pass.enter_scope();
    assert_eq!(visited(&pass, id("scopeName", 1)), s("ß-file_js-1"));
    pass.visit_mut_binding_ident(&Ident::new("scopeName", 1));
    assert!(pass.is_local(&Ident::new("scopeName", 1)));
    assert_eq!(visited(&pass, id("scopeName", 1)), id("scopeName", 1));
    pass.leave_scope(f);
    assert!(!pass.is_local(&Ident::new("scopeName", 1)));
    assert_eq!(visited(&pass, id("scopeName", 1)), s("ß-file_js-0"));
}

#[test]
fn should_record_no_binding_at_the_top_level() {
    let mut pass = pass_with_scope_name();
    pass.visit_mut_binding_ident(&Ident::new("scopeName", 1));
    pass.visit_mut_assign_pat_prop(&Ident::new("other", 1));
    assert!(!pass.is_local(&Ident::new("scopeName", 1)));
    assert!(!pass.is_local(&Ident::new("other", 1)));
    assert_eq!(visited(&pass, id("scopeName", 1)), s("ß-file_js-0"));
}

#[test]
fn should_record_shorthand_pattern_keys_inside_a_scope() {
    let mut pass = transformer("file.js");
    let f = pass.enter_scope();
    pass.visit_mut_assign_pat_prop(&Ident::new("Box", 2));
    pass.visit_mut_assign_pat_prop(&Ident::new("Box", 2));
    assert!(pass.is_local(&Ident::new("Box", 2)));
    assert!(!pass.is_local(&Ident::new("Box", 3)));
    assert!(!pass.is_local(&Ident::new("box", 2)));
    pass.leave_scope(f);
    assert!(!pass.is_local(&Ident::new("Box", 2)));
}

#[test]
fn should_start_a_nested_function_without_bindings_and_restore_them() {
    let mut pass = transformer("file.js");
    let outer = pass.enter_scope();
    pass.visit_mut_binding_ident(&Ident::new("a", 2));
    let inner = pass.enter_scope();
    assert!(!pass.is_local(&Ident::new("a", 2)));
    pass.visit_mut_binding_ident(&Ident::new("b", 3));
    assert!(pass.is_local(&Ident::new("b", 3)));
    pass.leave_scope(inner);
    assert!(pass.is_local(&Ident::new("a", 2)));
    assert!(!pass.is_local(&Ident::new("b", 3)));
    pass.leave_scope(outer);
}

#[test]
fn should_rewrite_below_before_above() {
    let mut pass = transformer("file.js");
    let decl = import("eszett", vec![default_import("sz"), named_import("scopeName")]);
    pass.visit_mut_import_decl(&decl);
    let e = Expr::TaggedTpl {
        tag: Box::new(id("sz", 1)),
        tpl: Tpl {
            quasis: vec!["a ".to_string(), " b ".to_string(), "".to_string()],
            exprs: vec![id("scopeName", 1), tagged(id("sz", 1), "inner")],
        },
    };
    let expected = plus(
        s("ß-file_js-0 "),
        Expr::Tpl(Tpl {
            quasis: vec!["a ".to_string(), " b ".to_string(), "".to_string()],
            exprs: vec![s("ß-file_js-0"), plus(s("ß-file_js-0 "), Expr::Tpl(tpl("inner")))],
        }),
    );
    assert_eq!(visited(&pass, e), expected);
}

#[test]
fn should_rewrite_inside_binary_member_and_object_expressions() {
    let mut pass = transformer("file.js");
    let decl = import("eszett", vec![default_import("sz"), named_import("scopeName")]);
    pass.visit_mut_import_decl(&decl);
    let e = Expr::Object(vec![
        PropOrSpread::KeyValue {
            key: PropName::Ident(IdentName { sym: "a".to_string() }),
            value: plus(id("scopeName", 1), s("x")),
        },
        PropOrSpread::Spread(Expr::Member {
            obj: Box::new(id("scopeName", 1)),
            prop: IdentName { sym: "length".to_string() },
        }),
        PropOrSpread::Shorthand(Ident::new("scopeName", 1)),
        PropOrSpread::Other(3),
    ]);
    let expected = Expr::Object(vec![
        PropOrSpread::KeyValue {
            key: PropName::Ident(IdentName { sym: "a".to_string() }),
            value: plus(s("ß-file_js-0"), s("x")),
        },
        PropOrSpread::Spread(Expr::Member {
            obj: Box::new(s("ß-file_js-0")),
            prop: IdentName { sym: "length".to_string() },
        }),
        PropOrSpread::Shorthand(Ident::new("scopeName", 1)),
        PropOrSpread::Other(3),
    ]);
    assert_eq!(visited(&pass, e), expected);
}

#[test]
fn should_change_nothing_on_a_second_visit() {
    let mut pass = transformer("file.js");
    let decl = import("eszett", vec![default_import("sz"), named_import("scopeName")]);
    pass.visit_mut_import_decl(&decl);
    let once = visited(&pass, plus(tagged(id("sz", 1), "a"), id("scopeName", 1)));
    let twice = visited(&pass, once.clone());
    assert_eq!(once, twice);
}

#[test]
fn node_rules_do_not_look_below_the_node() {
    let pass = pass_with_scope_name();
    let mut e = plus(id("scopeName", 1), s("x"));
    pass.replace_scope_name_identifier_with_scope_name(&mut e);
    pass.replace_sz_identifier_with_scope_name(&mut e);
    assert_eq!(e, plus(id("scopeName", 1), s("x")));
    let mut read = id("scopeName", 1);
    pass.replace_sz_identifier_with_scope_name(&mut read);
    assert_eq!(read, id("scopeName", 1));
    pass.replace_scope_name_identifier_with_scope_name(&mut read);
    assert_eq!(read, s("ß-file_js-0"));
}

#[test]
fn transform_visitor_is_the_pass() {
    let pass = TransformVisitor::new("some/path.jsx");
    assert_eq!(pass.get_scope_name(), "ß-some_path_jsx-0");
}
