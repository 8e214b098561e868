use eszett::ident::Ident;
use eszett::scope_name::{format_decimal, format_scope_name, sanitize, MARKER};
use eszett::transform::Eszett;

#[test]
fn marker_is_the_sharp_s() {
    assert_eq!(MARKER, "ß");
}

#[test]
fn scope_name_joins_marker_file_and_scope() {
    assert_eq!(format_scope_name("file.js", 0), "ß-file_js-0");
    assert_eq!(format_scope_name("file.js", 12), "ß-file_js-12");
}

#[test]
fn scope_name_of_an_empty_file_identity() {
    assert_eq!(format_scope_name("", 3), "ß--3");
}

#[test]
fn sanitize_replaces_every_unsafe_character() {
    assert_eq!(sanitize("file.js"), "file_js");
    assert_eq!(sanitize("project/src/my file.tsx"), "project_src_my_file_tsx");
    assert_eq!(sanitize("a.b/c\\d:e f"), "a_b_c_d_e_f");
}

#[test]
fn sanitize_keeps_letters_digits_underscore_and_hyphen() {
    let kept = "abcxyzABCXYZ0123456789_-";
    assert_eq!(sanitize(kept), kept);
}

#[test]
fn sanitize_replaces_character_by_character() {
    assert_eq!(sanitize("é"), "_");
    assert_eq!(sanitize("aßb"), "a_b");
    assert_eq!(sanitize("日本.js"), "___js");
    assert_eq!(sanitize("a\nb"), "a_b");
    assert_eq!(sanitize("..."), "___");
}

#[test]
fn sanitize_of_the_boundaries_of_the_kept_ranges() {
    assert_eq!(sanitize("`a"), "_a");
    assert_eq!(sanitize("z{"), "z_");
    assert_eq!(sanitize("@A"), "_A");
    assert_eq!(sanitize("Z["), "Z_");
    assert_eq!(sanitize("/0"), "_0");
    assert_eq!(sanitize("9:"), "9_");
    assert_eq!(sanitize("$"), "_");
}

#[test]
fn sanitize_of_nothing_is_nothing() {
    assert_eq!(sanitize(""), "");
}

#[test]
fn decimal_of_small_and_large_numbers() {
    assert_eq!(format_decimal(0), "0");
    assert_eq!(format_decimal(7), "7");
    assert_eq!(format_decimal(9), "9");
    assert_eq!(format_decimal(10), "10");
    assert_eq!(format_decimal(99), "99");
    assert_eq!(format_decimal(100), "100");
    assert_eq!(format_decimal(1234567890), "1234567890");
    assert_eq!(format_decimal(usize::MAX), format!("{}", usize::MAX));
}

#[test]
fn scope_name_is_the_same_on_every_call() {
    let pass = Eszett::new("src/components/Button.tsx");
    let first = pass.get_scope_name();
    let second = pass.get_scope_name();
    assert_eq!(first, second);
    assert_eq!(first, "ß-src_components_Button_tsx-0");
    assert_eq!(
        format_scope_name("src/components/Button.tsx", 0),
        format_scope_name("src/components/Button.tsx", 0)
    );
}

#[test]
fn scope_names_of_different_scopes_differ() {
    assert_ne!(format_scope_name("file.js", 1), format_scope_name("file.js", 2));
    assert_ne!(format_scope_name("file.js", 1), format_scope_name("file.js", 11));
    assert_ne!(format_scope_name("file.js", 0), format_scope_name("file.js", 10));
}

#[test]
fn default_pass_is_for_file_js() {
    let pass = Eszett::default();
    assert_eq!(pass.file_identity(), "file.js");
    assert_eq!(pass.get_scope_name(), "ß-file_js-0");
}

#[test]
fn new_pass_starts_at_the_top_level_with_nothing_bound() {
    let pass = Eszett::new("a.js");
    assert_eq!(pass.file_identity(), "a.js");
    assert_eq!(pass.scope_counter(), 0);
    assert_eq!(pass.current_scope(), None);
    assert!(pass.template_tag_identifier().is_none());
    assert!(pass.scope_name_identifier().is_none());
    assert!(!pass.is_local(&Ident::new("a", 0)));
}

#[test]
fn identifiers_with_equal_symbol_and_context_are_one_binding() {
    let a = Ident::new("scopeName", 2);
    let b = Ident::new("scopeName", 2);
    assert!(a.same_binding(&b));
}

#[test]
fn identifiers_with_different_contexts_are_different_bindings() {
    let a = Ident::new("scopeName", 2);
    let b = Ident::new("scopeName", 3);
    assert!(!a.same_binding(&b));
    assert!(!a.same_binding(&Ident::new("scopename", 2)));
}

#[test]
fn identifier_symbol_is_compared_as_text() {
    let a = Ident::new("style", 1);
    assert!(a.has_symbol("style"));
    assert!(!a.has_symbol("Style"));
    assert!(!a.has_symbol("styles"));
}
