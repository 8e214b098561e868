use eszett::expr::{BinaryOp, Expr, PropName, PropOrSpread, Tpl};
use eszett::ident::{Ident, IdentName};
use eszett::utils::{add, and, binary_expr, ident, is_capitalized, not_eq, or, string_literal_expr};

fn s(text: &str) -> Expr {
    Expr::Str(text.to_string())
}

#[test]
fn string_literal_keeps_plain_text() {
    assert_eq!(string_literal_expr("my-class"), s("my-class"));
    assert_eq!(string_literal_expr(""), s(""));
    assert_eq!(string_literal_expr(" "), s(" "));
}

#[test]
fn string_literal_unescapes_backticks() {
    assert_eq!(string_literal_expr("a\\`b"), s("a`b"));
    assert_eq!(string_literal_expr("\\`"), s("`"));
    assert_eq!(string_literal_expr("\\`\\`"), s("``"));
    assert_eq!(string_literal_expr("x\\`y\\`z"), s("x`y`z"));
}

#[test]
fn string_literal_keeps_other_backslashes_and_backticks() {
    assert_eq!(string_literal_expr("a\\b"), s("a\\b"));
    assert_eq!(string_literal_expr("a`b"), s("a`b"));
    assert_eq!(string_literal_expr("\\"), s("\\"));
    assert_eq!(string_literal_expr("\\\\`"), s("\\`"));
    assert_eq!(string_literal_expr("ß\\`é"), s("ß`é"));
}

#[test]
fn ident_makes_a_name() {
    assert_eq!(ident("className"), IdentName { sym: "className".to_string() });
}

#[test]
fn is_capitalized_looks_at_the_first_character() {
    assert!(is_capitalized("Foo"));
    assert!(is_capitalized("F"));
    assert!(!is_capitalized("foo"));
    assert!(!is_capitalized("fOO"));
    assert!(!is_capitalized("div"));
}

#[test]
fn is_capitalized_knows_more_than_ascii() {
    assert!(is_capitalized("Δelta"));
    assert!(!is_capitalized("δelta"));
    assert!(!is_capitalized("_Foo"));
    assert!(!is_capitalized("$Foo"));
    assert!(!is_capitalized("1"));
}

#[test]
fn binary_builders_put_the_operands_in_order() {
    assert_eq!(
        add(s("a"), s("b")),
        Expr::Bin { op: BinaryOp::Add, left: Box::new(s("a")), right: Box::new(s("b")) }
    );
    assert_eq!(
        and(s("a"), s("b")),
        Expr::Bin { op: BinaryOp::LogicalAnd, left: Box::new(s("a")), right: Box::new(s("b")) }
    );
    assert_eq!(
        or(s("a"), s("b")),
        Expr::Bin { op: BinaryOp::LogicalOr, left: Box::new(s("a")), right: Box::new(s("b")) }
    );
    assert_eq!(
        not_eq(s("a"), Expr::Null),
        Expr::Bin { op: BinaryOp::NotEq, left: Box::new(s("a")), right: Box::new(Expr::Null) }
    );
    assert_eq!(
        binary_expr(BinaryOp::Add, Expr::Null, Expr::Opaque(4)),
        Expr::Bin {
            op: BinaryOp::Add,
            left: Box::new(Expr::Null),
            right: Box::new(Expr::Opaque(4)),
        }
    );
}

#[test]
fn clone_of_an_expression_is_equal_to_it() {
    let e = Expr::TaggedTpl {
        tag: Box::new(Expr::Member {
            obj: Box::new(Expr::Ident(Ident::new("css", 1))),
            prop: ident("global"),
        }),
        tpl: Tpl {
            quasis: vec!["a ".to_string(), " b".to_string()],
            exprs: vec![Expr::Object(vec![
                PropOrSpread::Spread(Expr::Opaque(9)),
                PropOrSpread::KeyValue { key: PropName::Str("k".to_string()), value: Expr::Null },
                PropOrSpread::KeyValue { key: PropName::Ident(ident("x")), value: s("y") },
                PropOrSpread::KeyValue { key: PropName::Computed(3), value: s("z") },
                PropOrSpread::KeyValue { key: PropName::Num(5), value: s("n") },
                PropOrSpread::Shorthand(Ident::new("q", 2)),
                PropOrSpread::Other(7),
            ])],
        },
    };
    assert_eq!(e.clone(), e);
    let b = add(e.clone(), Expr::Tpl(Tpl { quasis: vec![String::new()], exprs: vec![] }));
    assert_eq!(b.clone(), b);
}
