//! Small builders for expressions and names.

use crate::expr::{BinaryOp, Expr, ExprView};
use crate::ident::IdentName;
use vstd::prelude::*;
use vstd::string::StrSliceExecFns;
use vstd::string::StringExecFns;

verus! {

/// Whether a character beyond ASCII has the Unicode property `Uppercase`, as
/// `char::is_uppercase` reports it.
pub uninterp spec fn is_uppercase(c: char) -> bool;

/// Whether a character has the Unicode property `Uppercase`. Of the ASCII
/// characters the letters `A` to `Z` have it and no other.
pub open spec fn is_capital(c: char) -> bool {
    if c <= '\u{7f}' {
        'A' <= c && c <= 'Z'
    } else {
        is_uppercase(c)
    }
}

/// `char::is_uppercase` of the standard library, which tells whether a
/// character has the property `Uppercase` of the Unicode character database.
/// In the ASCII range that database gives the property to the letters `A` to
/// `Z` and to nothing else. Beyond ASCII the answer depends on the character
/// alone, and [`is_uppercase`] is the name for it.
pub assume_specification[ char::is_uppercase ](c: char) -> (res: bool)
    ensures
        res == (if c <= '\u{7f}' {
            'A' <= c && c <= 'Z'
        } else {
            is_uppercase(c)
        }),
;

/// The text of a string literal written inside a template: every escaped
/// backtick (a backslash followed by a backtick) stands for a plain backtick.
pub open spec fn unescape_backticks(s: Seq<char>) -> Seq<char>
    decreases s.len(),
{
    if s.len() == 0 {
        s
    } else if s.len() >= 2 && s[0] == '\\' && s[1] == '`' {
        seq!['`'] + unescape_backticks(s.subrange(2, s.len() as int))
    } else {
        seq![s[0]] + unescape_backticks(s.subrange(1, s.len() as int))
    }
}

/// A string literal expression for `s`, with escaped backticks unescaped.
pub fn string_literal_expr(s: &str) -> (res: Expr)
    ensures
        res@ == ExprView::Str(unescape_backticks(s@)),
{
    let n = s.unicode_len();
    let mut out = String::new();
    let mut i: usize = 0;
    proof {
        assert(s@.subrange(0, n as int) =~= s@);
        assert(out@ + unescape_backticks(s@) =~= unescape_backticks(s@));
    }
    while i < n
        invariant
            n == s@.len(),
            i <= n,
            out@ + unescape_backticks(s@.subrange(i as int, n as int)) == unescape_backticks(s@),
        decreases n - i,
    {
        let ghost rest = s@.subrange(i as int, n as int);
        let c = s.get_char(i);
        if c == '\\' && i + 1 < n && s.get_char(i + 1) == '`' {
            proof {
                reveal_strlit("`");
                assert(rest.subrange(2, rest.len() as int) =~= s@.subrange(i + 2, n as int));
                assert((out@ + "`"@) + unescape_backticks(s@.subrange(i + 2, n as int)) =~= out@
                    + unescape_backticks(rest));
            }
            out.append("`");
            i += 2;
        } else {
            proof {
                assert(rest.subrange(1, rest.len() as int) =~= s@.subrange(i + 1, n as int));
                assert(s@.subrange(i as int, i + 1) =~= seq![rest[0]]);
                assert((out@ + s@.subrange(i as int, i + 1)) + unescape_backticks(
                    s@.subrange(i + 1, n as int),
                ) =~= out@ + unescape_backticks(rest));
            }
            out.append(s.substring_char(i, i + 1));
            i += 1;
        }
    }
    proof {
        assert(s@.subrange(n as int, n as int) =~= Seq::<char>::empty());
        assert(out@ + Seq::<char>::empty() =~= out@);
    }
    Expr::Str(out)
}

/// The name `s`.
pub fn ident(s: &str) -> (res: IdentName)
    ensures
        res@ == s@,
{
    IdentName { sym: s.to_owned() }
}

/// Whether a word starts with an uppercase character.
pub open spec fn capitalized(word: Seq<char>) -> bool {
    is_capital(word[0])
}

/// Whether `word` starts with an uppercase character.
pub fn is_capitalized(word: &str) -> (res: bool)
    requires
        word@.len() > 0,
    ensures
        res == capitalized(word@),
{
    word.get_char(0).is_uppercase()
}

/// `left + right`
pub fn add(left: Expr, right: Expr) -> (res: Expr)
    ensures
        res@ == bin(BinaryOp::Add, left@, right@),
{
    binary_expr(BinaryOp::Add, left, right)
}

/// `left && right`
pub fn and(left: Expr, right: Expr) -> (res: Expr)
    ensures
        res@ == bin(BinaryOp::LogicalAnd, left@, right@),
{
    binary_expr(BinaryOp::LogicalAnd, left, right)
}

/// `left || right`
pub fn or(left: Expr, right: Expr) -> (res: Expr)
    ensures
        res@ == bin(BinaryOp::LogicalOr, left@, right@),
{
    binary_expr(BinaryOp::LogicalOr, left, right)
}

/// `left != right`
pub fn not_eq(left: Expr, right: Expr) -> (res: Expr)
    ensures
        res@ == bin(BinaryOp::NotEq, left@, right@),
{
    binary_expr(BinaryOp::NotEq, left, right)
}

/// The value of the binary expression `left op right`.
pub open spec fn bin(op: BinaryOp, left: ExprView, right: ExprView) -> ExprView {
    ExprView::Bin { op, left: Box::new(left), right: Box::new(right) }
}

/// `left op right`
pub fn binary_expr(op: BinaryOp, left: Expr, right: Expr) -> (res: Expr)
    ensures
        res@ == bin(op, left@, right@),
{
    Expr::Bin { op, left: Box::new(left), right: Box::new(right) }
}

} // verus!
