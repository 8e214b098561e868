//! Scope names: the string that stands for one function scope of one file.

use vstd::prelude::*;
use vstd::string::StringExecFns;

verus! {

/// What every scope name starts with.
pub const MARKER: &'static str = "\u{df}";

/// The class of characters that a file identity may not keep: everything but
/// ASCII letters, ASCII digits, `_` and `-`.
pub const UNSAFE_CHARACTER: &'static str = "[^a-zA-Z0-9_-]";

/// What stands in for a character that a file identity may not keep.
pub const SUBSTITUTE: &'static str = "_";

/// Whether a character of a file identity is kept in a scope name.
pub open spec fn is_scope_char(c: char) -> bool {
    ||| 'a' <= c <= 'z'
    ||| 'A' <= c <= 'Z'
    ||| '0' <= c <= '9'
    ||| c == '_'
    ||| c == '-'
}

/// A file identity with every character outside `[A-Za-z0-9_-]` replaced by `_`.
pub open spec fn sanitized(file_identity: Seq<char>) -> Seq<char> {
    Seq::new(
        file_identity.len(),
        |i: int|
            if is_scope_char(file_identity[i]) {
                file_identity[i]
            } else {
                '_'
            },
    )
}

/// The decimal digit for a number below ten.
pub open spec fn digit(d: nat) -> char {
    if d == 0 {
        '0'
    } else if d == 1 {
        '1'
    } else if d == 2 {
        '2'
    } else if d == 3 {
        '3'
    } else if d == 4 {
        '4'
    } else if d == 5 {
        '5'
    } else if d == 6 {
        '6'
    } else if d == 7 {
        '7'
    } else if d == 8 {
        '8'
    } else {
        '9'
    }
}

/// A number in decimal, without leading zeros.
pub open spec fn decimal(n: nat) -> Seq<char>
    decreases n,
{
    if n < 10 {
        seq![digit(n)]
    } else {
        decimal(n / 10).push(digit(n % 10))
    }
}

/// The scope name of scope `scope_id` of the file `file_identity`:
/// the marker, the sanitized file identity and the scope id in decimal,
/// joined by `-`.
pub open spec fn scope_name(file_identity: Seq<char>, scope_id: nat) -> Seq<char> {
    MARKER@ + seq!['-'] + sanitized(file_identity) + seq!['-'] + decimal(scope_id)
}

/// `regex::Regex::new` on `pattern`, then `Regex::replace_all` of the
/// compiled expression on `haystack` with `replacement`. The pattern is a
/// negated character class, which matches exactly one character, namely any
/// that is not an ASCII letter, an ASCII digit, `_` or `-`; the replacement
/// holds no `$`, so it is inserted as it stands. Every such character of the
/// haystack is therefore replaced by `_`, and every other one is kept.
#[verifier::external_body]
fn replace_all(pattern: &str, haystack: &str, replacement: &str) -> (res: String)
    requires
        pattern@ == UNSAFE_CHARACTER@,
        replacement@ == SUBSTITUTE@,
    ensures
        res@ == sanitized(haystack@),
{
    regex::Regex::new(pattern).unwrap().replace_all(haystack, replacement).into_owned()
}

/// The file identity as it appears in a scope name.
pub fn sanitize(file_identity: &str) -> (res: String)
    ensures
        res@ == sanitized(file_identity@),
{
    replace_all(UNSAFE_CHARACTER, file_identity, SUBSTITUTE)
}

fn digit_text(d: usize) -> (res: &'static str)
    requires
        d < 10,
    ensures
        res@ == seq![digit(d as nat)],
{
    proof {
        reveal_strlit("0");
        reveal_strlit("1");
        reveal_strlit("2");
        reveal_strlit("3");
        reveal_strlit("4");
        reveal_strlit("5");
        reveal_strlit("6");
        reveal_strlit("7");
        reveal_strlit("8");
        reveal_strlit("9");
    }
    let text = if d == 0 {
        "0"
    } else if d == 1 {
        "1"
    } else if d == 2 {
        "2"
    } else if d == 3 {
        "3"
    } else if d == 4 {
        "4"
    } else if d == 5 {
        "5"
    } else if d == 6 {
        "6"
    } else if d == 7 {
        "7"
    } else if d == 8 {
        "8"
    } else {
        "9"
    };
    assert(text@ =~= seq![digit(d as nat)]);
    text
}

/// `n` in decimal.
pub fn format_decimal(n: usize) -> (res: String)
    ensures
        res@ == decimal(n as nat),
    decreases n,
{
    if n < 10 {
        String::from_str(digit_text(n))
    } else {
        let mut text = format_decimal(n / 10);
        text.append(digit_text(n % 10));
        assert(text@ =~= decimal(n as nat));
        text
    }
}

/// The scope name of scope `scope_id` of the file `file_identity`.
pub fn format_scope_name(file_identity: &str, scope_id: usize) -> (res: String)
    ensures
        res@ == scope_name(file_identity@, scope_id as nat),
{
    proof {
        reveal_strlit("-");
    }
    let mut name = String::from_str(MARKER);
    name.append("-");
    name.append(sanitize(file_identity).as_str());
    name.append("-");
    name.append(format_decimal(scope_id).as_str());
    assert(name@ =~= scope_name(file_identity@, scope_id as nat));
    name
}

} // verus!
