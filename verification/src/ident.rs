//! Identifiers and binding identity.

use vstd::prelude::*;

verus! {

/// A handle for a node that the transform carries along without looking into it.
pub type NodeId = u64;

/// The identity of a lexical binding: the symbol together with the syntax
/// context that scope resolution assigned to its declaration. Two variables
/// with the same symbol declared at different sites have different contexts,
/// so they are different bindings.
pub struct BindingId {
    pub sym: Seq<char>,
    pub ctxt: u32,
}

/// An identifier that refers to a binding.
#[derive(Debug, PartialEq, Eq)]
pub struct Ident {
    pub sym: String,
    pub ctxt: u32,
}

impl View for Ident {
    type V = BindingId;

    open spec fn view(&self) -> BindingId {
        BindingId { sym: self.sym@, ctxt: self.ctxt }
    }
}

impl Clone for Ident {
    fn clone(&self) -> (res: Self)
        ensures
            res@ == self@,
    {
        Ident { sym: self.sym.clone(), ctxt: self.ctxt }
    }
}

impl Ident {
    /// An identifier with the given symbol and syntax context.
    pub fn new(sym: &str, ctxt: u32) -> (res: Self)
        ensures
            res@ == (BindingId { sym: sym@, ctxt }),
    {
        Ident { sym: sym.to_owned(), ctxt }
    }

    /// Whether both identifiers refer to the same binding: same symbol and
    /// same syntax context.
    pub fn same_binding(&self, other: &Ident) -> (res: bool)
        ensures
            res == (self@ == other@),
    {
        let same = self.ctxt == other.ctxt && self.sym == other.sym;
        proof {
            if self.sym@ == other.sym@ && self.ctxt == other.ctxt {
                assert(self@ == other@);
            }
        }
        same
    }

    /// Whether the identifier's symbol is `name`, whatever its binding.
    pub fn has_symbol(&self, name: &str) -> (res: bool)
        ensures
            res == (self@.sym == name@),
    {
        symbol_is(&self.sym, name)
    }
}

/// A name that refers to no binding: a property key or an attribute name.
#[derive(Debug, PartialEq, Eq)]
pub struct IdentName {
    pub sym: String,
}

impl View for IdentName {
    type V = Seq<char>;

    open spec fn view(&self) -> Seq<char> {
        self.sym@
    }
}

impl Clone for IdentName {
    fn clone(&self) -> (res: Self)
        ensures
            res@ == self@,
    {
        IdentName { sym: self.sym.clone() }
    }
}

/// Whether the text of `sym` is exactly `name`.
pub fn symbol_is(sym: &String, name: &str) -> (res: bool)
    ensures
        res == (sym@ == name@),
{
    let wanted = name.to_owned();
    *sym == wanted
}

} // verus!
