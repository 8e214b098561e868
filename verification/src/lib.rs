//! Lexical style scoping: a rewrite pass that gives every function scope of a
//! file a stable scope name and injects it into tagged templates, scope-name
//! reads and intrinsic markup elements.

pub mod bindings;
pub mod class_name;
pub mod expr;
pub mod ident;
pub mod jsx;
pub mod laws;
pub mod markup;
pub mod module;
pub mod rewrite;
pub mod scope_name;
pub mod state;
pub mod transform;
pub mod tree;
pub mod utils;
pub mod walk;
