//! The leaf rules, one for each kind of node, and what each node type
//! offers beyond them.

pub mod debug_text;
pub mod group;
pub mod ident;
pub mod literal;
pub mod punct;
pub mod token_tree;
