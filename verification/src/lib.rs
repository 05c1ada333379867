//! A small toolkit for token-level macro grammars: a forkable cursor over
//! token nodes and the `Token` protocol by which a grammar rule claims a
//! prefix of the nodes that a cursor still holds.

use vstd::prelude::*;

use crate::parser::ParseError;
use crate::token::TokenIterator;
use proc_macro2::TokenStream;

pub mod ext;
pub mod parser;
pub mod pm;
pub mod rules;
pub mod token;

verus! {

/// A macro in two steps: read the tokens of the call, then write the tokens
/// that take its place.
pub trait Macro: Sized {
    /// Reads the tokens of the macro call into the macro's own data.
    fn parse(token_stream: TokenIterator) -> Result<Self, ParseError>;

    /// Writes the tokens that replace the macro call.
    fn transform(data: Self) -> TokenStream;
}

} // verus!
