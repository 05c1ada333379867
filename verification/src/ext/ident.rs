//! The rule that claims one identifier.

use vstd::prelude::*;

use crate::parser::ParseError;
use crate::token::{leaf_parses, lemma_rest_after, Token, TokenIterator};
use proc_macro2::{Ident, TokenTree};

verus! {

/// What an identifier offers beyond the rule.
pub trait MitzvahIdentExt {
    /// The identifier's text.
    fn ident(&self) -> String;
}

impl MitzvahIdentExt for Ident {
    fn ident(&self) -> (name: String)
        ensures
            name@ == crate::pm::ident_text(*self),
    {
        crate::pm::ident_name(self)
    }
}

/// The ident in `node`, if `node` is one.
pub open spec fn as_ident(node: TokenTree) -> Option<Ident> {
    match node {
        TokenTree::Ident(value) => Some(value),
        _ => None,
    }
}

impl Token for Ident {
    open spec fn parses(
        before: Seq<TokenTree>,
        result: Result<Self, ParseError>,
        after: Seq<TokenTree>,
    ) -> bool {
        leaf_parses(|node: TokenTree| as_ident(node), "Ident"@, before, result, after)
    }

    open spec fn reconstructed(&self) -> Seq<TokenTree> {
        Seq::empty()
    }

    /// Takes the next node if it is an ident, and leaves the cursor alone
    /// otherwise.
    fn parse(parser: &mut TokenIterator) -> (result: Result<Self, ParseError>) {
        let result = match parser.peek() {
            Some(TokenTree::Ident(value)) => Ok(value),
            Some(value) => Err(
                ParseError::UnexpectedToken { span: value.span(), expected_token: "Ident" },
            ),
            None => Err(ParseError::EndOfStream),
        };
        if result.is_ok() {
            parser.next();
        }
        proof {
            lemma_rest_after(old(parser)@);
        }
        result
    }
}

} // verus!
