//! The rule that claims one node of any kind.

use vstd::prelude::*;

use crate::parser::ParseError;
use crate::token::{leaf_parses, lemma_rest_after, Token, TokenIterator};
use proc_macro2::TokenTree;

verus! {

/// What a node of any kind offers beyond the rule: nothing so far.
pub trait MitzvahTokenTreeExt {
}

impl MitzvahTokenTreeExt for TokenTree {
}

impl Token for TokenTree {
    open spec fn parses(
        before: Seq<TokenTree>,
        result: Result<Self, ParseError>,
        after: Seq<TokenTree>,
    ) -> bool {
        leaf_parses(|node: TokenTree| Some(node), "TokenTree"@, before, result, after)
    }

    open spec fn reconstructed(&self) -> Seq<TokenTree> {
        Seq::empty()
    }

    /// Takes the next node, whatever it is.
    fn parse(parser: &mut TokenIterator) -> (result: Result<Self, ParseError>) {
        let result = match parser.peek() {
            Some(value) => Ok(value),
            None => Err(ParseError::EndOfStream),
        };
        if result.is_ok() {
            parser.next();
        }
        proof {
            lemma_rest_after(old(parser)@);
        }
        result
    }
}

} // verus!
