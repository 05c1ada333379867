//! The rule that claims one punctuation mark.

use vstd::prelude::*;

use crate::parser::ParseError;
use crate::token::{leaf_parses, lemma_rest_after, Token, TokenIterator};
use proc_macro2::{Punct, TokenTree};

verus! {

/// What a punctuation mark offers beyond the rule.
pub trait MitzvahPunctExt {
    /// The mark's character.
    fn ch(&self) -> char;
}

impl MitzvahPunctExt for Punct {
    fn ch(&self) -> (mark: char)
        ensures
            mark == crate::pm::punct_char(*self),
    {
        self.as_char()
    }
}

/// The punct in `node`, if `node` is one.
pub open spec fn as_punct(node: TokenTree) -> Option<Punct> {
    match node {
        TokenTree::Punct(value) => Some(value),
        _ => None,
    }
}

impl Token for Punct {
    open spec fn parses(
        before: Seq<TokenTree>,
        result: Result<Self, ParseError>,
        after: Seq<TokenTree>,
    ) -> bool {
        leaf_parses(|node: TokenTree| as_punct(node), "Punct"@, before, result, after)
    }

    open spec fn reconstructed(&self) -> Seq<TokenTree> {
        Seq::empty()
    }

    /// Takes the next node if it is a punct, and leaves the cursor alone
    /// otherwise.
    fn parse(parser: &mut TokenIterator) -> (result: Result<Self, ParseError>) {
        let result = match parser.peek() {
            Some(TokenTree::Punct(value)) => Ok(value),
            Some(value) => Err(
                ParseError::UnexpectedToken { span: value.span(), expected_token: "Punct" },
            ),
            None => Err(ParseError::EndOfStream),
        };
        if result.is_ok() {
            parser.next();
        }
        proof {
            lemma_rest_after(old(parser)@);
        }
        result
    }
}

} // verus!
