//! The rule that claims one delimited group.

use vstd::prelude::*;

use crate::parser::ParseError;
use crate::token::{leaf_parses, lemma_rest_after, Token, TokenIterator};
use proc_macro2::{Group, TokenTree};

verus! {

/// What a delimited group offers beyond the rule: nothing so far.
pub trait MitzvahGroupExt {
}

impl MitzvahGroupExt for Group {
}

/// The group in `node`, if `node` is one.
pub open spec fn as_group(node: TokenTree) -> Option<Group> {
    match node {
        TokenTree::Group(value) => Some(value),
        _ => None,
    }
}

impl Token for Group {
    open spec fn parses(
        before: Seq<TokenTree>,
        result: Result<Self, ParseError>,
        after: Seq<TokenTree>,
    ) -> bool {
        leaf_parses(|node: TokenTree| as_group(node), "Group"@, before, result, after)
    }

    open spec fn reconstructed(&self) -> Seq<TokenTree> {
        Seq::empty()
    }

    /// Takes the next node if it is a group, and leaves the cursor alone
    /// otherwise.
    fn parse(parser: &mut TokenIterator) -> (result: Result<Self, ParseError>) {
        let result = match parser.peek() {
            Some(TokenTree::Group(value)) => Ok(value),
            Some(value) => Err(
                ParseError::UnexpectedToken { span: value.span(), expected_token: "Group" },
            ),
            None => Err(ParseError::EndOfStream),
        };
        if result.is_ok() {
            parser.next();
        }
        proof {
            lemma_rest_after(old(parser)@);
        }
        result
    }
}

} // verus!
