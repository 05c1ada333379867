//! Parse failures, and the cursor's side of the grammar-rule protocol.

use vstd::prelude::*;

use crate::token::{is_rest_of, skip_nodes, Token, TokenIterator};
use proc_macro2::{Span, TokenTree};

verus! {

/// Why a rule did not match.
#[derive(Debug)]
pub enum ParseError {
    /// The next node is not one that the rule accepts.
    UnexpectedToken {
        /// Where the offending node stands in the source.
        span: Span,
        /// The name of the rule that was tried.
        expected_token: &'static str,
    },
    /// The rule needs a node and the cursor has none left.
    EndOfStream,
    /// A failure of a rule's own making, outside the protocol.
    Unknown,
}

impl ParseError {
    /// Whether this is the report that the rule `name` met a node at `span`
    /// which it does not accept.
    pub open spec fn is_unexpected(self, span: Span, name: Seq<char>) -> bool {
        match self {
            ParseError::UnexpectedToken { span: at, expected_token } => at == span
                && expected_token@ == name,
            _ => false,
        }
    }
}

/// What a cursor offers to the rules that read from it.
///
/// The view of such a cursor is the sequence of nodes that it still holds.
pub trait MitzvahParser: View<V = Seq<TokenTree>> {
    /// Claims the nodes of rule `T` from the front of the cursor.
    fn parse<T>(&mut self) -> (result: Result<T, ParseError>) where T: Token
        ensures
            T::parses(old(self)@, result, final(self)@),
            is_rest_of(final(self)@, old(self)@),
    ;

    /// Tries rule `T` on a fork, `advance` nodes ahead; the cursor stays as
    /// it was.
    fn peek<T>(&mut self, advance: usize) -> (result: Result<T, ParseError>) where T: Token
        ensures
            final(self)@ == old(self)@,
            exists|after: Seq<TokenTree>|
                T::parses(skip_nodes(old(self)@, advance as nat), result, after),
    ;

    /// Whether a node is left.
    fn has_next(&mut self) -> (more: bool)
        ensures
            more == (old(self)@.len() > 0),
            final(self)@ == old(self)@,
    ;
}

impl MitzvahParser for TokenIterator {
    fn parse<T>(&mut self) -> (result: Result<T, ParseError>) where T: Token {
        T::parse(self)
    }

    fn peek<T>(&mut self, advance: usize) -> (result: Result<T, ParseError>) where T: Token {
        T::peek(self, advance)
    }

    fn has_next(&mut self) -> (more: bool) {
        TokenIterator::peek(self).is_some()
    }
}

} // verus!
