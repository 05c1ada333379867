//! The token cursor and the protocol that every grammar rule implements.

use vstd::prelude::*;

use crate::parser::ParseError;
use crate::pm::collect_nodes;
use proc_macro2::{TokenStream, TokenTree};

verus! {

/// A forkable, single-pass cursor over the nodes of one token stream.
///
/// The cursor owns its nodes and a position among them. Its view is the
/// sequence of nodes that it has not handed out yet.
pub struct TokenIterator {
    nodes: Vec<TokenTree>,
    pos: usize,
}

/// The node that a cursor with the remaining nodes `rest` reads next.
pub open spec fn first_node(rest: Seq<TokenTree>) -> Option<TokenTree> {
    if rest.len() > 0 {
        Some(rest[0])
    } else {
        None
    }
}

/// What remains of `rest` after `steps` steps, each of which takes one node
/// while there is one.
pub open spec fn skip_nodes(rest: Seq<TokenTree>, steps: nat) -> Seq<TokenTree> {
    if steps <= rest.len() {
        rest.skip(steps as int)
    } else {
        Seq::empty()
    }
}

impl View for TokenIterator {
    type V = Seq<TokenTree>;

    closed spec fn view(&self) -> Seq<TokenTree> {
        self.nodes@.skip(self.pos as int)
    }
}

impl TokenIterator {
    #[verifier::type_invariant]
    spec fn in_bounds(self) -> bool {
        self.pos <= self.nodes.len()
    }

    /// A cursor at the start of `stream`.
    pub fn new(stream: TokenStream) -> (cursor: TokenIterator)
        ensures
            cursor@ == crate::pm::stream_nodes(stream),
    {
        let nodes = collect_nodes(stream);
        TokenIterator { nodes, pos: 0 }
    }

    /// A cursor over the given nodes.
    pub fn from_nodes(nodes: Vec<TokenTree>) -> (cursor: TokenIterator)
        ensures
            cursor@ == nodes@,
    {
        TokenIterator { nodes, pos: 0 }
    }

    /// A duplicate of the next node, without taking it.
    pub fn peek(&self) -> (node: Option<TokenTree>)
        ensures
            node == first_node(self@),
    {
        proof {
            use_type_invariant(self);
        }
        if self.pos < self.nodes.len() {
            Some(self.nodes[self.pos].clone())
        } else {
            None
        }
    }

    /// Takes the next node, if there is one.
    pub fn next(&mut self) -> (node: Option<TokenTree>)
        ensures
            node == first_node(old(self)@),
            final(self)@ == skip_nodes(old(self)@, 1),
    {
        proof {
            use_type_invariant(&*self);
        }
        if self.pos < self.nodes.len() {
            let node = self.nodes[self.pos].clone();
            self.pos = self.pos + 1;
            Some(node)
        } else {
            None
        }
    }

    /// An independent cursor over the nodes that this one still holds.
    ///
    /// The fork owns copies of those nodes: what is done to either cursor
    /// afterwards cannot reach the other.
    pub fn fork(&self) -> (forked: TokenIterator)
        ensures
            forked@ == self@,
    {
        proof {
            use_type_invariant(self);
        }
        let mut nodes: Vec<TokenTree> = Vec::new();
        let mut i: usize = self.pos;
        while i < self.nodes.len()
            invariant
                self.pos <= i <= self.nodes.len(),
                nodes@ == self.nodes@.subrange(self.pos as int, i as int),
            decreases self.nodes.len() - i,
        {
            nodes.push(self.nodes[i].clone());
            i = i + 1;
            assert(nodes@ =~= self.nodes@.subrange(self.pos as int, i as int));
        }
        assert(nodes@ =~= self.nodes@.skip(self.pos as int));
        TokenIterator { nodes, pos: 0 }
    }

    /// Steps over up to `steps` nodes: over all that are left, where fewer
    /// than `steps` are.
    pub fn advance(&mut self, steps: usize)
        ensures
            final(self)@ == skip_nodes(old(self)@, steps as nat),
    {
        proof {
            use_type_invariant(&*self);
        }
        let left: usize = self.nodes.len() - self.pos;
        if steps <= left {
            self.pos = self.pos + steps;
            assert(self@ =~= old(self)@.skip(steps as int));
        } else {
            self.pos = self.nodes.len();
            assert(self@ =~= Seq::<TokenTree>::empty());
        }
    }
}

/// Whether `rest` is what is left of `whole` after some nodes have been taken
/// from its front.
pub open spec fn is_rest_of(rest: Seq<TokenTree>, whole: Seq<TokenTree>) -> bool {
    exists|taken: nat| taken <= whole.len() && rest == #[trigger] skip_nodes(whole, taken)
}

/// Fork independence. A fork holds the nodes of its source, and a cursor's
/// reads and steps depend on nothing but the nodes it holds itself. So both
/// read the same next node; and when one of the two has stepped over `steps`
/// nodes, the other still holds what it held, and it will find after as many
/// steps of its own what the first one finds now.
pub proof fn lemma_fork_independence(source: TokenIterator, forked: TokenIterator, steps: nat)
    requires
        forked@ == source@,
    ensures
        first_node(forked@) == first_node(source@),
        skip_nodes(forked@, steps) == skip_nodes(source@, steps),
        first_node(skip_nodes(forked@, steps)) == first_node(skip_nodes(source@, steps)),
{
}

/// Stepping over nodes one at a time comes to the same as stepping over all
/// of them at once.
pub proof fn lemma_skip_nodes_add(rest: Seq<TokenTree>, first: nat, second: nat)
    ensures
        skip_nodes(skip_nodes(rest, first), second) == skip_nodes(rest, first + second),
{
    assert(skip_nodes(skip_nodes(rest, first), second) =~= skip_nodes(rest, first + second));
}

/// Taking no node, or the first of them, leaves a rest of what was there.
pub proof fn lemma_rest_after(whole: Seq<TokenTree>)
    ensures
        is_rest_of(whole, whole),
        is_rest_of(skip_nodes(whole, 1), whole),
        whole.len() > 0 ==> skip_nodes(whole, 1) == whole.skip(1),
{
    assert(whole =~= skip_nodes(whole, 0));
    if whole.len() > 0 {
        assert(is_rest_of(skip_nodes(whole, 1), whole));
    } else {
        assert(skip_nodes(whole, 1) =~= skip_nodes(whole, 0));
    }
}

/// A grammar rule: a type that claims a prefix of the nodes of a cursor.
pub trait Token: Sized {
    /// The rule itself: whether a cursor that holds `before` may answer
    /// `result` and be left holding `after`.
    spec fn parses(
        before: Seq<TokenTree>,
        result: Result<Self, ParseError>,
        after: Seq<TokenTree>,
    ) -> bool;

    /// Claims this rule's nodes from the front of the cursor.
    ///
    /// Nothing is rolled back: what the rule took before it failed stays
    /// taken. Whatever the outcome, the cursor is left on a suffix of the
    /// nodes it held.
    fn parse(parser: &mut TokenIterator) -> (result: Result<Self, ParseError>)
        ensures
            Self::parses(old(parser)@, result, final(parser)@),
            is_rest_of(final(parser)@, old(parser)@),
    ;

    /// Tries the rule `advance` nodes ahead, on a fork: the cursor itself is
    /// left as it was, whether the rule matched or not.
    fn peek(stream: &mut TokenIterator, advance: usize) -> (result: Result<Self, ParseError>)
        ensures
            final(stream)@ == old(stream)@,
            exists|after: Seq<TokenTree>|
                Self::parses(skip_nodes(old(stream)@, advance as nat), result, after),
    {
        let mut forked_stream = stream.fork();
        forked_stream.advance(advance);
        let result = Self::parse(&mut forked_stream);
        assert(Self::parses(skip_nodes(old(stream)@, advance as nat), result, forked_stream@));
        result
    }

    /// The nodes that stand for this value when it is written back.
    spec fn reconstructed(&self) -> Seq<TokenTree>;

    /// A stream of the nodes that stand for this value.
    ///
    /// The body given here serves the rules whose values stand for no
    /// nodes, and writes the empty stream. A rule that stands for nodes
    /// writes its own, and states there that the stream holds them.
    fn reconstruct(&self) -> (stream: TokenStream)
        ensures
            self.reconstructed().len() == 0 ==> crate::pm::stream_nodes(stream)
                == self.reconstructed(),
    {
        let stream = crate::pm::empty_stream();
        assert(self.reconstructed().len() == 0 ==> self.reconstructed() =~= Seq::<
            TokenTree,
        >::empty());
        stream
    }
}

/// The outcome of a rule that claims exactly one node: `claim` says which
/// nodes the rule accepts and what it makes of them, `name` is the name under
/// which the rule reports a node of another kind.
pub open spec fn leaf_parses<T>(
    claim: spec_fn(TokenTree) -> Option<T>,
    name: Seq<char>,
    before: Seq<TokenTree>,
    result: Result<T, ParseError>,
    after: Seq<TokenTree>,
) -> bool {
    match first_node(before) {
        None => after == before && result == Err::<T, ParseError>(ParseError::EndOfStream),
        Some(node) => match claim(node) {
            Some(value) => after == before.skip(1) && result == Ok::<T, ParseError>(value),
            None => after == before && result.is_err() && result->Err_0.is_unexpected(
                crate::pm::span_of(node),
                name,
            ),
        },
    }
}

/// The three outcomes of a leaf rule, one by one. On a node that the rule
/// accepts it answers what it makes of that node and the cursor is one node
/// further; on another node it reports that node under its name and the
/// cursor has not moved; on a cursor without nodes it reports the end, and
/// the cursor is still without nodes.
pub proof fn lemma_leaf_outcomes<T>(
    claim: spec_fn(TokenTree) -> Option<T>,
    name: Seq<char>,
    before: Seq<TokenTree>,
    result: Result<T, ParseError>,
    after: Seq<TokenTree>,
)
    requires
        leaf_parses(claim, name, before, result, after),
    ensures
        before.len() > 0 && claim(before[0]).is_some() ==> result == Ok::<T, ParseError>(
            claim(before[0]).unwrap(),
        ) && after == before.skip(1) && after.len() == before.len() - 1,
        before.len() > 0 && claim(before[0]).is_none() ==> result.is_err()
            && result->Err_0 is UnexpectedToken && result->Err_0->expected_token@ == name
            && after == before && first_node(after) == Some(before[0]),
        before.len() == 0 ==> result == Err::<T, ParseError>(ParseError::EndOfStream)
            && after.len() == 0,
        result.is_ok() <==> before.len() > 0 && claim(before[0]).is_some(),
{
}

} // verus!
