//! Rules built on the leaf rules: a run of punctuation marks that are written
//! without space between them, such as `+=` or `..=`, and a macro that asks
//! for one literal.

use vstd::prelude::*;

use crate::parser::{MitzvahParser, ParseError};
use crate::ext::literal::as_literal;
use crate::pm::{empty_stream, punct_spacing, span_of, stream_nodes};
use crate::token::{first_node, is_rest_of, skip_nodes, Token, TokenIterator};
use crate::Macro;
use proc_macro2::{Literal, Punct, Spacing, TokenStream, TokenTree};

verus! {

/// The marks of one operator: each but the last is joined to the one after
/// it, and the last stands alone unless the nodes ended with it.
#[derive(Debug)]
pub struct MultiPunct {
    pub puncts: Vec<Punct>,
}

/// Whether `node` is a punctuation mark that is joined to the next one.
pub open spec fn is_joint(node: TokenTree) -> bool {
    match node {
        TokenTree::Punct(punct) => punct_spacing(punct) == Spacing::Joint,
        _ => false,
    }
}

/// The number of joined punctuation marks with which `nodes` starts.
pub open spec fn joint_run(nodes: Seq<TokenTree>) -> nat
    decreases nodes.len(),
{
    if nodes.len() > 0 && is_joint(nodes[0]) {
        1 + joint_run(nodes.skip(1))
    } else {
        0
    }
}

/// The marks as the nodes that hold them.
pub open spec fn as_nodes(puncts: Seq<Punct>) -> Seq<TokenTree> {
    puncts.map_values(|punct: Punct| TokenTree::Punct(punct))
}

/// Where the first `count` nodes are joined marks, the run of joined marks
/// goes on behind them.
pub proof fn lemma_joint_run_split(nodes: Seq<TokenTree>, count: nat)
    requires
        count <= nodes.len(),
        forall|i: int| 0 <= i < count ==> is_joint(#[trigger] nodes[i]),
    ensures
        joint_run(nodes) == count + joint_run(nodes.skip(count as int)),
    decreases count,
{
    if count == 0 {
        assert(nodes.skip(0) =~= nodes);
    } else {
        let rest = nodes.skip(1);
        assert(is_joint(nodes[0]));
        assert forall|i: int| 0 <= i < count - 1 implies is_joint(#[trigger] rest[i]) by {
            assert(rest[i] == nodes[i + 1]);
        }
        lemma_joint_run_split(rest, (count - 1) as nat);
        assert(rest.skip(count - 1) =~= nodes.skip(count as int));
    }
}

impl Token for MultiPunct {
    /// The rule takes the joined marks at the front and the node behind
    /// them. That node ends the operator if it is a mark; if it is anything
    /// else the rule fails on it, and the joined marks stay taken. Where the
    /// nodes end with the run, the run is the operator; where there is no
    /// node at all, the rule reports the end of the stream.
    open spec fn parses(
        before: Seq<TokenTree>,
        result: Result<Self, ParseError>,
        after: Seq<TokenTree>,
    ) -> bool {
        let run = joint_run(before);
        if run >= before.len() {
            &&& after == Seq::<TokenTree>::empty()
            &&& if before.len() == 0 {
                result == Err::<Self, ParseError>(ParseError::EndOfStream)
            } else {
                &&& result.is_ok()
                &&& as_nodes(result->Ok_0.puncts@) == before
            }
        } else {
            match before[run as int] {
                TokenTree::Punct(_) => {
                    &&& after == before.skip(run as int + 1)
                    &&& result.is_ok()
                    &&& as_nodes(result->Ok_0.puncts@) == before.take(run as int + 1)
                },
                other => {
                    &&& after == before.skip(run as int)
                    &&& result.is_err()
                    &&& result->Err_0.is_unexpected(span_of(other), "Punct"@)
                },
            }
        }
    }

    open spec fn reconstructed(&self) -> Seq<TokenTree> {
        Seq::empty()
    }

    fn parse(parser: &mut TokenIterator) -> (result: Result<Self, ParseError>) {
        let mut punctuations: Vec<Punct> = Vec::new();
        let ghost before = parser@;
        let ghost mut ended = false;
        proof {
            assert(before.skip(0) =~= before);
        }
        while parser.has_next()
            invariant_except_break
                !ended,
            invariant
                before == old(parser)@,
                !ended ==> punctuations@.len() <= before.len(),
                !ended ==> parser@ == before.skip(punctuations@.len() as int),
                !ended ==> forall|i: int|
                    0 <= i < punctuations@.len() ==> is_joint(#[trigger] before[i])
                        && before[i] == TokenTree::Punct(punctuations@[i]),
                ended ==> punctuations@.len() > 0,
                ended ==> is_rest_of(parser@, before),
                ended ==> Self::parses(
                    before,
                    Ok::<Self, ParseError>(MultiPunct { puncts: punctuations }),
                    parser@,
                ),
            ensures
                ended || parser@.len() == 0,
            decreases parser@.len(),
        {
            let ghost taken = punctuations@.len();
            proof {
                lemma_joint_run_split(before, taken);
                assert(parser@[0] == before[taken as int]);
            }
            let punct = match parser.parse::<Punct>() {
                Ok(punct) => punct,
                Err(error) => {
                    proof {
                        assert(parser@ == skip_nodes(before, taken));
                    }
                    return Err(error);
                },
            };
            let alone = match punct.spacing() {
                Spacing::Alone => true,
                Spacing::Joint => false,
            };
            punctuations.push(punct);
            proof {
                assert(parser@ =~= before.skip(taken as int + 1));
                assert(parser@ == skip_nodes(before, taken + 1));
            }
            if alone {
                proof {
                    assert(as_nodes(punctuations@) =~= before.take(taken as int + 1));
                    ended = true;
                }
                break ;
            }
        }
        proof {
            if !ended {
                let taken = punctuations@.len();
                lemma_joint_run_split(before, taken);
                assert(parser@ =~= Seq::<TokenTree>::empty());
                assert(as_nodes(punctuations@) =~= before);
                assert(parser@ == skip_nodes(before, taken));
            }
        }
        if punctuations.len() == 0 {
            Err(ParseError::EndOfStream)
        } else {
            Ok(MultiPunct { puncts: punctuations })
        }
    }
}

/// A macro that takes a call which starts with a literal, and expands to
/// nothing.
pub struct CoolMacro {
    pub data: TokenStream,
}

impl Macro for CoolMacro {
    /// Succeeds where the first node is a literal, with an empty expansion;
    /// fails as the literal rule does where it is not.
    fn parse(token_stream: TokenIterator) -> (result: Result<CoolMacro, ParseError>)
        ensures
            match result {
                Ok(parsed) => first_node(token_stream@).is_some() && as_literal(
                    first_node(token_stream@).unwrap(),
                ).is_some() && stream_nodes(parsed.data) == Seq::<TokenTree>::empty(),
                Err(error) => Literal::parses(
                    token_stream@,
                    Err::<Literal, ParseError>(error),
                    token_stream@,
                ),
            },
    {
        let mut tokens = token_stream;
        match tokens.parse::<Literal>() {
            Ok(_) => Ok(CoolMacro { data: empty_stream() }),
            Err(error) => Err(error),
        }
    }

    /// The expansion that `parse` has prepared.
    fn transform(data: Self) -> (stream: TokenStream)
        ensures
            stream == data.data,
    {
        data.data
    }
}

} // verus!
