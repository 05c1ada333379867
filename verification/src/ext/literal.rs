//! The rule that claims one literal, and the classification of literals.

use vstd::prelude::*;
use vstd::string::StringSliceAdditionalSpecFns;
use vstd::utf8::encode_utf8;

use crate::parser::ParseError;
use crate::pm::{boxed_str, lit_shape, lit_suffix, literal_repr, literal_text, syn_shape, syn_suffix, LitShape};
use crate::token::{leaf_parses, lemma_rest_after, Token, TokenIterator};
use proc_macro2::{Literal, TokenTree};

verus! {

/// The kind of a literal. The raw string kinds carry the number of `#` marks
/// on either side of the string.
#[derive(Debug, Clone, PartialEq, Eq, PartialOrd, Ord, Structural)]
pub enum LiteralKind {
    Byte,
    Char,
    Integer,
    Float,
    Str,
    StrRaw(u8),
    ByteStr,
    ByteStrRaw(u8),
    CStr,
    CStrRaw(u8),
    Bool,
    Error,
}

/// The number of `#` bytes in `bytes` that stand before its first `"` byte:
/// in all of `bytes`, where it holds no `"`.
pub open spec fn hashes_before_quote(bytes: Seq<u8>) -> nat
    decreases bytes.len(),
{
    if bytes.len() == 0 || bytes[0] == 0x22u8 {
        0
    } else if bytes[0] == 0x23u8 {
        1 + hashes_before_quote(bytes.skip(1))
    } else {
        hashes_before_quote(bytes.skip(1))
    }
}

fn count_hashes(literal: &str) -> (depth: usize)
    ensures
        depth == hashes_before_quote(literal.spec_bytes()),
{
    let bytes = literal.as_bytes();
    let mut depth: usize = 0;
    let mut i: usize = 0;
    assert(bytes@.skip(0) =~= bytes@);
    while i < bytes.len()
        invariant
            bytes@ == literal.spec_bytes(),
            i <= bytes.len(),
            depth <= i,
            depth + hashes_before_quote(bytes@.skip(i as int)) == hashes_before_quote(bytes@),
        decreases bytes.len() - i,
    {
        let byte: u8 = bytes[i];
        assert(bytes@.skip(i as int)[0] == byte);
        assert(bytes@.skip(i as int).skip(1) =~= bytes@.skip(i + 1));
        if byte == 0x22u8 {
            assert(hashes_before_quote(bytes@.skip(i as int)) == 0);
            return depth;
        }
        if byte == 0x23u8 {
            depth = depth + 1;
        }
        i = i + 1;
    }
    depth
}

/// The depth of a raw string literal: the number of `#` marks before its
/// opening quote.
pub fn get_literal_raw_depth(literal: &str) -> (depth: u8)
    requires
        hashes_before_quote(literal.spec_bytes()) <= u8::MAX,
    ensures
        depth == hashes_before_quote(literal.spec_bytes()),
{
    count_hashes(literal) as u8
}

/// The depth of a raw string literal, where it fits into a byte.
pub fn checked_literal_raw_depth(literal: &str) -> (depth: Option<u8>)
    ensures
        depth == if hashes_before_quote(literal.spec_bytes()) <= u8::MAX {
            Some(hashes_before_quote(literal.spec_bytes()) as u8)
        } else {
            None
        },
{
    if count_hashes(literal) <= 255 {
        Some(get_literal_raw_depth(literal))
    } else {
        None
    }
}

/// The depth of the raw literal text `bytes` as `raw` wraps it, or `Error`
/// where the depth does not fit into a byte.
pub open spec fn raw_kind(raw: spec_fn(u8) -> LiteralKind, bytes: Seq<u8>) -> LiteralKind {
    if hashes_before_quote(bytes) <= u8::MAX {
        raw(hashes_before_quote(bytes) as u8)
    } else {
        LiteralKind::Error
    }
}

/// The kind of the literal with the text `bytes` that the tokenizer's reading
/// of it, `shape`, stands for. String and byte string literals are raw where
/// their text starts with `r` and `br`.
pub open spec fn kind_of(shape: LitShape, bytes: Seq<u8>) -> LiteralKind {
    match shape {
        LitShape::Str => if bytes.len() >= 1 && bytes[0] == 0x72u8 {
            raw_kind(|depth: u8| LiteralKind::StrRaw(depth), bytes)
        } else {
            LiteralKind::Str
        },
        LitShape::ByteStr => if bytes.len() >= 2 && bytes[0] == 0x62u8 && bytes[1] == 0x72u8 {
            raw_kind(|depth: u8| LiteralKind::ByteStrRaw(depth), bytes)
        } else {
            LiteralKind::ByteStr
        },
        LitShape::Byte => LiteralKind::Byte,
        LitShape::Char => LiteralKind::Char,
        LitShape::Int => LiteralKind::Integer,
        LitShape::Float => LiteralKind::Float,
        LitShape::Bool => LiteralKind::Bool,
        _ => LiteralKind::Error,
    }
}

/// The kind of a literal, from its text and from what the tokenizer's
/// reading of it has found.
pub fn classify(shape: LitShape, text: &str) -> (kind: LiteralKind)
    ensures
        kind == kind_of(shape, text.spec_bytes()),
{
    let bytes = text.as_bytes();
    match shape {
        LitShape::Str => {
            if bytes.len() >= 1 && bytes[0] == 0x72u8 {
                match checked_literal_raw_depth(text) {
                    Some(depth) => LiteralKind::StrRaw(depth),
                    None => LiteralKind::Error,
                }
            } else {
                LiteralKind::Str
            }
        },
        LitShape::ByteStr => {
            if bytes.len() >= 2 && bytes[0] == 0x62u8 && bytes[1] == 0x72u8 {
                match checked_literal_raw_depth(text) {
                    Some(depth) => LiteralKind::ByteStrRaw(depth),
                    None => LiteralKind::Error,
                }
            } else {
                LiteralKind::ByteStr
            }
        },
        LitShape::Byte => LiteralKind::Byte,
        LitShape::Char => LiteralKind::Char,
        LitShape::Int => LiteralKind::Integer,
        LitShape::Float => LiteralKind::Float,
        LitShape::Bool => LiteralKind::Bool,
        _ => LiteralKind::Error,
    }
}

/// Whether `suffix` is the answer for a literal whose suffix text is `text`:
/// none for an empty text, the text itself otherwise.
pub open spec fn is_suffix_of(suffix: Option<Box<str>>, text: Seq<char>) -> bool {
    match suffix {
        None => text.len() == 0,
        Some(found) => text.len() > 0 && found@ == text,
    }
}

/// The suffix of a literal, from the suffix text that the tokenizer's
/// reading of it has found.
pub fn suffix_from(text: &str) -> (suffix: Option<Box<str>>)
    ensures
        is_suffix_of(suffix, text@),
{
    if text.is_empty() {
        None
    } else {
        Some(boxed_str(text))
    }
}

/// What a literal offers beyond the rule.
pub trait MitzvahLiteralExt {
    /// The kind of the literal.
    fn kind(&self) -> LiteralKind;

    /// The suffix of the literal, such as `usize` in `1usize`, if it has one.
    fn suffix(&self) -> Option<Box<str>>;
}

impl MitzvahLiteralExt for Literal {
    fn kind(&self) -> (kind: LiteralKind)
        ensures
            kind == kind_of(
                syn_shape(literal_text(*self)),
                encode_utf8(literal_text(*self)),
            ),
    {
        let shape = lit_shape(self);
        let text = literal_repr(self);
        classify(shape, text.as_str())
    }

    fn suffix(&self) -> (suffix: Option<Box<str>>)
        ensures
            is_suffix_of(suffix, syn_suffix(literal_text(*self))),
    {
        let text = lit_suffix(self);
        suffix_from(text.as_str())
    }
}

/// The literal in `node`, if `node` is one.
pub open spec fn as_literal(node: TokenTree) -> Option<Literal> {
    match node {
        TokenTree::Literal(value) => Some(value),
        _ => None,
    }
}

impl Token for Literal {
    open spec fn parses(
        before: Seq<TokenTree>,
        result: Result<Self, ParseError>,
        after: Seq<TokenTree>,
    ) -> bool {
        leaf_parses(|node: TokenTree| as_literal(node), "Literal"@, before, result, after)
    }

    open spec fn reconstructed(&self) -> Seq<TokenTree> {
        Seq::empty()
    }

    /// Takes the next node if it is a literal, and leaves the cursor alone
    /// otherwise.
    fn parse(parser: &mut TokenIterator) -> (result: Result<Self, ParseError>) {
        let result = match parser.peek() {
            Some(TokenTree::Literal(value)) => Ok(value),
            Some(value) => Err(
                ParseError::UnexpectedToken { span: value.span(), expected_token: "Literal" },
            ),
            None => Err(ParseError::EndOfStream),
        };
        if result.is_ok() {
            parser.next();
        }
        proof {
            lemma_rest_after(old(parser)@);
        }
        result
    }
}

} // verus!
