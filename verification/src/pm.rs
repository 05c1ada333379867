//! The token types of `proc_macro2`, handed on under this module's name, and
//! what the verifier has to know of them.
//!
//! A token tree is known by its four variants. The four node types inside it,
//! spans and whole streams are carried through as opaque values; what the
//! grammar rules read from them is named here and obtained through the
//! functions below, whose contracts are taken on trust.

use vstd::prelude::*;

pub use proc_macro2::{
    Delimiter, Group, Ident, LexError, Literal, Punct, Spacing, Span, TokenStream, TokenTree,
};
use syn::Lit;

verus! {

#[verifier::external_type_specification]
#[verifier::external_body]
pub struct ExGroup(proc_macro2::Group);

#[verifier::external_type_specification]
#[verifier::external_body]
pub struct ExIdent(proc_macro2::Ident);

#[verifier::external_type_specification]
#[verifier::external_body]
pub struct ExPunct(proc_macro2::Punct);

#[verifier::external_type_specification]
#[verifier::external_body]
pub struct ExLiteral(proc_macro2::Literal);

#[verifier::external_type_specification]
#[verifier::external_body]
pub struct ExSpan(proc_macro2::Span);

#[verifier::external_type_specification]
#[verifier::external_body]
pub struct ExTokenStream(proc_macro2::TokenStream);

#[verifier::external_type_specification]
pub struct ExTokenTree(proc_macro2::TokenTree);

#[verifier::external_type_specification]
pub struct ExSpacing(proc_macro2::Spacing);

/// The source position that a node reports: the result of
/// `proc_macro2::TokenTree::span`.
pub uninterp spec fn span_of(tree: TokenTree) -> Span;

/// The nodes of a stream, in order: what `proc_macro2::TokenStream::into_iter`
/// hands out.
pub uninterp spec fn stream_nodes(stream: TokenStream) -> Seq<TokenTree>;

/// The text of an identifier: what `to_string` gives for a
/// `proc_macro2::Ident`.
pub uninterp spec fn ident_text(ident: Ident) -> Seq<char>;

/// The character of a punctuation mark: the result of
/// `proc_macro2::Punct::as_char`.
pub uninterp spec fn punct_char(punct: Punct) -> char;

/// Whether a punctuation mark is joined to the next one: the result of
/// `proc_macro2::Punct::spacing`.
pub uninterp spec fn punct_spacing(punct: Punct) -> Spacing;

/// What `syn` reads a literal as: the variants of `syn::Lit`, and `Other` for
/// any that `syn` may add to them.
#[derive(Debug, Clone, Copy, PartialEq, Eq, Structural)]
pub enum LitShape {
    Str,
    ByteStr,
    CStr,
    Byte,
    Char,
    Int,
    Float,
    Bool,
    Verbatim,
    Other,
}

/// The text of a literal: what `to_string` gives for a
/// `proc_macro2::Literal`.
pub uninterp spec fn literal_text(literal: Literal) -> Seq<char>;

/// The variant of `syn::Lit` that `syn::Lit::new` makes of a literal with the
/// given text.
pub uninterp spec fn syn_shape(text: Seq<char>) -> LitShape;

/// The suffix that `syn::Lit::suffix` reports for a literal with the given
/// text.
pub uninterp spec fn syn_suffix(text: Seq<char>) -> Seq<char>;

/// `<proc_macro2::TokenTree as Clone>::clone`: the clone is derived, variant by
/// variant, and a cloned node stands for the same token as its source.
pub assume_specification[ <proc_macro2::TokenTree as Clone>::clone ](tree: &proc_macro2::TokenTree) -> (copy: proc_macro2::TokenTree)
    ensures
        copy == *tree,
;

/// `proc_macro2::TokenTree::span`: hands out the span that the node holds.
pub assume_specification[ proc_macro2::TokenTree::span ](tree: &proc_macro2::TokenTree) -> (span: proc_macro2::Span)
    ensures
        span == span_of(*tree),
;

/// `proc_macro2::Punct::as_char`: hands out the character that the mark
/// holds.
pub assume_specification[ proc_macro2::Punct::as_char ](punct: &proc_macro2::Punct) -> (mark: char)
    ensures
        mark == punct_char(*punct),
;

/// `proc_macro2::Punct::spacing`: hands out the spacing that the mark holds.
pub assume_specification[ proc_macro2::Punct::spacing ](punct: &proc_macro2::Punct) -> (spacing:
    proc_macro2::Spacing)
    ensures
        spacing == punct_spacing(*punct),
;

/// `to_string` on a `proc_macro2::Ident`: the identifier's text, as its
/// `Display` writes it.
#[verifier::external_body]
pub(crate) fn ident_name(ident: &Ident) -> (name: String)
    ensures
        name@ == ident_text(*ident),
{
    ident.to_string()
}

/// `to_string` on a `proc_macro2::Literal`: the literal's text, as its
/// `Display` writes it.
#[verifier::external_body]
pub(crate) fn literal_repr(literal: &Literal) -> (text: String)
    ensures
        text@ == literal_text(*literal),
{
    literal.to_string()
}

/// `syn::Lit::new`: reads the literal's text and decides from it alone which
/// variant of `syn::Lit` the literal becomes.
#[verifier::external_body]
pub(crate) fn lit_shape(literal: &Literal) -> (shape: LitShape)
    ensures
        shape == syn_shape(literal_text(*literal)),
{
    match Lit::new(literal.clone()) {
        Lit::Str(_) => LitShape::Str,
        Lit::ByteStr(_) => LitShape::ByteStr,
        Lit::CStr(_) => LitShape::CStr,
        Lit::Byte(_) => LitShape::Byte,
        Lit::Char(_) => LitShape::Char,
        Lit::Int(_) => LitShape::Int,
        Lit::Float(_) => LitShape::Float,
        Lit::Bool(_) => LitShape::Bool,
        Lit::Verbatim(_) => LitShape::Verbatim,
        _ => LitShape::Other,
    }
}

/// `syn::Lit::suffix`, on what `syn::Lit::new` makes of the literal: the
/// suffix that `syn` has split off the literal's text.
#[verifier::external_body]
pub(crate) fn lit_suffix(literal: &Literal) -> (suffix: String)
    ensures
        suffix@ == syn_suffix(literal_text(*literal)),
{
    Lit::new(literal.clone()).suffix().to_string()
}

/// `<Box<str> as From<&str>>::from`: a boxed copy of the text.
#[verifier::external_body]
pub(crate) fn boxed_str(text: &str) -> (boxed: Box<str>)
    ensures
        boxed@ == text@,
{
    Box::from(text)
}

/// `proc_macro2::TokenStream::into_iter`, collected: the nodes of the stream
/// in the order in which the iterator yields them.
#[verifier::external_body]
pub(crate) fn collect_nodes(stream: TokenStream) -> (nodes: Vec<TokenTree>)
    ensures
        nodes@ == stream_nodes(stream),
{
    stream.into_iter().collect()
}

/// `<proc_macro2::TokenStream as Default>::default`: a stream without nodes.
#[verifier::external_body]
pub(crate) fn empty_stream() -> (stream: TokenStream)
    ensures
        stream_nodes(stream) == Seq::<TokenTree>::empty(),
{
    TokenStream::default()
}

} // verus!
