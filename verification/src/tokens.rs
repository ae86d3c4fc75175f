//! Token streams: the form in which generated code is kept until it is written
//! out, and how the text of a path becomes one.

use proc_macro2::TokenStream;
use quote::ToTokens;
use vstd::prelude::*;

verus! {

/// A stream of tokens: the form in which generated code is kept until it is
/// written out.
#[verifier::external_type_specification]
#[verifier::external_body]
pub struct ExTokenStream(TokenStream);

/// The token trees of a stream, in order, each as the text that it is written
/// with.
pub uninterp spec fn token_trees(stream: TokenStream) -> Seq<Seq<char>>;

/// The token trees of the Rust path that `text` spells, or `None` where it
/// spells none, as `syn` reads it.
pub uninterp spec fn path_token_trees(text: Seq<char>) -> Option<Seq<Seq<char>>>;

/// `TokenStream::new` returns a stream that holds no token tree.
pub assume_specification[ TokenStream::new ]() -> (stream: TokenStream)
    ensures
        token_trees(stream).len() == 0,
;

/// `TokenStream::is_empty` tells whether the stream holds no token tree.
pub assume_specification[ TokenStream::is_empty ](stream: &TokenStream) -> (empty: bool)
    ensures
        empty == (token_trees(*stream).len() == 0),
;

/// Calls `Extend::<TokenStream>::extend` on `stream` with the one stream
/// `more`: its token trees are pushed to the end of `stream`, in order.
#[verifier::external_body]
pub(crate) fn extend(stream: &mut TokenStream, more: TokenStream)
    ensures
        token_trees(*final(stream)) == token_trees(*old(stream)) + token_trees(more),
{
    stream.extend(std::iter::once(more))
}

/// Calls `syn::parse_str::<syn::Path>` on `text` and hands on the tokens of the
/// path. The parser reads nothing but the text, so the tokens are those of the
/// path that `text` spells, and there are none exactly where it spells no path.
#[verifier::external_body]
pub(crate) fn parse_path(text: &str) -> (tokens: Option<TokenStream>)
    ensures
        match tokens {
            Some(stream) => path_token_trees(text@) == Some(token_trees(stream)),
            None => path_token_trees(text@) is None,
        },
{
    match syn::parse_str::<syn::Path>(text) {
        Ok(path) => Some(path.to_token_stream()),
        Err(_) => None,
    }
}

} // verus!
