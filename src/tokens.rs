//! Cairo token streams, as the macro interface of `cairo_lang_macro` defines them.
use cairo_lang_macro::{TextSpan, Token, TokenStream, TokenTree};
use vstd::prelude::*;

verus! {

#[verifier::external_type_specification]
#[verifier::external_body]
pub struct ExTokenStream(TokenStream);

/// The contents of each token of a stream, in order.
pub uninterp spec fn stream_tokens(ts: TokenStream) -> Seq<Seq<char>>;

/// The text a stream prints as: the contents of its tokens, one after another.
pub open spec fn tokens_text(tokens: Seq<Seq<char>>) -> Seq<char>
    decreases tokens.len(),
{
    if tokens.len() == 0 {
        Seq::empty()
    } else {
        tokens_text(tokens.drop_last()) + tokens.last()
    }
}

/// Relies on `TokenStream::empty`: a stream with no tokens.
#[verifier::external_body]
pub(crate) fn empty_stream() -> (r: TokenStream)
    ensures
        stream_tokens(r) == Seq::<Seq<char>>::empty(),
{
    TokenStream::empty()
}

/// Relies on `TokenStream::push_token` with `Token::new` at the call site:
/// one identifier token holding `content` is added at the end.
#[verifier::external_body]
pub(crate) fn push_ident(ts: &mut TokenStream, content: &str)
    ensures
        stream_tokens(*final(ts)) == stream_tokens(*old(ts)).push(content@),
{
    ts.push_token(TokenTree::Ident(Token::new(content, TextSpan::call_site())));
}

/// Relies on `Extend<TokenTree> for TokenStream`: the tokens of `other` are
/// added at the end, in order.
#[verifier::external_body]
pub(crate) fn extend_stream(ts: &mut TokenStream, other: TokenStream)
    ensures
        stream_tokens(*final(ts)) == stream_tokens(*old(ts)) + stream_tokens(other),
{
    ts.extend(other.into_iter());
}

/// Relies on `Display for TokenStream`, which writes the content of each token
/// in order with nothing between them.
#[verifier::external_body]
pub(crate) fn stream_text(ts: &TokenStream) -> (r: String)
    ensures
        r@ == tokens_text(stream_tokens(*ts)),
{
    ts.to_string()
}

} // verus!
