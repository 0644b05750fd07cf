//! Attribute arguments are parsed by wrapping them, as the arguments of an
//! internal attribute, around an empty function that the Cairo parser reads.
use crate::tokens::{empty_stream, extend_stream, push_ident, stream_tokens};
use cairo_lang_macro::TokenStream;
use vstd::prelude::*;

verus! {

/// The internal attribute that carries the arguments.
pub const INTERNAL_ATTR_NAME: &'static str = "__SNFORGE_INTERNAL_ATTR__";

/// The empty function the internal attribute is put on.
pub const INTERNAL_FN: &'static str = "fn __SNFORGE_INTERNAL_FN__(){{}}";

/// `#[__SNFORGE_INTERNAL_ATTR__ <args>]` on an empty function.
pub open spec fn argument_probe_tokens(args: Seq<Seq<char>>) -> Seq<Seq<char>> {
    seq!["#["@, INTERNAL_ATTR_NAME@] + args + seq!["]\n"@, INTERNAL_FN@]
}

/// The source whose one function carries `args` as its attribute's arguments.
pub fn argument_probe(args: TokenStream) -> (r: TokenStream)
    ensures
        stream_tokens(r) == argument_probe_tokens(stream_tokens(args)),
{
    let mut r = empty_stream();
    push_ident(&mut r, "#[");
    push_ident(&mut r, INTERNAL_ATTR_NAME);
    extend_stream(&mut r, args);
    push_ident(&mut r, "]\n");
    push_ident(&mut r, INTERNAL_FN);
    assert(stream_tokens(r) =~= argument_probe_tokens(stream_tokens(args)));
    r
}

} // verus!
