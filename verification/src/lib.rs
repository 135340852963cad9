//! Compile-time array-initializer synthesis.
//!
//! Given the name of a pure function `f` and a length `n`, the library turns
//! the token sequence `f ; n` into the token sequence of the array-literal
//! expression `[f(0usize), f(1usize), ..., f(n-1usize),]`, ready to be spliced
//! into a constant context by a host compiler. Parsing of the invocation and
//! generation of the output are both specified and verified down to the token
//! level.

use vstd::prelude::*;

pub mod codegen;
pub mod decimal;
pub mod parse;
pub mod token;

use crate::codegen::{generate, spec_generate};
use crate::parse::{parse_invocation, spec_parse, InvocationView, ParseError};
use crate::token::{stream_view, TokenTree};

verus! {

/// The whole transformation: validates the raw token sequence of one
/// invocation and, on success, emits the output token sequence of the
/// array-literal expression. Returns `Ok` exactly on token sequences of the
/// shape `<identifier> ; <unsigned-integer-literal>`, and otherwise the
/// error of the first violated parsing checkpoint.
pub fn array_const_fn_init(input: &Vec<TokenTree>) -> (r: Result<Vec<TokenTree>, ParseError>)
    ensures
        match r {
            Ok(out) => {
                &&& spec_parse(stream_view(input@)) is Ok
                &&& stream_view(out@) == spec_generate(spec_parse(stream_view(input@))->Ok_0)
            },
            Err(e) => spec_parse(stream_view(input@)) == Err::<InvocationView, ParseError>(e),
        },
{
    match parse_invocation(input) {
        Ok(inv) => Ok(generate(&inv)),
        Err(e) => Err(e),
    }
}

} // verus!
