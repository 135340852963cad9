//! The input parser: validating the raw token sequence of one invocation as
//! `<identifier> ; <unsigned-integer-literal>`, with nothing before, between
//! or after.

use vstd::prelude::*;
use vstd::string::StringExecFns;
use crate::decimal::{parse_usize, spec_parse_usize};
use crate::token::{stream_view, Tok, TokenTree};

verus! {

/// Why an invocation was rejected. Each of the four parsing checkpoints has
/// its own variant; the first violated expectation aborts parsing.
#[derive(Clone, Copy, Debug, PartialEq, Eq, Structural)]
pub enum ParseError {
    /// The first token is absent or not an identifier.
    MissingFunctionName,
    /// The second token is absent or not the punctuation character `;`.
    MissingSeparator,
    /// The third token is absent, not a literal, or its text does not denote
    /// a non-negative machine-word integer.
    InvalidLengthLiteral,
    /// A token remains after the three expected ones.
    TrailingTokens,
}

/// The text naming the construct that a rejected invocation was missing.
pub open spec fn expected_text(e: ParseError) -> Seq<char> {
    match e {
        ParseError::MissingFunctionName => "expected a function name identifier"@,
        ParseError::MissingSeparator => "expected the separator `;` after the function name"@,
        ParseError::InvalidLengthLiteral => "expected an unsigned integer length literal"@,
        ParseError::TrailingTokens => "unexpected trailing tokens after the length"@,
    }
}

/// The token position at which each error is discovered.
pub open spec fn error_position(e: ParseError) -> int {
    match e {
        ParseError::MissingFunctionName => 0,
        ParseError::MissingSeparator => 1,
        ParseError::InvalidLengthLiteral => 2,
        ParseError::TrailingTokens => 3,
    }
}

/// The text naming a found token's kind, for diagnostics.
pub open spec fn token_kind_text(t: Tok) -> Seq<char> {
    match t {
        Tok::Ident(_) => "an identifier"@,
        Tok::Punct(_) => "a punctuation token"@,
        Tok::Literal(_) => "a literal"@,
        Tok::Group(_, _) => "a delimited group"@,
    }
}

/// The full diagnostic for a rejected invocation: the expected construct,
/// and the kind of token actually found at the failing position — or a note
/// that the input ended before it.
pub open spec fn spec_diagnostic(ts: Seq<Tok>, e: ParseError) -> Seq<char> {
    if error_position(e) < ts.len() {
        expected_text(e) + ", found "@ + token_kind_text(ts[error_position(e)])
    } else {
        expected_text(e) + "; input ended"@
    }
}

impl ParseError {
    /// A diagnostic naming the construct that was expected.
    pub fn message(&self) -> (r: &'static str)
        ensures
            r@ == expected_text(*self),
    {
        match self {
            ParseError::MissingFunctionName => "expected a function name identifier",
            ParseError::MissingSeparator => "expected the separator `;` after the function name",
            ParseError::InvalidLengthLiteral => "expected an unsigned integer length literal",
            ParseError::TrailingTokens => "unexpected trailing tokens after the length",
        }
    }
}

/// Builds the full diagnostic for a rejected invocation, exactly as
/// `spec_diagnostic` describes: what was expected, and what was actually
/// found at the failing position, or that the input ended before it.
pub fn diagnostic(tokens: &Vec<TokenTree>, e: ParseError) -> (r: String)
    ensures
        r@ == spec_diagnostic(stream_view(tokens@), e),
{
    let mut r = String::new();
    r.append(e.message());
    let position: usize = match e {
        ParseError::MissingFunctionName => 0,
        ParseError::MissingSeparator => 1,
        ParseError::InvalidLengthLiteral => 2,
        ParseError::TrailingTokens => 3,
    };
    if position < tokens.len() {
        r.append(", found ");
        let kind: &'static str = match &tokens[position] {
            TokenTree::Ident(_) => "an identifier",
            TokenTree::Punct(_) => "a punctuation token",
            TokenTree::Literal(_) => "a literal",
            TokenTree::Group(_, _) => "a delimited group",
        };
        r.append(kind);
    } else {
        r.append("; input ended");
    }
    proof {
        assert(r@ =~= spec_diagnostic(stream_view(tokens@), e));
    }
    r
}

/// A validated invocation: the function to apply and the requested length.
#[derive(Debug, PartialEq, Eq)]
pub struct Invocation {
    /// The text of the identifier naming the function.
    pub function_name: String,
    /// The number of elements to generate.
    pub length: usize,
}

/// The mathematical content of an invocation.
pub struct InvocationView {
    pub function_name: Seq<char>,
    pub length: usize,
}

impl View for Invocation {
    type V = InvocationView;

    open spec fn view(&self) -> InvocationView {
        InvocationView { function_name: self.function_name@, length: self.length }
    }
}

/// What parsing returns for each token sequence: the four checkpoints in
/// order, the first violated one naming the error.
pub open spec fn spec_parse(ts: Seq<Tok>) -> Result<InvocationView, ParseError> {
    if !(ts.len() >= 1 && ts[0] is Ident) {
        Err(ParseError::MissingFunctionName)
    } else if !(ts.len() >= 2 && ts[1] == Tok::Punct(';')) {
        Err(ParseError::MissingSeparator)
    } else if !(ts.len() >= 3 && ts[2] is Literal && spec_parse_usize(ts[2]->Literal_0) is Some) {
        Err(ParseError::InvalidLengthLiteral)
    } else if ts.len() != 3 {
        Err(ParseError::TrailingTokens)
    } else {
        Ok(
            InvocationView {
                function_name: ts[0]->Ident_0,
                length: spec_parse_usize(ts[2]->Literal_0)->Some_0,
            },
        )
    }
}

/// Validates the raw token sequence of one invocation, exactly as
/// `spec_parse` describes: `Ok` on `<identifier> ; <integer literal>` with
/// no further tokens, and otherwise the error of the first violated
/// checkpoint.
pub fn parse_invocation(tokens: &Vec<TokenTree>) -> (r: Result<Invocation, ParseError>)
    ensures
        match r {
            Ok(inv) => spec_parse(stream_view(tokens@)) == Ok::<InvocationView, ParseError>(inv@),
            Err(e) => spec_parse(stream_view(tokens@)) == Err::<InvocationView, ParseError>(e),
        },
{
    if tokens.len() == 0 {
        return Err(ParseError::MissingFunctionName);
    }
    let function_name: String = match &tokens[0] {
        TokenTree::Ident(s) => s.clone(),
        _ => {
            return Err(ParseError::MissingFunctionName);
        },
    };
    if tokens.len() == 1 {
        return Err(ParseError::MissingSeparator);
    }
    let separator_ok: bool = match &tokens[1] {
        TokenTree::Punct(c) => *c == ';',
        _ => false,
    };
    if !separator_ok {
        return Err(ParseError::MissingSeparator);
    }
    if tokens.len() == 2 {
        return Err(ParseError::InvalidLengthLiteral);
    }
    let length: usize = match &tokens[2] {
        TokenTree::Literal(text) => {
            match parse_usize(text.as_str()) {
                Some(v) => v,
                None => {
                    return Err(ParseError::InvalidLengthLiteral);
                },
            }
        },
        _ => {
            return Err(ParseError::InvalidLengthLiteral);
        },
    };
    if tokens.len() > 3 {
        return Err(ParseError::TrailingTokens);
    }
    Ok(Invocation { function_name, length })
}

} // verus!
