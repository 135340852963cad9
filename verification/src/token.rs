//! The token model: the lexical units the transformer consumes and emits,
//! together with their mathematical views.

use vstd::prelude::*;

verus! {

broadcast use vstd::std_specs::vec::axiom_vec_index_decreases;

/// The bracketing pair that encloses a grouped token.
#[derive(Clone, Copy, Debug, PartialEq, Eq, Structural)]
pub enum Delimiter {
    /// `( ... )`
    Parenthesis,
    /// `{ ... }`
    Brace,
    /// `[ ... ]`
    Bracket,
    /// An implicit grouping the lexer inserts without printable brackets.
    Invisible,
}

/// One lexical token: an identifier, a punctuation character, a literal, or a
/// delimited group of further tokens. A token sequence is a `Vec<TokenTree>`.
#[derive(Debug, PartialEq, Eq)]
pub enum TokenTree {
    /// An identifier, carrying its text.
    Ident(String),
    /// A single punctuation character.
    Punct(char),
    /// A literal token, carrying its text exactly as written.
    Literal(String),
    /// A delimited group of tokens.
    Group(Delimiter, Vec<TokenTree>),
}

/// The mathematical shape of a token: identifier and literal text as
/// character sequences, group contents as a sequence of shapes.
#[verifier::ext_equal]
pub enum Tok {
    Ident(Seq<char>),
    Punct(char),
    Literal(Seq<char>),
    Group(Delimiter, Seq<Tok>),
}

/// The shape of a single token.
pub open spec fn tt_view(t: TokenTree) -> Tok
    decreases t,
{
    match t {
        TokenTree::Ident(s) => Tok::Ident(s@),
        TokenTree::Punct(c) => Tok::Punct(c),
        TokenTree::Literal(s) => Tok::Literal(s@),
        // The range guard serves the termination check alone: `Seq::new`
        // never applies its closure outside `0 .. ts.len()`.
        TokenTree::Group(d, ts) => Tok::Group(
            d,
            Seq::new(
                ts@.len(),
                |i: int|
                    if 0 <= i < ts.len() {
                        tt_view(ts[i])
                    } else {
                        Tok::Punct(' ')
                    },
            ),
        ),
    }
}

/// The shape of a token sequence.
pub open spec fn stream_view(ts: Seq<TokenTree>) -> Seq<Tok> {
    Seq::new(ts.len(), |i: int| tt_view(ts[i]))
}

impl View for TokenTree {
    type V = Tok;

    open spec fn view(&self) -> Tok {
        tt_view(*self)
    }
}

/// The shape of a grouped token is the group of its contents' shapes.
pub proof fn lemma_group_view(d: Delimiter, ts: Vec<TokenTree>)
    ensures
        tt_view(TokenTree::Group(d, ts)) == Tok::Group(d, stream_view(ts@)),
{
    let v = tt_view(TokenTree::Group(d, ts));
    assert(v is Group);
    assert(v->Group_0 == d);
    assert(v->Group_1.len() == ts@.len());
    assert forall|i: int| 0 <= i < ts@.len() implies v->Group_1[i] == tt_view(ts@[i]) by {
        assert(ts[i] == ts@[i]);
    }
    assert(v->Group_1 =~= stream_view(ts@));
    assert(v =~~= Tok::Group(d, stream_view(ts@)));
}

} // verus!
