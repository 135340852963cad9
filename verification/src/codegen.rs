//! The code generator: emitting, for a validated invocation, the token
//! sequence of the array-literal expression
//! `[f(0usize), f(1usize), ..., f(n-1usize),]`.

use vstd::prelude::*;
use vstd::string::StringExecFns;
use crate::decimal::{dec_str, dec_val, lemma_dec_str_round_trip, push_decimal};
use crate::parse::{Invocation, InvocationView};
use crate::token::{lemma_group_view, stream_view, Delimiter, Tok, TokenTree};

verus! {

/// The text of the index literal for position `i`: the decimal numeral of
/// `i` followed by the machine-word type suffix.
pub open spec fn index_literal_text(i: nat) -> Seq<char> {
    dec_str(i) + "usize"@
}

/// The three tokens of one generated element: the function name, the
/// parenthesized index literal, and the separating comma that follows every
/// element.
pub open spec fn spec_element(name: Seq<char>, i: nat) -> Seq<Tok> {
    seq![
        Tok::Ident(name),
        Tok::Group(Delimiter::Parenthesis, seq![Tok::Literal(index_literal_text(i))]),
        Tok::Punct(','),
    ]
}

/// The elements for indices `0 .. n`, in ascending order.
pub open spec fn spec_elements(name: Seq<char>, n: nat) -> Seq<Tok>
    decreases n,
{
    if n == 0 {
        Seq::empty()
    } else {
        spec_elements(name, (n - 1) as nat) + spec_element(name, (n - 1) as nat)
    }
}

/// The whole output: a single bracketed group holding the elements.
pub open spec fn spec_generate(inv: InvocationView) -> Seq<Tok> {
    seq![Tok::Group(Delimiter::Bracket, spec_elements(inv.function_name, inv.length as nat))]
}

/// Builds the index literal for position `i`: the decimal numeral of `i`
/// with the machine-word type suffix appended.
fn index_literal(i: usize) -> (text: String)
    ensures
        text@ == index_literal_text(i as nat),
{
    let mut text = String::new();
    push_decimal(&mut text, i);
    text.append("usize");
    proof {
        assert(text@ =~= index_literal_text(i as nat));
    }
    text
}

/// Emits the output token sequence of a validated invocation, exactly as
/// `spec_generate` describes. The generator is total: every invocation,
/// including one of length zero, yields a well-formed bracketed group.
pub fn generate(inv: &Invocation) -> (out: Vec<TokenTree>)
    ensures
        stream_view(out@) == spec_generate(inv@),
{
    let mut elems: Vec<TokenTree> = Vec::new();
    proof {
        assert(stream_view(elems@) =~= spec_elements(inv.function_name@, 0));
    }
    let mut i: usize = 0;
    while i < inv.length
        invariant
            i <= inv.length,
            stream_view(elems@) == spec_elements(inv.function_name@, i as nat),
        decreases inv.length - i,
    {
        let ghost elems0 = elems@;
        elems.push(TokenTree::Ident(inv.function_name.clone()));
        let text = index_literal(i);
        let mut inner: Vec<TokenTree> = Vec::new();
        inner.push(TokenTree::Literal(text));
        proof {
            lemma_group_view(Delimiter::Parenthesis, inner);
            assert(stream_view(inner@) =~= seq![Tok::Literal(index_literal_text(i as nat))]);
        }
        elems.push(TokenTree::Group(Delimiter::Parenthesis, inner));
        elems.push(TokenTree::Punct(','));
        proof {
            assert(stream_view(elems@) =~= spec_elements(inv.function_name@, i as nat)
                + spec_element(inv.function_name@, i as nat));
        }
        i = i + 1;
    }
    let mut out: Vec<TokenTree> = Vec::new();
    proof {
        lemma_group_view(Delimiter::Bracket, elems);
    }
    out.push(TokenTree::Group(Delimiter::Bracket, elems));
    proof {
        assert(stream_view(out@) =~= spec_generate(inv@));
    }
    out
}

/// The generated elements, element by element: `n` call expressions of
/// three tokens each, the one at position `i` applying the function name to
/// the index literal for `i`.
proof fn lemma_elements_structure(name: Seq<char>, n: nat, i: nat)
    requires
        i < n,
    ensures
        spec_elements(name, n).len() == 3 * n,
        spec_elements(name, n)[3 * i as int] == Tok::Ident(name),
        spec_elements(name, n)[3 * i as int + 1] == Tok::Group(
            Delimiter::Parenthesis,
            seq![Tok::Literal(index_literal_text(i))],
        ),
        spec_elements(name, n)[3 * i as int + 2] == Tok::Punct(','),
    decreases n,
{
    lemma_elements_len(name, n);
    lemma_elements_len(name, (n - 1) as nat);
    if i < n - 1 {
        lemma_elements_structure(name, (n - 1) as nat, i);
    }
}

/// The law of the generated output, for every invocation and every position
/// `i` below the requested length: the output is one bracketed group of
/// exactly `3 * length` tokens forming `length` call expressions in
/// ascending, contiguous, zero-based index order, and the expression at
/// position `i` applies the function name to the parenthesized index
/// literal whose decimal numeral reads back as `i` itself.
pub proof fn lemma_generate_structure(inv: InvocationView, i: nat)
    requires
        i < inv.length,
    ensures
        spec_generate(inv).len() == 1,
        spec_generate(inv)[0] == Tok::Group(
            Delimiter::Bracket,
            spec_elements(inv.function_name, inv.length as nat),
        ),
        spec_elements(inv.function_name, inv.length as nat).len() == 3 * inv.length,
        spec_elements(inv.function_name, inv.length as nat)[3 * i as int] == Tok::Ident(
            inv.function_name,
        ),
        spec_elements(inv.function_name, inv.length as nat)[3 * i as int + 1] == Tok::Group(
            Delimiter::Parenthesis,
            seq![Tok::Literal(index_literal_text(i))],
        ),
        spec_elements(inv.function_name, inv.length as nat)[3 * i as int + 2] == Tok::Punct(','),
        dec_val(dec_str(i)) == i,
{
    lemma_elements_structure(inv.function_name, inv.length as nat, i);
    lemma_dec_str_round_trip(i);
}

/// The generated element sequence for length `n` holds `3 * n` tokens.
pub proof fn lemma_elements_len(name: Seq<char>, n: nat)
    ensures
        spec_elements(name, n).len() == 3 * n,
    decreases n,
{
    if n > 0 {
        lemma_elements_len(name, (n - 1) as nat);
    }
}

/// Generation is a pure function of the invocation: two outputs generated
/// from the same invocation are token-for-token identical.
pub proof fn lemma_generate_deterministic(inv: InvocationView, a: Seq<Tok>, b: Seq<Tok>)
    requires
        a == spec_generate(inv),
        b == spec_generate(inv),
    ensures
        a == b,
{
}

/// A requested length of zero yields the empty bracketed group — a valid
/// empty-collection expression, not an error.
pub proof fn lemma_generate_empty(inv: InvocationView)
    requires
        inv.length == 0,
    ensures
        spec_generate(inv) == seq![Tok::Group(Delimiter::Bracket, Seq::<Tok>::empty())],
{
}

/// A requested length of one yields exactly one call expression, with no
/// elements before or after it.
pub proof fn lemma_generate_single(inv: InvocationView)
    requires
        inv.length == 1,
    ensures
        spec_generate(inv) == seq![
            Tok::Group(Delimiter::Bracket, spec_element(inv.function_name, 0)),
        ],
{
    assert(spec_elements(inv.function_name, 0) == Seq::<Tok>::empty());
    assert(spec_elements(inv.function_name, 1) =~= spec_element(inv.function_name, 0));
}

} // verus!
