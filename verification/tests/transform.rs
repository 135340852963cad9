use array_const_fn_init::array_const_fn_init;
use array_const_fn_init::codegen::generate;
use array_const_fn_init::decimal::{parse_usize, push_decimal};
use array_const_fn_init::parse::{diagnostic, parse_invocation, Invocation, ParseError};
use array_const_fn_init::token::{Delimiter, TokenTree};

fn ident(s: &str) -> TokenTree {
    TokenTree::Ident(s.to_string())
}

fn lit(s: &str) -> TokenTree {
    TokenTree::Literal(s.to_string())
}

fn invocation_tokens(name: &str, len: &str) -> Vec<TokenTree> {
    vec![ident(name), TokenTree::Punct(';'), lit(len)]
}

/// Plays the host compiler's part: takes the generated output apart, checks
/// its shape, and applies `f` to each index literal in order.
fn evaluate<T>(output: &[TokenTree], f: impl Fn(usize) -> T) -> Vec<T> {
    assert_eq!(output.len(), 1);
    let elems = match &output[0] {
        TokenTree::Group(Delimiter::Bracket, elems) => elems,
        other => panic!("expected a bracketed group, found {:?}", other),
    };
    assert_eq!(elems.len() % 3, 0);
    let mut values = Vec::new();
    for call in elems.chunks(3) {
        assert!(matches!(&call[0], TokenTree::Ident(_)));
        let index_text = match &call[1] {
            TokenTree::Group(Delimiter::Parenthesis, inner) => match inner.as_slice() {
                [TokenTree::Literal(text)] => text,
                other => panic!("expected a single index literal, found {:?}", other),
            },
            other => panic!("expected a parenthesized group, found {:?}", other),
        };
        let digits = index_text
            .strip_suffix("usize")
            .expect("index literal must carry the usize suffix");
        let index: usize = digits.parse().expect("index literal must be decimal");
        assert_eq!(call[2], TokenTree::Punct(','));
        values.push(f(index));
    }
    values
}

fn double_it(i: usize) -> usize {
    i * 2
}

fn make_triplet(i: usize) -> (usize, usize, usize) {
    (i, i, i)
}

#[test]
fn evaluates_double_it() {
    let output = array_const_fn_init(&invocation_tokens("double_it", "5")).unwrap();
    assert_eq!(evaluate(&output, double_it), vec![0, 2, 4, 6, 8]);
}

#[test]
fn evaluates_make_triplet() {
    let output = array_const_fn_init(&invocation_tokens("make_triplet", "3")).unwrap();
    assert_eq!(
        evaluate(&output, make_triplet),
        vec![(0, 0, 0), (1, 1, 1), (2, 2, 2)]
    );
}

#[test]
fn every_index_is_applied_in_order() {
    let output = array_const_fn_init(&invocation_tokens("f", "100")).unwrap();
    let expected: Vec<usize> = (0..100).collect();
    assert_eq!(evaluate(&output, |i| i), expected);
}

#[test]
fn generating_twice_is_identical() {
    let tokens = invocation_tokens("square", "7");
    let first = array_const_fn_init(&tokens).unwrap();
    let second = array_const_fn_init(&tokens).unwrap();
    assert_eq!(first, second);
}

#[test]
fn length_zero_yields_empty_group() {
    let output = array_const_fn_init(&invocation_tokens("f", "0")).unwrap();
    assert_eq!(output, vec![TokenTree::Group(Delimiter::Bracket, vec![])]);
}

#[test]
fn length_one_yields_one_call() {
    let output = array_const_fn_init(&invocation_tokens("f", "1")).unwrap();
    assert_eq!(
        output,
        vec![TokenTree::Group(
            Delimiter::Bracket,
            vec![
                ident("f"),
                TokenTree::Group(Delimiter::Parenthesis, vec![lit("0usize")]),
                TokenTree::Punct(','),
            ],
        )]
    );
}

#[test]
fn exact_output_for_length_two() {
    let output = array_const_fn_init(&invocation_tokens("g", "2")).unwrap();
    assert_eq!(
        output,
        vec![TokenTree::Group(
            Delimiter::Bracket,
            vec![
                ident("g"),
                TokenTree::Group(Delimiter::Parenthesis, vec![lit("0usize")]),
                TokenTree::Punct(','),
                ident("g"),
                TokenTree::Group(Delimiter::Parenthesis, vec![lit("1usize")]),
                TokenTree::Punct(','),
            ],
        )]
    );
}

#[test]
fn missing_function_name() {
    let tokens = vec![TokenTree::Punct(';'), lit("5")];
    assert_eq!(
        array_const_fn_init(&tokens),
        Err(ParseError::MissingFunctionName)
    );
}

#[test]
fn empty_input_reports_missing_function_name() {
    assert_eq!(
        array_const_fn_init(&vec![]),
        Err(ParseError::MissingFunctionName)
    );
}

#[test]
fn group_is_not_a_function_name() {
    let tokens = vec![TokenTree::Group(Delimiter::Brace, vec![])];
    assert_eq!(
        array_const_fn_init(&tokens),
        Err(ParseError::MissingFunctionName)
    );
}

#[test]
fn missing_separator() {
    let tokens = vec![ident("f"), lit("5")];
    assert_eq!(
        array_const_fn_init(&tokens),
        Err(ParseError::MissingSeparator)
    );
}

#[test]
fn wrong_punctuation_is_not_a_separator() {
    let tokens = vec![ident("f"), TokenTree::Punct(','), lit("5")];
    assert_eq!(
        array_const_fn_init(&tokens),
        Err(ParseError::MissingSeparator)
    );
}

#[test]
fn missing_length() {
    let tokens = vec![ident("f"), TokenTree::Punct(';')];
    assert_eq!(
        array_const_fn_init(&tokens),
        Err(ParseError::InvalidLengthLiteral)
    );
}

#[test]
fn non_literal_length() {
    let tokens = vec![ident("f"), TokenTree::Punct(';'), ident("n")];
    assert_eq!(
        array_const_fn_init(&tokens),
        Err(ParseError::InvalidLengthLiteral)
    );
}

#[test]
fn non_numeric_literal_length() {
    let tokens = vec![ident("f"), TokenTree::Punct(';'), lit("\"5\"")];
    assert_eq!(
        array_const_fn_init(&tokens),
        Err(ParseError::InvalidLengthLiteral)
    );
}

#[test]
fn suffixed_literal_length_is_rejected() {
    let tokens = invocation_tokens("f", "5usize");
    assert_eq!(
        array_const_fn_init(&tokens),
        Err(ParseError::InvalidLengthLiteral)
    );
}

#[test]
fn oversized_literal_length_is_rejected() {
    let too_big = (usize::MAX as u128 + 1).to_string();
    let tokens = invocation_tokens("f", &too_big);
    assert_eq!(
        array_const_fn_init(&tokens),
        Err(ParseError::InvalidLengthLiteral)
    );
}

#[test]
fn trailing_tokens() {
    let mut tokens = invocation_tokens("f", "5");
    tokens.push(ident("extra"));
    assert_eq!(array_const_fn_init(&tokens), Err(ParseError::TrailingTokens));
}

#[test]
fn parse_invocation_extracts_both_fields() {
    let parsed = parse_invocation(&invocation_tokens("double_it", "10")).unwrap();
    assert_eq!(
        parsed,
        Invocation {
            function_name: "double_it".to_string(),
            length: 10,
        }
    );
}

#[test]
fn generate_accepts_any_validated_invocation() {
    let inv = Invocation {
        function_name: "h".to_string(),
        length: 3,
    };
    let output = generate(&inv);
    assert_eq!(evaluate(&output, |i| i + 1), vec![1, 2, 3]);
}

#[test]
fn parse_usize_accepts_plain_decimals() {
    assert_eq!(parse_usize("0"), Some(0));
    assert_eq!(parse_usize("42"), Some(42));
    assert_eq!(parse_usize("007"), Some(7));
    let max = usize::MAX.to_string();
    assert_eq!(parse_usize(&max), Some(usize::MAX));
}

#[test]
fn parse_usize_rejects_everything_else() {
    assert_eq!(parse_usize(""), None);
    assert_eq!(parse_usize("+1"), None);
    assert_eq!(parse_usize("-1"), None);
    assert_eq!(parse_usize("1_000"), None);
    assert_eq!(parse_usize("0x10"), None);
    assert_eq!(parse_usize("5.0"), None);
    assert_eq!(parse_usize("5 "), None);
    let too_big = (usize::MAX as u128 + 1).to_string();
    assert_eq!(parse_usize(&too_big), None);
}

#[test]
fn push_decimal_prints_the_numeral() {
    let mut s = String::new();
    push_decimal(&mut s, 0);
    assert_eq!(s, "0");
    let mut s = String::new();
    push_decimal(&mut s, 1234567890);
    assert_eq!(s, "1234567890");
    let mut s = String::from("x");
    push_decimal(&mut s, 10);
    assert_eq!(s, "x10");
}

#[test]
fn diagnostics_name_expected_and_found() {
    let tokens = vec![TokenTree::Punct(';'), lit("5")];
    let e = array_const_fn_init(&tokens).unwrap_err();
    assert_eq!(
        diagnostic(&tokens, e),
        "expected a function name identifier, found a punctuation token"
    );

    let tokens = vec![ident("f"), TokenTree::Punct(';')];
    let e = array_const_fn_init(&tokens).unwrap_err();
    assert_eq!(
        diagnostic(&tokens, e),
        "expected an unsigned integer length literal; input ended"
    );

    let mut tokens = invocation_tokens("f", "5");
    tokens.push(TokenTree::Group(Delimiter::Bracket, vec![]));
    let e = array_const_fn_init(&tokens).unwrap_err();
    assert_eq!(
        diagnostic(&tokens, e),
        "unexpected trailing tokens after the length, found a delimited group"
    );
}

#[test]
fn messages_name_the_expected_construct() {
    assert_eq!(
        ParseError::MissingFunctionName.message(),
        "expected a function name identifier"
    );
    assert_eq!(
        ParseError::MissingSeparator.message(),
        "expected the separator `;` after the function name"
    );
    assert_eq!(
        ParseError::InvalidLengthLiteral.message(),
        "expected an unsigned integer length literal"
    );
    assert_eq!(
        ParseError::TrailingTokens.message(),
        "unexpected trailing tokens after the length"
    );
}
