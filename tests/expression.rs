use cairo_lang_macro::{TextSpan, Token, TokenStream, TokenTree};
use snforge_scarb_plugin::cairo_expression::CairoExpression;
use snforge_scarb_plugin::parse::argument_probe;

#[test]
fn absent_option_is_none() {
    let v: Option<u64> = None;
    assert_eq!(v.as_cairo_expression().to_string(), "Option::None");
}

#[test]
fn present_option_wraps_value() {
    assert_eq!(Some(5u64).as_cairo_expression().to_string(), "Option::Some(5)");
}

#[test]
fn number_is_decimal() {
    assert_eq!(1234567890u64.as_cairo_expression().to_string(), "1234567890");
    assert_eq!(0u64.as_cairo_expression().to_string(), "0");
    assert_eq!(u64::MAX.as_cairo_expression().to_string(), "18446744073709551615");
}

#[test]
fn sequence_has_trailing_separator() {
    let v: Vec<u64> = vec![1, 2];
    assert_eq!(v.as_cairo_expression().to_string(), "array![1,2,]");
    let tokens: Vec<String> = v
        .as_cairo_expression()
        .into_iter()
        .map(|TokenTree::Ident(t)| t.content.to_string())
        .collect();
    assert_eq!(tokens, vec!["array![", "1", ",", "2", ",", "]"]);
}

#[test]
fn empty_sequence() {
    let v: Vec<u64> = vec![];
    assert_eq!(v.as_cairo_expression().to_string(), "array![]");
}

#[test]
fn nested_fields() {
    let v: Option<Vec<Option<u64>>> = Some(vec![Some(3), None]);
    assert_eq!(
        v.as_cairo_expression().to_string(),
        "Option::Some(array![Option::Some(3),Option::None,])"
    );
    let w: Vec<Vec<u64>> = vec![vec![], vec![4]];
    assert_eq!(w.as_cairo_expression().to_string(), "array![array![],array![4,],]");
}

#[test]
fn distinct_values_give_distinct_expressions() {
    let a: Option<Vec<u64>> = Some(vec![1, 2]);
    let b: Option<Vec<u64>> = Some(vec![12]);
    assert_ne!(a.as_cairo_expression().to_string(), b.as_cairo_expression().to_string());
}

#[test]
fn arguments_are_wrapped_in_internal_attribute() {
    let args = TokenStream::new(vec![TokenTree::Ident(Token::new(
        "(url: \"http://x\", block_number: 1)",
        TextSpan::call_site(),
    ))]);
    assert_eq!(
        argument_probe(args).to_string(),
        "#[__SNFORGE_INTERNAL_ATTR__(url: \"http://x\", block_number: 1)]\nfn __SNFORGE_INTERNAL_FN__(){{}}"
    );
    assert_eq!(
        argument_probe(TokenStream::empty()).to_string(),
        "#[__SNFORGE_INTERNAL_ATTR__]\nfn __SNFORGE_INTERNAL_FN__(){{}}"
    );
}
