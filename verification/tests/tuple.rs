use sway_lsp_core::expr_tuple::{expr, expr_tuple, Expr, ExprTuple};
use sway_lsp_core::ident::Span;

fn at(start: usize, end: usize) -> Span {
    Span::new(start, end, 5)
}

fn parse(text: &str) -> Option<(ExprTuple, usize)> {
    expr_tuple(text.as_bytes(), 0, 5)
}

fn name_span(found: &Expr) -> Span {
    match found {
        Expr::Name { span } => *span,
        other => panic!("expected a name, got {:?}", other),
    }
}

fn number_span(found: &Expr) -> Span {
    match found {
        Expr::Number { span } => *span,
        other => panic!("expected a number, got {:?}", other),
    }
}

#[test]
fn empty_tuple() {
    let (tuple, end) = parse("()").expect("a tuple");
    assert_eq!(end, 2);
    assert!(tuple.elems.inner.is_none());
    assert_eq!(tuple.span(), at(0, 2));
    assert_eq!(tuple.elems.span, at(0, 2));
}

#[test]
fn empty_tuple_with_blanks() {
    let (tuple, end) = parse("( \t\r\n )").expect("a tuple");
    assert_eq!(end, 7);
    assert!(tuple.elems.inner.is_none());
    assert_eq!(tuple.span(), at(0, 7));
}

#[test]
fn tuple_of_one_needs_its_comma() {
    let (tuple, end) = parse("(a,)").expect("a tuple");
    assert_eq!(end, 4);
    let (head, head_token, tail) = tuple.elems.inner.expect("an element");
    assert_eq!(name_span(&head), at(1, 2));
    assert_eq!(head_token.span, at(2, 3));
    assert!(tail.value_separator_pairs.is_empty());
    assert!(tail.final_value_opt.is_none());
    assert!(parse("(a)").is_none());
    assert!(parse("( a )").is_none());
}

#[test]
fn tuple_of_two() {
    let (tuple, end) = parse("(a, b)").expect("a tuple");
    assert_eq!(end, 6);
    assert_eq!(tuple.span(), at(0, 6));
    let (head, head_token, tail) = tuple.elems.inner.expect("elements");
    assert_eq!(name_span(&head), at(1, 2));
    assert_eq!(head_token.span, at(2, 3));
    assert!(tail.value_separator_pairs.is_empty());
    let last = tail.final_value_opt.expect("a last element without comma");
    assert_eq!(name_span(&last), at(4, 5));
}

#[test]
fn tuple_of_two_with_trailing_comma() {
    let (tuple, end) = parse("(a, b,)").expect("a tuple");
    assert_eq!(end, 7);
    let (_, _, tail) = tuple.elems.inner.expect("elements");
    assert_eq!(tail.value_separator_pairs.len(), 1);
    assert_eq!(name_span(&tail.value_separator_pairs[0].0), at(4, 5));
    assert_eq!(tail.value_separator_pairs[0].1.span, at(5, 6));
    assert!(tail.final_value_opt.is_none());
}

#[test]
fn tuple_of_four_with_names_and_numbers() {
    let (tuple, end) = parse("(alpha ,12,_b3 , 7 )").expect("a tuple");
    assert_eq!(end, 20);
    assert_eq!(tuple.span(), at(0, 20));
    let (head, head_token, tail) = tuple.elems.inner.expect("elements");
    assert_eq!(name_span(&head), at(1, 6));
    assert_eq!(head_token.span, at(7, 8));
    assert_eq!(tail.value_separator_pairs.len(), 2);
    assert_eq!(number_span(&tail.value_separator_pairs[0].0), at(8, 10));
    assert_eq!(tail.value_separator_pairs[0].1.span, at(10, 11));
    assert_eq!(name_span(&tail.value_separator_pairs[1].0), at(11, 14));
    assert_eq!(tail.value_separator_pairs[1].1.span, at(15, 16));
    let last = tail.final_value_opt.expect("a last element");
    assert_eq!(number_span(&last), at(17, 18));
    assert_eq!(last.span(), at(17, 18));
}

#[test]
fn nested_tuples() {
    let (tuple, end) = parse("((a,), (), (b, (c, d)))").expect("a tuple");
    assert_eq!(end, 23);
    let (head, _, tail) = tuple.elems.inner.expect("elements");
    match *head {
        Expr::Tuple(ref inner) => {
            assert_eq!(inner.span(), at(1, 5));
            let (first, _, rest) = inner.elems.inner.as_ref().expect("one element");
            assert_eq!(name_span(first), at(2, 3));
            assert!(rest.final_value_opt.is_none());
        }
        ref other => panic!("expected a tuple, got {:?}", other),
    }
    assert_eq!(tail.value_separator_pairs.len(), 1);
    match &tail.value_separator_pairs[0].0 {
        Expr::Tuple(inner) => {
            assert_eq!(inner.span(), at(7, 9));
            assert!(inner.elems.inner.is_none());
        }
        other => panic!("expected a tuple, got {:?}", other),
    }
    let last = tail.final_value_opt.expect("a last element");
    assert_eq!(last.span(), at(11, 22));
    match *last {
        Expr::Tuple(ref inner) => {
            let (_, _, rest) = inner.elems.inner.as_ref().expect("elements");
            let deepest = rest.final_value_opt.as_ref().expect("a last element");
            assert_eq!(deepest.span(), at(15, 21));
        }
        ref other => panic!("expected a tuple, got {:?}", other),
    }
}

#[test]
fn tuple_begins_at_the_given_position_and_ends_at_its_parenthesis() {
    let text = "x = (a, b) + 1";
    let (tuple, end) = expr_tuple(text.as_bytes(), 4, 9).expect("a tuple at 4");
    assert_eq!(end, 10);
    assert_eq!(tuple.span(), Span::new(4, 10, 9));
    assert!(expr_tuple(text.as_bytes(), 0, 9).is_none());
    assert!(expr_tuple(text.as_bytes(), 3, 9).is_none());
    assert!(expr_tuple(text.as_bytes(), 14, 9).is_none());
    assert!(expr_tuple(text.as_bytes(), 100, 9).is_none());
}

#[test]
fn malformed_tuples_are_refused() {
    for text in [
        "",
        "(",
        ")",
        "(a",
        "(a,",
        "(a, b",
        "(a b)",
        "(a, b c)",
        "(,)",
        "(a,,)",
        "(a, , b)",
        "(a; b)",
        "(1x, 2)",
        "[a, b]",
        "(a, (b)",
        "(a, (b))",
    ] {
        assert!(parse(text).is_none(), "{:?} is no tuple", text);
    }
}

#[test]
fn expression_is_a_name_a_number_or_a_tuple() {
    let (found, end) = expr("total_2 + 1".as_bytes(), 0, 5).expect("a name");
    assert_eq!(end, 7);
    assert_eq!(name_span(&found), at(0, 7));
    let (found, end) = expr("0042,".as_bytes(), 0, 5).expect("a number");
    assert_eq!(end, 4);
    assert_eq!(number_span(&found), at(0, 4));
    let (found, end) = expr("(a, b) rest".as_bytes(), 0, 5).expect("a tuple");
    assert_eq!(end, 6);
    assert_eq!(found.span(), at(0, 6));
    assert!(matches!(found, Expr::Tuple(_)));
    assert!(expr(" a".as_bytes(), 0, 5).is_none());
    assert!(expr("+".as_bytes(), 0, 5).is_none());
    assert!(expr("".as_bytes(), 0, 5).is_none());
    assert!(expr("a".as_bytes(), 1, 5).is_none());
}

#[test]
fn number_ends_where_a_letter_begins() {
    let (found, end) = expr("12ab".as_bytes(), 0, 5).expect("a number");
    assert_eq!(end, 2);
    assert_eq!(number_span(&found), at(0, 2));
}

#[test]
fn deep_nesting_of_last_elements() {
    let mut text = String::new();
    for _ in 0..40 {
        text.push_str("(x, ");
    }
    text.push_str("y");
    for _ in 0..40 {
        text.push(')');
    }
    let (tuple, end) = parse(&text).expect("a tuple");
    assert_eq!(end, text.len());
    assert_eq!(tuple.span(), at(0, text.len()));
}
