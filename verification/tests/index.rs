use sway_lsp_core::ident::{to_ident_key, Ident, IdentKey, Span};
use sway_lsp_core::token::{AstToken, Occurrence, TokenMap, TokenType, TypedAstToken};

fn index_ident(name: &str, start: usize, end: usize) -> Ident {
    Ident::new(name.to_string(), Span::new(start, end, 0))
}

fn index_key(name: &str, start: usize, end: usize) -> IdentKey {
    to_ident_key(&index_ident(name, start, end))
}

fn plain_entry(kind: AstToken, start: usize, end: usize) -> TokenType {
    TokenType::Token { kind, node: Span::new(start, end, 0) }
}

fn typed_entry(kind: TypedAstToken, start: usize, end: usize) -> TokenType {
    TokenType::TypedToken { kind, node: Span::new(start, end, 0) }
}

#[test]
fn span_new_keeps_its_parts() {
    let span = Span::new(3, 9, 2);
    assert_eq!(span.start, 3);
    assert_eq!(span.end, 9);
    assert_eq!(span.source_id, 2);
}

#[test]
fn key_is_name_and_own_span() {
    let ident = index_ident("counter", 4, 11);
    let key = to_ident_key(&ident);
    assert_eq!(key.name, "counter");
    assert_eq!(key.span, Span::new(4, 11, 0));
}

#[test]
fn same_name_at_other_span_is_other_key() {
    let first = index_key("x", 0, 1);
    let second = index_key("x", 10, 11);
    let again = index_key("x", 0, 1);
    assert!(!first.same(&second));
    assert!(first.same(&again));
}

#[test]
fn same_span_other_name_is_other_key() {
    let first = index_key("x", 0, 1);
    let second = index_key("y", 0, 1);
    assert!(!first.same(&second));
}

#[test]
fn same_offsets_in_other_source_is_other_key() {
    let first = to_ident_key(&Ident::new("x".to_string(), Span::new(0, 1, 0)));
    let second = to_ident_key(&Ident::new("x".to_string(), Span::new(0, 1, 1)));
    assert!(!first.same(&second));
}

#[test]
fn new_index_is_empty() {
    let tokens = TokenMap::new();
    assert!(tokens.is_empty());
    assert_eq!(tokens.get(&index_key("x", 0, 1)), None);
    assert!(!tokens.contains_key(&index_key("x", 0, 1)));
}

#[test]
fn insert_then_get() {
    let mut tokens = TokenMap::new();
    let entry = plain_entry(AstToken::Declaration, 0, 9);
    tokens.insert(index_key("x", 4, 5), entry);
    assert!(!tokens.is_empty());
    assert_eq!(tokens.get(&index_key("x", 4, 5)), Some(entry));
    assert!(tokens.contains_key(&index_key("x", 4, 5)));
    assert_eq!(tokens.get(&index_key("x", 5, 6)), None);
}

#[test]
fn later_insert_for_same_key_overwrites() {
    let mut tokens = TokenMap::new();
    tokens.insert(index_key("x", 4, 5), plain_entry(AstToken::Declaration, 0, 9));
    tokens.insert(index_key("y", 6, 7), plain_entry(AstToken::Expression, 6, 7));
    let richer = typed_entry(TypedAstToken::TypedDeclaration, 0, 9);
    tokens.insert(index_key("x", 4, 5), richer);
    assert_eq!(tokens.get(&index_key("x", 4, 5)), Some(richer));
    assert_eq!(
        tokens.get(&index_key("y", 6, 7)),
        Some(plain_entry(AstToken::Expression, 6, 7))
    );
    assert_eq!(tokens.all_occurrences(&"x".to_string()).len(), 1);
}

#[test]
fn clear_removes_every_entry() {
    let mut tokens = TokenMap::new();
    tokens.insert(index_key("x", 4, 5), plain_entry(AstToken::Declaration, 0, 9));
    tokens.insert(index_key("y", 6, 7), plain_entry(AstToken::Expression, 6, 7));
    tokens.clear();
    assert!(tokens.is_empty());
    assert_eq!(tokens.get(&index_key("x", 4, 5)), None);
    assert_eq!(tokens.get(&index_key("y", 6, 7)), None);
}

#[test]
fn lookup_finds_the_occurrence_under_the_position() {
    let mut tokens = TokenMap::new();
    tokens.insert(index_key("alpha", 0, 5), plain_entry(AstToken::Declaration, 0, 20));
    tokens.insert(index_key("beta", 10, 14), plain_entry(AstToken::Expression, 10, 14));
    let found: Occurrence = tokens.lookup(0, 12).expect("an occurrence covers offset 12");
    assert_eq!(found.key.name, "beta");
    assert_eq!(found.key.span, Span::new(10, 14, 0));
    assert_eq!(found.token, plain_entry(AstToken::Expression, 10, 14));
    let first = tokens.lookup(0, 0).expect("an occurrence covers offset 0");
    assert_eq!(first.key.name, "alpha");
}

#[test]
fn lookup_takes_the_end_of_a_span_as_outside() {
    let mut tokens = TokenMap::new();
    tokens.insert(index_key("alpha", 0, 5), plain_entry(AstToken::Declaration, 0, 20));
    assert!(tokens.lookup(0, 4).is_some());
    assert!(tokens.lookup(0, 5).is_none());
    assert!(tokens.lookup(0, 7).is_none());
}

#[test]
fn lookup_tells_sources_apart() {
    let mut tokens = TokenMap::new();
    tokens.insert(
        to_ident_key(&Ident::new("alpha".to_string(), Span::new(0, 5, 3))),
        plain_entry(AstToken::Declaration, 0, 20),
    );
    assert!(tokens.lookup(3, 2).is_some());
    assert!(tokens.lookup(0, 2).is_none());
}

#[test]
fn all_occurrences_gives_each_occurrence_of_the_name_once() {
    let mut tokens = TokenMap::new();
    tokens.insert(index_key("x", 4, 5), plain_entry(AstToken::Declaration, 0, 9));
    tokens.insert(index_key("y", 6, 7), plain_entry(AstToken::Expression, 6, 7));
    tokens.insert(index_key("x", 12, 13), plain_entry(AstToken::Expression, 12, 13));
    tokens.insert(index_key("x", 4, 5), typed_entry(TypedAstToken::TypedDeclaration, 0, 9));
    let found = tokens.all_occurrences(&"x".to_string());
    assert_eq!(found.len(), 2);
    let mut spans: Vec<(usize, usize)> =
        found.iter().map(|o| (o.key.span.start, o.key.span.end)).collect();
    spans.sort();
    assert_eq!(spans, vec![(4, 5), (12, 13)]);
    for occurrence in &found {
        assert_eq!(occurrence.key.name, "x");
        assert_eq!(tokens.get(&occurrence.key), Some(occurrence.token));
    }
    assert!(tokens.all_occurrences(&"z".to_string()).is_empty());
}

#[test]
fn entry_knows_its_pass_and_its_node() {
    let plain = plain_entry(AstToken::FunctionDeclaration, 1, 30);
    let typed = typed_entry(TypedAstToken::TypedFunctionDeclaration, 1, 30);
    assert!(!plain.is_typed());
    assert!(typed.is_typed());
    assert_eq!(plain.node(), Span::new(1, 30, 0));
    assert_eq!(typed.node(), Span::new(1, 30, 0));
    assert_ne!(plain, typed);
}

#[test]
fn len_counts_keys_not_inserts() {
    let mut tokens = TokenMap::new();
    assert_eq!(tokens.len(), 0);
    tokens.insert(index_key("x", 4, 5), plain_entry(AstToken::Declaration, 0, 9));
    tokens.insert(index_key("y", 6, 7), plain_entry(AstToken::Expression, 6, 7));
    assert_eq!(tokens.len(), 2);
    tokens.insert(index_key("x", 4, 5), typed_entry(TypedAstToken::TypedDeclaration, 0, 9));
    assert_eq!(tokens.len(), 2);
    tokens.insert(index_key("x", 8, 9), plain_entry(AstToken::Expression, 8, 9));
    assert_eq!(tokens.len(), 3);
    tokens.clear();
    assert_eq!(tokens.len(), 0);
}
