use sway_lsp_core::diagnostic::{
    get_diagnostics, CompileError, CompileWarning, Diagnostic, DiagnosticSeverity,
};
use sway_lsp_core::error::LspError;
use sway_lsp_core::ident::{to_ident_key, CallPath, Ident, IdentKey, Span};
use sway_lsp_core::manifest::Manifest;
use sway_lsp_core::parse_tree::{
    AstNode, AstNodeContent, CodeBlock, Declaration, Expression, ExpressionKind,
    FunctionDeclaration, FunctionParameter, ParseProgram,
};
use sway_lsp_core::session::{CompileAstResult, ParseResult, Session, SwayConfig};
use sway_lsp_core::token::{AstToken, TokenMap, TokenType, TypedAstToken};
use sway_lsp_core::typed_tree::{
    TypedArgument, TypedAstNode, TypedAstNodeContent, TypedCodeBlock, TypedDeclaration,
    TypedExpression, TypedExpressionVariant, TypedFunctionDeclaration, TypedFunctionParameter,
    TypedProgram,
};

const PROJECT: &str = "/home/user/project";
const MAIN: &str = "/home/user/project/src/main.sw";

fn s_span(start: usize, end: usize) -> Span {
    Span::new(start, end, 0)
}

fn s_id(name: &str, start: usize, end: usize) -> Ident {
    Ident::new(name.to_string(), s_span(start, end))
}

fn s_key(name: &str, start: usize, end: usize) -> IdentKey {
    to_ident_key(&s_id(name, start, end))
}

fn s_plain(kind: AstToken, start: usize, end: usize) -> Option<TokenType> {
    Some(TokenType::Token { kind, node: s_span(start, end) })
}

fn s_typed(kind: TypedAstToken, start: usize, end: usize) -> Option<TokenType> {
    Some(TokenType::TypedToken { kind, node: s_span(start, end) })
}

fn manifest() -> Manifest {
    Manifest::new(PROJECT.to_string(), MAIN.to_string())
}

fn bound_session(text: &str) -> Session {
    let mut session = Session::new();
    session.initialize(Some(manifest()));
    session.store_document(MAIN.to_string(), text.to_string()).expect("the URI is free");
    session
}

fn warning(message: &str, start: usize, end: usize) -> CompileWarning {
    CompileWarning { message: message.to_string(), span: s_span(start, end) }
}

fn error(message: &str, start: usize, end: usize) -> CompileError {
    CompileError { message: message.to_string(), span: s_span(start, end) }
}

fn same_diagnostic(found: &Diagnostic, severity: DiagnosticSeverity, message: &str, span: Span) {
    assert_eq!(found.severity, severity);
    assert_eq!(found.message, message);
    assert_eq!(found.span, span);
}

// fn add(a: u64, b: u64) -> u64 { a + b }
// 0         1         2         3
// 0123456789012345678901234567890123456789
const ADD: &str = "fn add(a: u64, b: u64) -> u64 { a + b }";

fn add_syntactic() -> ParseProgram {
    let sum = Expression {
        kind: ExpressionKind::FunctionApplication {
            call_path: CallPath {
                prefixes: vec![s_id("core", 34, 35), s_id("ops", 34, 35)],
                suffix: s_id("add", 34, 35),
            },
            contract_call_params: vec![],
            arguments: vec![
                Expression {
                    kind: ExpressionKind::VariableExpression { name: s_id("a", 32, 33) },
                    span: s_span(32, 33),
                },
                Expression {
                    kind: ExpressionKind::VariableExpression { name: s_id("b", 36, 37) },
                    span: s_span(36, 37),
                },
            ],
        },
        span: s_span(32, 37),
    };
    ParseProgram {
        root_nodes: vec![AstNode {
            content: AstNodeContent::Declaration(Declaration::FunctionDeclaration(
                FunctionDeclaration {
                    name: s_id("add", 3, 6),
                    parameters: vec![
                        FunctionParameter { name: s_id("a", 7, 8), span: s_span(7, 13) },
                        FunctionParameter { name: s_id("b", 15, 16), span: s_span(15, 21) },
                    ],
                    body: CodeBlock {
                        contents: vec![AstNode {
                            content: AstNodeContent::ImplicitReturnExpression(sum),
                        }],
                    },
                    span: s_span(0, 39),
                },
            )),
        }],
    }
}

fn add_typed() -> TypedProgram {
    let variable = |name: &str, start: usize, end: usize| TypedExpression {
        expression: TypedExpressionVariant::VariableExpression { name: s_id(name, start, end) },
        span: s_span(start, end),
    };
    let sum = TypedExpression {
        expression: TypedExpressionVariant::FunctionApplication {
            call_path: CallPath { prefixes: vec![], suffix: s_id("add", 34, 35) },
            contract_call_params: vec![],
            arguments: vec![
                TypedArgument { name: s_id("a", 32, 33), value: variable("a", 32, 33) },
                TypedArgument { name: s_id("b", 36, 37), value: variable("b", 36, 37) },
            ],
            function_body: TypedCodeBlock { contents: vec![] },
        },
        span: s_span(32, 37),
    };
    TypedProgram {
        all_nodes: vec![TypedAstNode {
            content: TypedAstNodeContent::Declaration(TypedDeclaration::FunctionDeclaration(
                TypedFunctionDeclaration {
                    name: s_id("add", 3, 6),
                    body: TypedCodeBlock {
                        contents: vec![TypedAstNode {
                            content: TypedAstNodeContent::ImplicitReturnExpression(sum),
                        }],
                    },
                    parameters: vec![
                        TypedFunctionParameter { name: s_id("a", 7, 8), span: s_span(7, 13) },
                        TypedFunctionParameter { name: s_id("b", 15, 16), span: s_span(15, 21) },
                    ],
                    span: s_span(0, 39),
                },
            )),
        }],
    }
}

// fn main() { missing }
// 0         1         2
// 012345678901234567890
const UNDECLARED: &str = "fn main() { missing }";

fn undeclared_syntactic() -> ParseProgram {
    ParseProgram {
        root_nodes: vec![AstNode {
            content: AstNodeContent::Declaration(Declaration::FunctionDeclaration(
                FunctionDeclaration {
                    name: s_id("main", 3, 7),
                    parameters: vec![],
                    body: CodeBlock {
                        contents: vec![AstNode {
                            content: AstNodeContent::ImplicitReturnExpression(Expression {
                                kind: ExpressionKind::VariableExpression {
                                    name: s_id("missing", 12, 19),
                                },
                                span: s_span(12, 19),
                            }),
                        }],
                    },
                    span: s_span(0, 21),
                },
            )),
        }],
    }
}

#[test]
fn new_session_is_empty() {
    let session = Session::new();
    assert!(session.manifest().is_none());
    assert!(session.token_map().is_empty());
    assert!(session.diagnostics().is_empty());
    assert!(!session.documents().contains(MAIN));
    assert_eq!(session.config(), SwayConfig { align_fields: true, tab_size: 4 });
    assert_eq!(SwayConfig::default(), SwayConfig { align_fields: true, tab_size: 4 });
}

#[test]
fn update_config_replaces_the_configuration_only() {
    let mut session = bound_session(ADD);
    session.update_config(SwayConfig { align_fields: false, tab_size: 2 });
    assert_eq!(session.config(), SwayConfig { align_fields: false, tab_size: 2 });
    assert!(session.documents().contains(MAIN));
    assert!(session.manifest().is_some());
}

#[test]
fn initialize_binds_a_manifest_that_was_found() {
    let mut session = Session::new();
    session.initialize(Some(manifest()));
    let bound = session.manifest().as_ref().expect("a manifest is bound");
    assert_eq!(bound.dir, PROJECT);
    assert_eq!(bound.entry_path, MAIN);
}

#[test]
fn initialize_without_a_manifest_changes_nothing() {
    let mut session = Session::new();
    session.initialize(None);
    assert!(session.manifest().is_none());
    session.initialize(Some(manifest()));
    session.initialize(None);
    assert_eq!(session.manifest().as_ref().expect("still bound").dir, PROJECT);
}

#[test]
fn build_config_without_manifest_is_manifest_file_not_found() {
    let session = Session::new();
    assert!(matches!(session.build_config(), Err(LspError::ManifestFileNotFound)));
}

#[test]
fn build_config_of_a_regular_project_is_derived() {
    let mut session = Session::new();
    session.initialize(Some(manifest()));
    let config = session.build_config().expect("the layout is regular");
    assert_eq!(
        config.canonical_root_module().as_path(),
        std::path::Path::new("/home/user/project/src/main.sw")
    );
    assert!(manifest().build_config().is_ok());
}

#[test]
fn build_config_of_an_entry_outside_the_project_is_refused() {
    let mut session = Session::new();
    session.initialize(Some(Manifest::new(
        PROJECT.to_string(),
        "/somewhere/else/main.sw".to_string(),
    )));
    assert!(matches!(session.build_config(), Err(LspError::BuildConfig)));
}

#[test]
fn build_config_of_an_entry_beside_the_project_is_refused() {
    // below the directory above the project, but not in the project
    let beside = Manifest::new(PROJECT.to_string(), "/home/user/other/src/main.sw".to_string());
    assert!(matches!(beside.build_config(), Err(LspError::BuildConfig)));
}

#[test]
fn build_config_of_a_relative_manifest_directory_is_refused() {
    let relative = Manifest::new("project".to_string(), "project/src/main.sw".to_string());
    assert!(matches!(relative.build_config(), Err(LspError::BuildConfig)));
}

#[test]
fn build_config_of_a_directory_name_with_a_dot_is_refused() {
    let dotted = Manifest::new(
        "/home/user/my.project".to_string(),
        "/home/user/my.project/src/main.sw".to_string(),
    );
    assert!(matches!(dotted.build_config(), Err(LspError::BuildConfig)));
}

#[test]
fn build_config_of_a_manifest_in_the_root_directory_is_refused() {
    let root = Manifest::new("/".to_string(), "/src/main.sw".to_string());
    assert!(matches!(root.build_config(), Err(LspError::BuildConfig)));
}

#[test]
fn store_document_adds_the_document() {
    let mut session = Session::new();
    assert!(session.store_document(MAIN.to_string(), ADD.to_string()).is_ok());
    let stored = session.documents().get(MAIN).expect("the document is stored");
    assert_eq!(stored.uri, MAIN);
    assert_eq!(stored.get_text(), ADD);
}

#[test]
fn second_store_on_the_same_uri_is_already_stored_and_keeps_the_text() {
    let mut session = Session::new();
    assert!(session.store_document(MAIN.to_string(), "first".to_string()).is_ok());
    let second = session.store_document(MAIN.to_string(), "second".to_string());
    assert!(matches!(second, Err(LspError::DocumentAlreadyStored)));
    assert_eq!(session.documents().get(MAIN).expect("still stored").get_text(), "first");
}

#[test]
fn store_after_remove_takes_the_new_text() {
    let mut session = Session::new();
    session.store_document(MAIN.to_string(), "first".to_string()).expect("free");
    session.remove_document(MAIN).expect("stored");
    session.store_document(MAIN.to_string(), "second".to_string()).expect("free again");
    assert_eq!(session.documents().get(MAIN).expect("stored").get_text(), "second");
}

#[test]
fn remove_document_gives_the_document_back() {
    let mut session = Session::new();
    session.store_document(MAIN.to_string(), ADD.to_string()).expect("free");
    session.store_document("/other.sw".to_string(), "other".to_string()).expect("free");
    let removed = session.remove_document(MAIN).expect("stored");
    assert_eq!(removed.uri, MAIN);
    assert_eq!(removed.text, ADD);
    assert!(!session.documents().contains(MAIN));
    assert_eq!(session.documents().get("/other.sw").expect("untouched").get_text(), "other");
}

#[test]
fn remove_document_on_unknown_uri_is_not_found_and_changes_nothing() {
    let mut session = Session::new();
    session.store_document(MAIN.to_string(), ADD.to_string()).expect("free");
    let removed = session.remove_document("/unknown.sw");
    assert!(matches!(removed, Err(LspError::DocumentNotFound)));
    assert_eq!(session.documents().get(MAIN).expect("untouched").get_text(), ADD);
    let empty = Session::new().remove_document(MAIN);
    assert!(matches!(empty, Err(LspError::DocumentNotFound)));
}

#[test]
fn diagnostics_are_the_warnings_then_the_errors() {
    let found = get_diagnostics(
        &vec![warning("unused", 1, 2), warning("shadowed", 3, 4)],
        &vec![error("unknown name", 5, 6)],
    );
    assert_eq!(found.len(), 3);
    same_diagnostic(&found[0], DiagnosticSeverity::Warning, "unused", s_span(1, 2));
    same_diagnostic(&found[1], DiagnosticSeverity::Warning, "shadowed", s_span(3, 4));
    same_diagnostic(&found[2], DiagnosticSeverity::Error, "unknown name", s_span(5, 6));
    assert!(get_diagnostics(&vec![], &vec![]).is_empty());
}

#[test]
fn error_messages() {
    assert_eq!(
        LspError::BuildConfig.message(),
        "could not create a sway build config from manifest"
    );
    assert_eq!(LspError::BuildConfigNotFound.message(), "no build config found");
    assert_eq!(LspError::ManifestFileNotFound.message(), "no manifest file found");
    assert_eq!(LspError::DocumentNotFound.message(), "document not found");
    assert_eq!(LspError::DocumentAlreadyStored.message(), "document already stored");
    assert_eq!(LspError::FailedToParse(vec![]).message(), "Failed to parse typed AST");
}

#[test]
fn parse_request_is_due_for_an_open_document_with_a_configuration() {
    let session = bound_session(ADD);
    let (text, config) = session.parse_request(MAIN).expect("the first stage is due");
    assert_eq!(text, ADD);
    assert_eq!(
        config.canonical_root_module().as_path(),
        std::path::Path::new("/home/user/project/src/main.sw")
    );
    assert!(session.parse_request("/unknown.sw").is_none());
    let mut unbound = Session::new();
    unbound.store_document(MAIN.to_string(), ADD.to_string()).expect("free");
    assert!(unbound.parse_request(MAIN).is_none());
}

#[test]
fn first_stage_without_configuration_is_build_config_not_found() {
    let session = Session::new();
    let parsed = ParseResult { value: Some(add_syntactic()), warnings: vec![], errors: vec![] };
    let mut tokens = TokenMap::new();
    let outcome = session.parse_ast_to_tokens(&parsed, &mut tokens);
    assert!(matches!(outcome, Err(LspError::BuildConfigNotFound)));
    assert!(tokens.is_empty());
}

#[test]
fn first_stage_inserts_the_syntactic_entries_and_gives_the_findings() {
    let session = bound_session(ADD);
    let parsed = ParseResult {
        value: Some(add_syntactic()),
        warnings: vec![warning("style", 3, 6)],
        errors: vec![],
    };
    let mut tokens = TokenMap::new();
    let found = session.parse_ast_to_tokens(&parsed, &mut tokens).expect("a configuration");
    assert_eq!(found.len(), 1);
    same_diagnostic(&found[0], DiagnosticSeverity::Warning, "style", s_span(3, 6));
    assert_eq!(tokens.get(&s_key("add", 3, 6)), s_plain(AstToken::FunctionDeclaration, 0, 39));
    assert_eq!(tokens.get(&s_key("a", 7, 8)), s_plain(AstToken::FunctionParameter, 7, 13));
    assert_eq!(tokens.get(&s_key("b", 15, 16)), s_plain(AstToken::FunctionParameter, 15, 21));
}

#[test]
fn second_stage_without_manifest_is_build_config_not_found() {
    let session = Session::new();
    let checked = CompileAstResult::Success { typed_program: add_typed(), warnings: vec![] };
    let mut tokens = TokenMap::new();
    let outcome = session.parse_ast_to_typed_tokens(Some(&checked), &mut tokens);
    assert!(matches!(outcome, Err(LspError::BuildConfigNotFound)));
    assert!(tokens.is_empty());
}

#[test]
fn second_stage_failure_is_failed_to_parse_with_the_findings() {
    let session = bound_session(ADD);
    let checked = CompileAstResult::Failure {
        warnings: vec![warning("style", 3, 6)],
        errors: vec![error("mismatch", 32, 37)],
    };
    let mut tokens = TokenMap::new();
    match session.parse_ast_to_typed_tokens(Some(&checked), &mut tokens) {
        Err(LspError::FailedToParse(found)) => {
            assert_eq!(found.len(), 2);
            same_diagnostic(&found[0], DiagnosticSeverity::Warning, "style", s_span(3, 6));
            same_diagnostic(&found[1], DiagnosticSeverity::Error, "mismatch", s_span(32, 37));
        }
        other => panic!("expected the findings of the check, got {:?}", other),
    }
    assert!(tokens.is_empty());
}

#[test]
fn end_to_end_add() {
    let mut session = bound_session(ADD);
    let (text, _config) = session.parse_request(MAIN).expect("the first stage is due");
    assert_eq!(text, ADD);
    let parsed = ParseResult { value: Some(add_syntactic()), warnings: vec![], errors: vec![] };

    // after the first stage alone
    let first = session.build_generation(MAIN, Some(&parsed), None);
    assert_eq!(
        first.token_map().get(&s_key("add", 3, 6)),
        s_plain(AstToken::FunctionDeclaration, 0, 39)
    );
    assert_eq!(
        first.token_map().get(&s_key("a", 7, 8)),
        s_plain(AstToken::FunctionParameter, 7, 13)
    );
    assert_eq!(
        first.token_map().get(&s_key("b", 15, 16)),
        s_plain(AstToken::FunctionParameter, 15, 21)
    );
    // building a generation leaves the published one alone
    assert!(session.token_map().is_empty());

    assert!(session.wants_type_check(MAIN, Some(&parsed)));
    let checked = CompileAstResult::Success { typed_program: add_typed(), warnings: vec![] };
    session.parse_project(MAIN, Some(&parsed), Some(&checked));

    let tokens = session.token_map();
    assert_eq!(
        tokens.get(&s_key("add", 3, 6)),
        s_typed(TypedAstToken::TypedFunctionDeclaration, 0, 39)
    );
    assert_eq!(tokens.get(&s_key("a", 7, 8)), s_typed(TypedAstToken::TypedFunctionParameter, 7, 13));
    assert_eq!(
        tokens.get(&s_key("b", 15, 16)),
        s_typed(TypedAstToken::TypedFunctionParameter, 15, 21)
    );
    assert_eq!(tokens.get(&s_key("a", 32, 33)), s_typed(TypedAstToken::TypedExpression, 32, 33));
    assert_eq!(tokens.get(&s_key("b", 36, 37)), s_typed(TypedAstToken::TypedExpression, 36, 37));
    assert_eq!(tokens.get(&s_key("add", 34, 35)), s_typed(TypedAstToken::TypedExpression, 32, 37));
    // occurrences that only the syntactic tree has keep their entries
    assert_eq!(tokens.get(&s_key("core", 34, 35)), s_plain(AstToken::Expression, 32, 37));
    assert_eq!(tokens.all_occurrences(&"add".to_string()).len(), 2);
    assert_eq!(tokens.all_occurrences(&"a".to_string()).len(), 2);
    assert!(session.diagnostics().is_empty());
}

#[test]
fn end_to_end_undeclared_identifier() {
    let mut session = bound_session(UNDECLARED);
    let parsed =
        ParseResult { value: Some(undeclared_syntactic()), warnings: vec![], errors: vec![] };
    assert!(session.wants_type_check(MAIN, Some(&parsed)));
    let checked = CompileAstResult::Failure {
        warnings: vec![],
        errors: vec![error("Variable \"missing\" does not exist in this scope.", 12, 19)],
    };
    session.parse_project(MAIN, Some(&parsed), Some(&checked));

    let found = session.diagnostics();
    assert_eq!(found.len(), 1);
    same_diagnostic(
        &found[0],
        DiagnosticSeverity::Error,
        "Variable \"missing\" does not exist in this scope.",
        s_span(12, 19),
    );
    let tokens = session.token_map();
    assert_eq!(tokens.get(&s_key("missing", 12, 19)), s_plain(AstToken::Expression, 12, 19));
    assert_eq!(tokens.get(&s_key("main", 3, 7)), s_plain(AstToken::FunctionDeclaration, 0, 21));
}

#[test]
fn failed_check_replaces_the_diagnostics_of_the_parser() {
    let mut session = bound_session(ADD);
    let parsed = ParseResult {
        value: Some(add_syntactic()),
        warnings: vec![warning("from the parser", 0, 2)],
        errors: vec![],
    };
    let checked = CompileAstResult::Failure {
        warnings: vec![warning("from the check", 3, 6)],
        errors: vec![error("mismatch", 32, 37)],
    };
    session.parse_project(MAIN, Some(&parsed), Some(&checked));
    let found = session.diagnostics();
    assert_eq!(found.len(), 2);
    same_diagnostic(&found[0], DiagnosticSeverity::Warning, "from the check", s_span(3, 6));
    same_diagnostic(&found[1], DiagnosticSeverity::Error, "mismatch", s_span(32, 37));
    assert_eq!(
        session.token_map().get(&s_key("add", 3, 6)),
        s_plain(AstToken::FunctionDeclaration, 0, 39)
    );
    assert!(session.token_map().all_occurrences(&"add".to_string()).iter().all(|o| !o.token.is_typed()));
}

#[test]
fn passed_check_publishes_its_warnings() {
    let mut session = bound_session(ADD);
    let parsed = ParseResult {
        value: Some(add_syntactic()),
        warnings: vec![warning("from the parser", 0, 2)],
        errors: vec![],
    };
    let checked = CompileAstResult::Success {
        typed_program: add_typed(),
        warnings: vec![warning("from the check", 3, 6)],
    };
    session.parse_project(MAIN, Some(&parsed), Some(&checked));
    let found = session.diagnostics();
    assert_eq!(found.len(), 1);
    same_diagnostic(&found[0], DiagnosticSeverity::Warning, "from the check", s_span(3, 6));
}

#[test]
fn parse_without_a_tree_publishes_its_diagnostics_and_skips_the_check() {
    let mut session = bound_session("fn (");
    let parsed = ParseResult {
        value: None,
        warnings: vec![],
        errors: vec![error("expected an identifier", 3, 4)],
    };
    assert!(!session.wants_type_check(MAIN, Some(&parsed)));
    // a result of the check that is handed in all the same is not used
    let checked = CompileAstResult::Success { typed_program: add_typed(), warnings: vec![] };
    session.parse_project(MAIN, Some(&parsed), Some(&checked));
    assert!(session.token_map().is_empty());
    let found = session.diagnostics();
    assert_eq!(found.len(), 1);
    same_diagnostic(&found[0], DiagnosticSeverity::Error, "expected an identifier", s_span(3, 4));
}

#[test]
fn reparse_of_a_document_that_is_not_open_runs_the_check_alone() {
    let mut session = bound_session(ADD);
    let parsed = ParseResult { value: Some(add_syntactic()), warnings: vec![], errors: vec![] };
    assert!(session.wants_type_check("/unknown.sw", None));
    let checked = CompileAstResult::Success { typed_program: add_typed(), warnings: vec![] };
    session.parse_project("/unknown.sw", Some(&parsed), Some(&checked));
    let tokens = session.token_map();
    assert_eq!(
        tokens.get(&s_key("add", 3, 6)),
        s_typed(TypedAstToken::TypedFunctionDeclaration, 0, 39)
    );
    // nothing of the syntactic tree was taken
    assert_eq!(tokens.get(&s_key("core", 34, 35)), None);
}

#[test]
fn reparse_without_manifest_runs_no_stage_and_keeps_the_diagnostics() {
    let mut session = bound_session(ADD);
    let parsed = ParseResult {
        value: Some(add_syntactic()),
        warnings: vec![warning("kept", 0, 2)],
        errors: vec![],
    };
    session.parse_project(MAIN, Some(&parsed), None);
    assert_eq!(session.diagnostics().len(), 1);
    assert!(!session.token_map().is_empty());

    let mut unbound = Session::new();
    unbound.store_document(MAIN.to_string(), ADD.to_string()).expect("free");
    assert!(!unbound.wants_type_check(MAIN, Some(&parsed)));
    let checked = CompileAstResult::Failure { warnings: vec![], errors: vec![error("e", 0, 1)] };
    unbound.parse_project(MAIN, Some(&parsed), Some(&checked));
    assert!(unbound.token_map().is_empty());
    assert!(unbound.diagnostics().is_empty());
}

#[test]
fn reparse_clears_the_entries_of_the_generation_before() {
    let mut session = bound_session(ADD);
    let parsed = ParseResult { value: Some(add_syntactic()), warnings: vec![], errors: vec![] };
    session.parse_project(MAIN, Some(&parsed), None);
    assert!(session.token_map().contains_key(&s_key("add", 3, 6)));

    session.remove_document(MAIN).expect("stored");
    session.store_document(MAIN.to_string(), UNDECLARED.to_string()).expect("free");
    let next =
        ParseResult { value: Some(undeclared_syntactic()), warnings: vec![], errors: vec![] };
    session.parse_project(MAIN, Some(&next), None);
    assert!(!session.token_map().contains_key(&s_key("add", 3, 6)));
    assert!(session.token_map().contains_key(&s_key("main", 3, 7)));
}

#[test]
fn reparse_twice_with_the_same_results_gives_the_same_generation() {
    let mut session = bound_session(ADD);
    let parsed = ParseResult {
        value: Some(add_syntactic()),
        warnings: vec![warning("from the parser", 0, 2)],
        errors: vec![],
    };
    let checked = CompileAstResult::Success {
        typed_program: add_typed(),
        warnings: vec![warning("from the check", 3, 6)],
    };
    session.parse_project(MAIN, Some(&parsed), Some(&checked));
    let names = ["add", "a", "b", "core", "ops", "u64"];
    let snapshot = |session: &Session| -> Vec<(String, usize, usize, TokenType)> {
        let mut all = Vec::new();
        for name in names {
            for found in session.token_map().all_occurrences(&name.to_string()) {
                all.push((found.key.name.clone(), found.key.span.start, found.key.span.end, found.token));
            }
        }
        all.sort_by(|a, b| (&a.0, a.1, a.2).cmp(&(&b.0, b.1, b.2)));
        all
    };
    let once = snapshot(&session);
    let once_diagnostics: Vec<String> =
        session.diagnostics().iter().map(|d| d.message.clone()).collect();
    session.parse_project(MAIN, Some(&parsed), Some(&checked));
    assert_eq!(snapshot(&session), once);
    let twice_diagnostics: Vec<String> =
        session.diagnostics().iter().map(|d| d.message.clone()).collect();
    assert_eq!(twice_diagnostics, once_diagnostics);
    assert_eq!(once.len(), 8);
}

#[test]
fn publish_swaps_in_a_generation_that_was_built_beside() {
    let mut session = bound_session(ADD);
    let parsed = ParseResult { value: Some(add_syntactic()), warnings: vec![], errors: vec![] };
    let checked = CompileAstResult::Success { typed_program: add_typed(), warnings: vec![] };
    let generation = session.build_generation(MAIN, Some(&parsed), Some(&checked));
    assert!(session.token_map().is_empty());
    assert!(generation.diagnostics().as_ref().expect("the check reported").is_empty());
    session.publish(generation);
    assert_eq!(
        session.token_map().get(&s_key("add", 3, 6)),
        s_typed(TypedAstToken::TypedFunctionDeclaration, 0, 39)
    );
}

#[test]
fn change_document_replaces_the_whole_text() {
    let mut session = Session::new();
    session.store_document(MAIN.to_string(), "first".to_string()).expect("free");
    session.store_document("/other.sw".to_string(), "other".to_string()).expect("free");
    assert!(session.change_document(MAIN, "second".to_string()).is_ok());
    assert_eq!(session.documents().get(MAIN).expect("stored").get_text(), "second");
    assert_eq!(session.documents().get("/other.sw").expect("untouched").get_text(), "other");
    let again = session.store_document(MAIN.to_string(), "third".to_string());
    assert!(matches!(again, Err(LspError::DocumentAlreadyStored)));
    assert_eq!(session.documents().get(MAIN).expect("stored").get_text(), "second");
}

#[test]
fn change_document_on_unknown_uri_is_not_found_and_changes_nothing() {
    let mut session = Session::new();
    session.store_document(MAIN.to_string(), "first".to_string()).expect("free");
    let changed = session.change_document("/unknown.sw", "text".to_string());
    assert!(matches!(changed, Err(LspError::DocumentNotFound)));
    assert!(!session.documents().contains("/unknown.sw"));
    assert_eq!(session.documents().get(MAIN).expect("untouched").get_text(), "first");
}

#[test]
fn session_answers_queries_from_the_published_index() {
    let mut session = bound_session(ADD);
    let parsed = ParseResult { value: Some(add_syntactic()), warnings: vec![], errors: vec![] };
    let checked = CompileAstResult::Success {
        typed_program: add_typed(),
        warnings: vec![warning("from the check", 3, 6)],
    };
    assert!(session.lookup(0, 4).is_none());
    session.parse_project(MAIN, Some(&parsed), Some(&checked));
    assert_eq!(session.token_map().len(), 8);

    let found = session.lookup(0, 4).expect("the name of the function covers offset 4");
    assert_eq!(found.key.name, "add");
    assert_eq!(found.key.span, s_span(3, 6));
    assert_eq!(Some(found.token), s_typed(TypedAstToken::TypedFunctionDeclaration, 0, 39));
    assert!(session.lookup(0, 0).is_none());
    assert!(session.lookup(1, 4).is_none());

    let occurrences = session.all_occurrences(&"b".to_string());
    assert_eq!(occurrences.len(), 2);
    assert!(occurrences.iter().all(|o| o.key.name == "b" && o.token.is_typed()));
    assert!(session.all_occurrences(&"c".to_string()).is_empty());

    let snapshot = session.snapshot_diagnostics();
    assert_eq!(snapshot.len(), 1);
    same_diagnostic(&snapshot[0], DiagnosticSeverity::Warning, "from the check", s_span(3, 6));
    assert_eq!(session.diagnostics().len(), 1);
}

#[test]
fn build_config_takes_a_trailing_separator_and_a_hidden_directory() {
    let trailing = Manifest::new(
        "/home/user/project/".to_string(),
        "/home/user/project/src/main.sw".to_string(),
    );
    let config = trailing.build_config().expect("the layout is regular");
    assert_eq!(
        config.canonical_root_module().as_path(),
        std::path::Path::new("/home/user/project/src/main.sw")
    );
    let hidden = Manifest::new(
        "/home/user/.hidden".to_string(),
        "/home/user/.hidden/src/lib.sw".to_string(),
    );
    assert!(hidden.build_config().is_ok());
}

#[test]
fn build_config_of_a_directory_that_ends_in_two_dots_is_refused() {
    let upward = Manifest::new("/home/user/..".to_string(), "/home/user/../src/main.sw".to_string());
    assert!(matches!(upward.build_config(), Err(LspError::BuildConfig)));
    let empty = Manifest::new(String::new(), String::new());
    assert!(matches!(empty.build_config(), Err(LspError::BuildConfig)));
}

#[test]
fn second_stage_that_could_not_run_is_build_config_not_found() {
    let session = bound_session(ADD);
    let mut tokens = TokenMap::new();
    tokens.insert(s_key("kept", 90, 94), TokenType::Token {
        kind: AstToken::Expression,
        node: s_span(90, 94),
    });
    let outcome = session.parse_ast_to_typed_tokens(None, &mut tokens);
    assert!(matches!(outcome, Err(LspError::BuildConfigNotFound)));
    assert_eq!(tokens.len(), 1);
    assert_eq!(tokens.get(&s_key("kept", 90, 94)), s_plain(AstToken::Expression, 90, 94));
}

#[test]
fn reparse_whose_check_could_not_run_keeps_the_first_stage() {
    let mut session = bound_session(ADD);
    let parsed = ParseResult {
        value: Some(add_syntactic()),
        warnings: vec![warning("from the parser", 0, 2)],
        errors: vec![],
    };
    assert!(session.wants_type_check(MAIN, Some(&parsed)));
    session.parse_project(MAIN, Some(&parsed), None);
    let found = session.diagnostics();
    assert_eq!(found.len(), 1);
    same_diagnostic(&found[0], DiagnosticSeverity::Warning, "from the parser", s_span(0, 2));
    assert_eq!(
        session.token_map().get(&s_key("add", 3, 6)),
        s_plain(AstToken::FunctionDeclaration, 0, 39)
    );
    assert_eq!(session.token_map().len(), 8);
}
