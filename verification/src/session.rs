//! The session: the open documents, the manifest, the published token index
//! and diagnostics, and the reparse that replaces them.
//!
//! The compiler itself runs outside. A reparse takes what the parser and the
//! type checker returned, builds the next generation of the index off to the
//! side, and publishes it whole.

use crate::diagnostic::{
    diagnostics_of, get_diagnostics, CompileError, CompileWarning, Diagnostic,
};
use crate::document::{DocumentStore, TextDocument};
use crate::error::LspError;
use crate::ident::KeyView;
use crate::manifest::Manifest;
use crate::parse_entries;
use crate::parse_tree::ParseProgram;
use crate::token::{insert_all, span_covers, Occurrence, TokenMap, TokenType};
use crate::traverse_parse_tree;
use crate::traverse_typed_tree;
use crate::typed_entries;
use crate::typed_tree::TypedProgram;
use vstd::prelude::*;

verus! {

/// What the parser returned for one source text: a tree, unless the text
/// could not be parsed at all, and its findings.
#[derive(Debug)]
pub struct ParseResult {
    pub value: Option<ParseProgram>,
    pub warnings: Vec<CompileWarning>,
    pub errors: Vec<CompileError>,
}

/// What the type checker returned for the project.
#[derive(Debug)]
pub enum CompileAstResult {
    Success { typed_program: TypedProgram, warnings: Vec<CompileWarning> },
    Failure { warnings: Vec<CompileWarning>, errors: Vec<CompileError> },
}

/// What the user has configured.
#[derive(Clone, Copy, Debug, PartialEq, Eq, Structural)]
pub struct SwayConfig {
    pub align_fields: bool,
    pub tab_size: u32,
}

impl Default for SwayConfig {
    fn default() -> (config: SwayConfig)
        ensures
            config == (SwayConfig { align_fields: true, tab_size: 4 }),
    {
        SwayConfig { align_fields: true, tab_size: 4 }
    }
}

/// What a generation is in contracts.
pub struct GenerationView {
    pub index: Map<KeyView, TokenType>,
    /// The diagnostics of the attempt; `None` where no stage reported any,
    /// so that those of the session stay.
    pub diagnostics: Option<Seq<Diagnostic>>,
}

/// One complete version of the token index with the diagnostics of the
/// compile attempt that it was built from.
#[derive(Debug)]
pub struct Generation {
    token_map: TokenMap,
    diagnostics: Option<Vec<Diagnostic>>,
}

impl View for Generation {
    type V = GenerationView;

    closed spec fn view(&self) -> GenerationView {
        GenerationView {
            index: self.token_map@,
            diagnostics: match self.diagnostics {
                Some(found) => Some(found@),
                None => None,
            },
        }
    }
}

impl Generation {
    /// The index of this generation.
    pub fn token_map(&self) -> (tokens: &TokenMap)
        ensures
            tokens@ == self@.index,
    {
        &self.token_map
    }

    /// The diagnostics of the attempt, if a stage reported any.
    pub fn diagnostics(&self) -> (found: &Option<Vec<Diagnostic>>)
        ensures
            match *found {
                Some(list) => self@.diagnostics == Some(list@),
                None => self@.diagnostics is None,
            },
    {
        &self.diagnostics
    }
}

/// What a session is in contracts.
pub struct SessionView {
    pub documents: Map<Seq<char>, Seq<char>>,
    pub manifest: Option<Manifest>,
    pub index: Map<KeyView, TokenType>,
    pub diagnostics: Seq<Diagnostic>,
    pub config: SwayConfig,
}

/// The state of one workspace: its open documents, its manifest, the
/// published index and diagnostics, and the configuration.
#[derive(Debug)]
pub struct Session {
    documents: DocumentStore,
    manifest: Option<Manifest>,
    token_map: TokenMap,
    diagnostics: Vec<Diagnostic>,
    config: SwayConfig,
}

impl View for Session {
    type V = SessionView;

    closed spec fn view(&self) -> SessionView {
        SessionView {
            documents: self.documents@,
            manifest: self.manifest,
            index: self.token_map@,
            diagnostics: self.diagnostics@,
            config: self.config,
        }
    }
}

/// The error with which the build configuration of a session with this
/// manifest is refused, if it is.
pub open spec fn config_error(manifest: Option<Manifest>) -> Option<LspError> {
    match manifest {
        None => Some(LspError::ManifestFileNotFound),
        Some(found) => if found.derives() {
            None
        } else {
            Some(LspError::BuildConfig)
        },
    }
}

/// The index after the first stage alone: the entries of the syntactic
/// tree, inserted into an empty index.
pub open spec fn syntactic_index(parsed: ParseResult) -> Map<KeyView, TokenType> {
    match parsed.value {
        Some(program) => insert_all(Map::empty(), parse_entries::nodes_entries(program.root_nodes@)),
        None => Map::empty(),
    }
}

/// Whether the first stage takes the parser's result: the document is open,
/// a build configuration can be had, and a result is given.
pub open spec fn parser_consulted(
    session: SessionView,
    uri: Seq<char>,
    parsed: Option<ParseResult>,
) -> bool {
    session.documents.dom().contains(uri) && config_error(session.manifest) is None
        && parsed is Some
}

/// The generation after the first stage.
pub open spec fn after_stage_one(
    session: SessionView,
    uri: Seq<char>,
    parsed: Option<ParseResult>,
) -> GenerationView {
    if parser_consulted(session, uri, parsed) {
        GenerationView {
            index: syntactic_index(parsed->Some_0),
            diagnostics: Some(diagnostics_of(parsed->Some_0.warnings@, parsed->Some_0.errors@)),
        }
    } else {
        GenerationView { index: Map::empty(), diagnostics: None }
    }
}

/// Whether the second stage is due: the session has a manifest, and the
/// first stage did not end without a tree.
pub open spec fn type_check_due(
    session: SessionView,
    uri: Seq<char>,
    parsed: Option<ParseResult>,
) -> bool {
    session.manifest is Some && !(parser_consulted(session, uri, parsed)
        && parsed->Some_0.value is None)
}

/// The generation after the second stage, from that after the first. A
/// check that failed replaces the diagnostics and leaves the index; one that
/// passed inserts the entries of the typed tree over those that are there,
/// and its warnings are the diagnostics.
pub open spec fn after_stage_two(
    first: GenerationView,
    checked: Option<CompileAstResult>,
) -> GenerationView {
    match checked {
        Some(CompileAstResult::Success { typed_program, warnings }) => GenerationView {
            index: insert_all(first.index, typed_entries::nodes_entries(typed_program.all_nodes@)),
            diagnostics: Some(diagnostics_of(warnings@, Seq::empty())),
        },
        Some(CompileAstResult::Failure { warnings, errors }) => GenerationView {
            index: first.index,
            diagnostics: Some(diagnostics_of(warnings@, errors@)),
        },
        None => first,
    }
}

/// The generation that a reparse of `uri` builds from what the two stages
/// returned.
pub open spec fn next_generation(
    session: SessionView,
    uri: Seq<char>,
    parsed: Option<ParseResult>,
    checked: Option<CompileAstResult>,
) -> GenerationView {
    let first = after_stage_one(session, uri, parsed);
    if type_check_due(session, uri, parsed) {
        after_stage_two(first, checked)
    } else {
        first
    }
}

/// The session after `generation` is published: its index is that of the
/// generation, whole; its diagnostics are those of the attempt, or stay
/// where the attempt has none; the rest stays.
pub open spec fn published(session: SessionView, generation: GenerationView) -> SessionView {
    SessionView {
        index: generation.index,
        diagnostics: match generation.diagnostics {
            Some(found) => found,
            None => session.diagnostics,
        },
        ..session
    }
}

/// The session after a call to store `text` under `uri`: the document is
/// added where the URI is free, and nothing changes where it is taken.
pub open spec fn after_store(session: SessionView, uri: Seq<char>, text: Seq<char>) -> SessionView {
    if session.documents.dom().contains(uri) {
        session
    } else {
        SessionView { documents: session.documents.insert(uri, text), ..session }
    }
}

impl Session {
    /// The empty session: no document, no manifest, an empty index, no
    /// diagnostics, the default configuration.
    pub fn new() -> (session: Session)
        ensures
            session@ == (SessionView {
                documents: Map::empty(),
                manifest: None,
                index: Map::empty(),
                diagnostics: Seq::empty(),
                config: SwayConfig { align_fields: true, tab_size: 4 },
            }),
    {
        Session {
            documents: DocumentStore::new(),
            manifest: None,
            token_map: TokenMap::new(),
            diagnostics: Vec::new(),
            config: SwayConfig::default(),
        }
    }

    /// Binds the session to the manifest that was found for its workspace.
    /// Where none was found the session stays as it is.
    pub fn initialize(&mut self, manifest: Option<Manifest>)
        ensures
            final(self)@ == (SessionView {
                manifest: if manifest is Some {
                    manifest
                } else {
                    old(self)@.manifest
                },
                ..old(self)@
            }),
    {
        if let Some(found) = manifest {
            self.manifest = Some(found);
        }
    }

    /// The build configuration of the session's project. Fails with
    /// `ManifestFileNotFound` where the session has no manifest, and with
    /// `BuildConfig` where it has one from which none can be derived.
    pub fn build_config(&self) -> (res: Result<sway_core::BuildConfig, LspError>)
        ensures
            res is Ok <==> config_error(self@.manifest) is None,
            res matches Err(error) ==> config_error(self@.manifest) == Some(error),
    {
        match &self.manifest {
            Some(manifest) => manifest.build_config(),
            None => Err(LspError::ManifestFileNotFound),
        }
    }

    /// The first stage. Where a build configuration can be had, the entries
    /// of the syntactic tree, if there is one, are inserted into `tokens`,
    /// and the parser's findings are returned. Where none can be had,
    /// `tokens` stays and the stage fails with `BuildConfigNotFound`.
    pub fn parse_ast_to_tokens(&self, parsed: &ParseResult, tokens: &mut TokenMap) -> (res: Result<
        Vec<Diagnostic>,
        LspError,
    >)
        ensures
            config_error(self@.manifest) is Some ==> res == Err::<Vec<Diagnostic>, LspError>(
                LspError::BuildConfigNotFound,
            ) && final(tokens)@ == old(tokens)@,
            config_error(self@.manifest) is None ==> res is Ok && res->Ok_0@ == diagnostics_of(
                parsed.warnings@,
                parsed.errors@,
            ) && final(tokens)@ == (match parsed.value {
                Some(program) => insert_all(
                    old(tokens)@,
                    parse_entries::nodes_entries(program.root_nodes@),
                ),
                None => old(tokens)@,
            }),
    {
        match self.build_config() {
            Ok(_) => {
                if let Some(program) = &parsed.value {
                    traverse_parse_tree::traverse_nodes(&program.root_nodes, tokens);
                }
                Ok(get_diagnostics(&parsed.warnings, &parsed.errors))
            },
            Err(_) => Err(LspError::BuildConfigNotFound),
        }
    }

    /// The second stage. `checked` is what the type checker returned, or
    /// `None` where the check could not run. Without a manifest, and where
    /// the check could not run, the stage fails with `BuildConfigNotFound`
    /// and `tokens` stays. Where the check failed, it fails with
    /// `FailedToParse` and the findings of the check, and `tokens` stays.
    /// Where the check passed, the entries of the typed tree are inserted
    /// into `tokens`, and the warnings are returned.
    pub fn parse_ast_to_typed_tokens(
        &self,
        checked: Option<&CompileAstResult>,
        tokens: &mut TokenMap,
    ) -> (res: Result<Vec<Diagnostic>, LspError>)
        ensures
            (self@.manifest is None || checked is None) ==> res == Err::<
                Vec<Diagnostic>,
                LspError,
            >(LspError::BuildConfigNotFound) && final(tokens)@ == old(tokens)@,
            (self@.manifest is Some && checked is Some) ==> (match *checked->Some_0 {
                CompileAstResult::Success { typed_program, warnings } => res is Ok && res->Ok_0@
                    == diagnostics_of(warnings@, Seq::empty()) && final(tokens)@ == insert_all(
                    old(tokens)@,
                    typed_entries::nodes_entries(typed_program.all_nodes@),
                ),
                CompileAstResult::Failure { warnings, errors } => res is Err && res->Err_0
                    is FailedToParse && res->Err_0->FailedToParse_0@ == diagnostics_of(
                    warnings@,
                    errors@,
                ) && final(tokens)@ == old(tokens)@,
            }),
    {
        if self.manifest.is_none() {
            return Err(LspError::BuildConfigNotFound);
        }
        match checked {
            Some(CompileAstResult::Failure { warnings, errors }) => Err(
                LspError::FailedToParse(get_diagnostics(warnings, errors)),
            ),
            Some(CompileAstResult::Success { typed_program, warnings }) => {
                traverse_typed_tree::traverse_nodes(&typed_program.all_nodes, tokens);
                let none: Vec<CompileError> = Vec::new();
                Ok(get_diagnostics(warnings, &none))
            },
            None => Err(LspError::BuildConfigNotFound),
        }
    }

    /// The text to parse and the configuration to parse it with, where the
    /// first stage of a reparse of `uri` is due: the document is open and a
    /// build configuration can be had.
    pub fn parse_request(&self, uri: &str) -> (res: Option<(String, sway_core::BuildConfig)>)
        ensures
            res is Some <==> self@.documents.dom().contains(uri@) && config_error(self@.manifest)
                is None,
            res matches Some(request) ==> request.0@ == self@.documents[uri@],
    {
        match self.documents.get(uri) {
            Some(document) => match self.build_config() {
                Ok(config) => Some((document.text.clone(), config)),
                Err(_) => None,
            },
            None => None,
        }
    }

    /// Whether the second stage of a reparse of `uri` is due, given what the
    /// parser returned.
    pub fn wants_type_check(&self, uri: &str, parsed: Option<&ParseResult>) -> (res: bool)
        ensures
            res == type_check_due(
                self@,
                uri@,
                match parsed {
                    Some(result) => Some(*result),
                    None => None,
                },
            ),
    {
        if self.manifest.is_none() {
            return false;
        }
        match parsed {
            Some(result) => {
                !(result.value.is_none() && self.documents.contains(uri)
                    && self.build_config().is_ok())
            },
            None => true,
        }
    }

    /// Builds the next generation for a reparse of `uri` from what the
    /// parser and the type checker returned, beside the published one, which
    /// stays as it is.
    pub fn build_generation(
        &self,
        uri: &str,
        parsed: Option<&ParseResult>,
        checked: Option<&CompileAstResult>,
    ) -> (generation: Generation)
        ensures
            generation@ == next_generation(
                self@,
                uri@,
                match parsed {
                    Some(result) => Some(*result),
                    None => None,
                },
                match checked {
                    Some(result) => Some(*result),
                    None => None,
                },
            ),
    {
        let mut tokens = TokenMap::new();
        let mut diagnostics: Option<Vec<Diagnostic>> = None;
        let mut no_tree = false;
        if self.documents.contains(uri) {
            if let Some(result) = parsed {
                match self.parse_ast_to_tokens(result, &mut tokens) {
                    Ok(found) => {
                        diagnostics = Some(found);
                        no_tree = result.value.is_none();
                    },
                    Err(_) => {},
                }
            }
        }
        if !no_tree {
            match self.parse_ast_to_typed_tokens(checked, &mut tokens) {
                Ok(found) => {
                    diagnostics = Some(found);
                },
                Err(LspError::FailedToParse(found)) => {
                    diagnostics = Some(found);
                },
                Err(_) => {},
            }
        }
        Generation { token_map: tokens, diagnostics }
    }

    /// Publishes `generation`: its index takes the place of the published
    /// one, whole.
    pub fn publish(&mut self, generation: Generation)
        ensures
            final(self)@ == published(old(self)@, generation@),
    {
        let Generation { token_map, diagnostics } = generation;
        self.token_map = token_map;
        if let Some(found) = diagnostics {
            self.diagnostics = found;
        }
    }

    /// Reparses `uri`: builds the next generation from what the parser and
    /// the type checker returned, and publishes it.
    pub fn parse_project(
        &mut self,
        uri: &str,
        parsed: Option<&ParseResult>,
        checked: Option<&CompileAstResult>,
    )
        ensures
            final(self)@ == published(
                old(self)@,
                next_generation(
                    old(self)@,
                    uri@,
                    match parsed {
                        Some(result) => Some(*result),
                        None => None,
                    },
                    match checked {
                        Some(result) => Some(*result),
                        None => None,
                    },
                ),
            ),
    {
        let generation = self.build_generation(uri, parsed, checked);
        self.publish(generation);
    }

    /// Stores a document with the text `text` under `uri`. Where one is
    /// stored there already, the session stays as it is and the call fails
    /// with `DocumentAlreadyStored`.
    pub fn store_document(&mut self, uri: String, text: String) -> (res: Result<(), LspError>)
        ensures
            final(self)@ == after_store(old(self)@, uri@, text@),
            res is Ok <==> !old(self)@.documents.dom().contains(uri@),
            res matches Err(error) ==> error is DocumentAlreadyStored,
    {
        match self.documents.insert(TextDocument::new(uri, text)) {
            Ok(()) => Ok(()),
            Err(_) => Err(LspError::DocumentAlreadyStored),
        }
    }

    /// Takes the document stored under `uri` out of the session. Where none
    /// is stored there, the session stays as it is and the call fails with
    /// `DocumentNotFound`.
    pub fn remove_document(&mut self, uri: &str) -> (res: Result<TextDocument, LspError>)
        ensures
            match res {
                Ok(document) => old(self)@.documents.dom().contains(uri@) && document.uri@ == uri@
                    && document.text@ == old(self)@.documents[uri@] && final(self)@
                    == (SessionView { documents: old(self)@.documents.remove(uri@), ..old(self)@ }),
                Err(error) => !old(self)@.documents.dom().contains(uri@) && error
                    is DocumentNotFound && final(self)@ == old(self)@,
            },
    {
        match self.documents.remove(uri) {
            Some(document) => Ok(document),
            None => Err(LspError::DocumentNotFound),
        }
    }

    /// Replaces the whole text of the document stored under `uri` by `text`.
    /// Where none is stored there, the session stays as it is and the call
    /// fails with `DocumentNotFound`.
    pub fn change_document(&mut self, uri: &str, text: String) -> (res: Result<(), LspError>)
        ensures
            match res {
                Ok(()) => old(self)@.documents.dom().contains(uri@) && final(self)@
                    == (SessionView {
                    documents: old(self)@.documents.insert(uri@, text@),
                    ..old(self)@
                }),
                Err(error) => !old(self)@.documents.dom().contains(uri@) && error
                    is DocumentNotFound && final(self)@ == old(self)@,
            },
    {
        let ghost before = self.documents@;
        match self.documents.remove(uri) {
            Some(document) => {
                // the URI is free now, so the insert goes through
                let stored = self.documents.insert(TextDocument::new(document.uri, text));
                proof {
                    assert(before.remove(uri@).insert(uri@, text@) =~= before.insert(uri@, text@));
                }
                match stored {
                    Ok(()) => Ok(()),
                    Err(_) => Err(LspError::DocumentNotFound),
                }
            },
            None => Err(LspError::DocumentNotFound),
        }
    }

    /// An occurrence whose span covers offset `offset` of the source
    /// `source_id` in the published index, if any does.
    pub fn lookup(&self, source_id: u64, offset: usize) -> (res: Option<Occurrence>)
        ensures
            match res {
                Some(found) => self@.index.dom().contains(found.key@) && self@.index[found.key@]
                    == found.token && span_covers(found.key@.span, source_id, offset),
                None => forall|k: KeyView|
                    self@.index.dom().contains(k) ==> !span_covers(k.span, source_id, offset),
            },
    {
        self.token_map.lookup(source_id, offset)
    }

    /// Every occurrence of `name` in the published index, each once.
    pub fn all_occurrences(&self, name: &String) -> (res: Vec<Occurrence>)
        ensures
            forall|i: int|
                0 <= i < res@.len() ==> {
                    let found = #[trigger] res@[i];
                    found.key@.name == name@ && self@.index.dom().contains(found.key@)
                        && self@.index[found.key@] == found.token
                },
            forall|k: KeyView|
                self@.index.dom().contains(k) && k.name == name@ ==> exists|i: int|
                    0 <= i < res@.len() && (#[trigger] res@[i]).key@ == k,
            forall|i: int, j: int|
                0 <= i < j < res@.len() ==> (#[trigger] res@[i]).key@ != (#[trigger] res@[j]).key@,
    {
        self.token_map.all_occurrences(name)
    }

    /// A copy of the published diagnostics.
    pub fn snapshot_diagnostics(&self) -> (res: Vec<Diagnostic>)
        ensures
            res@ == self@.diagnostics,
    {
        let mut copy: Vec<Diagnostic> = Vec::new();
        let mut i: usize = 0;
        while i < self.diagnostics.len()
            invariant
                i <= self.diagnostics@.len(),
                copy@ == self.diagnostics@.take(i as int),
            decreases self.diagnostics@.len() - i,
        {
            copy.push(self.diagnostics[i].clone());
            proof {
                assert(copy@ =~= self.diagnostics@.take(i + 1));
            }
            i += 1;
        }
        proof {
            assert(self.diagnostics@.take(self.diagnostics@.len() as int) =~= self.diagnostics@);
        }
        copy
    }

    /// The open documents.
    pub fn documents(&self) -> (documents: &DocumentStore)
        ensures
            documents@ == self@.documents,
    {
        &self.documents
    }

    /// The manifest that the session is bound to, if any.
    pub fn manifest(&self) -> (manifest: &Option<Manifest>)
        ensures
            *manifest == self@.manifest,
    {
        &self.manifest
    }

    /// The published index.
    pub fn token_map(&self) -> (tokens: &TokenMap)
        ensures
            tokens@ == self@.index,
    {
        &self.token_map
    }

    /// The published diagnostics.
    pub fn diagnostics(&self) -> (diagnostics: &Vec<Diagnostic>)
        ensures
            diagnostics@ == self@.diagnostics,
    {
        &self.diagnostics
    }

    /// The configuration.
    pub fn config(&self) -> (config: SwayConfig)
        ensures
            config == self@.config,
    {
        self.config
    }

    /// Replaces the configuration.
    pub fn update_config(&mut self, config: SwayConfig)
        ensures
            final(self)@ == (SessionView { config, ..old(self)@ }),
    {
        self.config = config;
    }
}

/// Where the parser gave a tree and the type check failed, the published
/// index is the index of the first stage: it holds every occurrence of the
/// syntactic tree, each with an entry of the first pass, and the failed check
/// took none away.
pub proof fn syntactic_entries_survive_failed_check(
    session: SessionView,
    uri: Seq<char>,
    parsed: ParseResult,
    warnings: Vec<CompileWarning>,
    errors: Vec<CompileError>,
    i: int,
)
    requires
        parser_consulted(session, uri, Some(parsed)),
        parsed.value is Some,
        0 <= i < parse_entries::nodes_entries(parsed.value->Some_0.root_nodes@).len(),
    ensures
        ({
            let after = published(
                session,
                next_generation(
                    session,
                    uri,
                    Some(parsed),
                    Some(CompileAstResult::Failure { warnings, errors }),
                ),
            );
            let entries = parse_entries::nodes_entries(parsed.value->Some_0.root_nodes@);
            &&& after.index == syntactic_index(parsed)
            &&& after.index.dom().contains(entries[i].0)
            &&& forall|key: KeyView|
                after.index.dom().contains(key) ==> #[trigger] after.index[key] is Token
            &&& after.diagnostics == diagnostics_of(warnings@, errors@)
        }),
{
    let entries = parse_entries::nodes_entries(parsed.value->Some_0.root_nodes@);
    crate::token::lemma_inserted_key_is_present(Map::empty(), entries, i);
    parse_entries::lemma_nodes_entries_plain(parsed.value->Some_0.root_nodes@);
    crate::token::lemma_insert_all_keeps_pass(Map::empty(), entries, false);
}

/// Where the type check passed, every occurrence of the typed tree has its
/// key in the published index, with an entry of the second pass; and the
/// entry under that key is the one that the typed tree gives for the
/// occurrence, with its kind, unless a later occurrence of the tree has the
/// same name at the same span.
pub proof fn typed_entries_are_indexed(
    session: SessionView,
    uri: Seq<char>,
    parsed: Option<ParseResult>,
    typed_program: TypedProgram,
    warnings: Vec<CompileWarning>,
    i: int,
)
    requires
        type_check_due(session, uri, parsed),
        0 <= i < typed_entries::nodes_entries(typed_program.all_nodes@).len(),
    ensures
        ({
            let after = published(
                session,
                next_generation(
                    session,
                    uri,
                    parsed,
                    Some(CompileAstResult::Success { typed_program, warnings }),
                ),
            );
            let entries = typed_entries::nodes_entries(typed_program.all_nodes@);
            &&& after.index.dom().contains(entries[i].0)
            &&& after.index[entries[i].0] is TypedToken
            &&& (forall|j: int| i < j < entries.len() ==> (#[trigger] entries[j]).0 != entries[i].0)
                ==> after.index[entries[i].0] == entries[i].1
            &&& after.diagnostics == diagnostics_of(warnings@, Seq::empty())
        }),
{
    let first = after_stage_one(session, uri, parsed);
    let entries = typed_entries::nodes_entries(typed_program.all_nodes@);
    crate::token::lemma_inserted_key_is_present(first.index, entries, i);
    crate::token::lemma_inserted_key_holds_an_inserted_entry(first.index, entries, i);
    typed_entries::lemma_nodes_entries_typed(typed_program.all_nodes@);
    if forall|j: int| i < j < entries.len() ==> (#[trigger] entries[j]).0 != entries[i].0 {
        crate::token::lemma_last_insert_wins(first.index, entries, i);
    }
}

/// An occurrence of the syntactic tree that the typed tree has no
/// occurrence for keeps its entry when the type check passes.
pub proof fn typed_pass_keeps_other_entries(
    first: GenerationView,
    typed_program: TypedProgram,
    warnings: Vec<CompileWarning>,
    key: KeyView,
)
    requires
        forall|i: int|
            0 <= i < typed_entries::nodes_entries(typed_program.all_nodes@).len() ==> (
            #[trigger] typed_entries::nodes_entries(typed_program.all_nodes@)[i]).0 != key,
    ensures
        ({
            let second = after_stage_two(
                first,
                Some(CompileAstResult::Success { typed_program, warnings }),
            );
            &&& second.index.dom().contains(key) == first.index.dom().contains(key)
            &&& first.index.dom().contains(key) ==> second.index[key] == first.index[key]
        }),
{
    crate::token::lemma_other_keys_kept(
        first.index,
        typed_entries::nodes_entries(typed_program.all_nodes@),
        key,
    );
}

/// Whether the syntactic tree of `parsed` has an occurrence with the key
/// `key`.
pub open spec fn syntactic_tree_has(parsed: Option<ParseResult>, key: KeyView) -> bool {
    match parsed {
        Some(ParseResult { value: Some(program), .. }) => exists|i: int|
            0 <= i < parse_entries::nodes_entries(program.root_nodes@).len() && (
            #[trigger] parse_entries::nodes_entries(program.root_nodes@)[i]).0 == key,
        _ => false,
    }
}

/// Whether `checked` is a check that passed and its typed tree has an
/// occurrence with the key `key`.
pub open spec fn typed_tree_has(checked: Option<CompileAstResult>, key: KeyView) -> bool {
    match checked {
        Some(CompileAstResult::Success { typed_program, .. }) => exists|i: int|
            0 <= i < typed_entries::nodes_entries(typed_program.all_nodes@).len() && (
            #[trigger] typed_entries::nodes_entries(typed_program.all_nodes@)[i]).0 == key,
        _ => false,
    }
}

/// Every key of the index that a reparse builds is the key of an occurrence
/// of the syntactic tree that the first stage took, or of the typed tree of
/// a check that passed: the index holds nothing of any other origin.
pub proof fn index_holds_only_occurrences_of_the_trees(
    session: SessionView,
    uri: Seq<char>,
    parsed: Option<ParseResult>,
    checked: Option<CompileAstResult>,
    key: KeyView,
)
    requires
        next_generation(session, uri, parsed, checked).index.dom().contains(key),
    ensures
        (parser_consulted(session, uri, parsed) && syntactic_tree_has(parsed, key)) || (
        type_check_due(session, uri, parsed) && typed_tree_has(checked, key)),
{
    let first = after_stage_one(session, uri, parsed);
    if first.index.dom().contains(key) {
        crate::token::lemma_no_other_keys(
            Map::empty(),
            parse_entries::nodes_entries(parsed->Some_0.value->Some_0.root_nodes@),
            key,
        );
    } else {
        match checked {
            Some(CompileAstResult::Success { typed_program, warnings }) => {
                crate::token::lemma_no_other_keys(
                    first.index,
                    typed_entries::nodes_entries(typed_program.all_nodes@),
                    key,
                );
            },
            _ => {},
        }
    }
}

/// A reparse with the same results, right after a reparse, changes nothing:
/// it publishes the same index and the same diagnostics again.
pub proof fn reparse_is_idempotent(
    session: SessionView,
    uri: Seq<char>,
    parsed: Option<ParseResult>,
    checked: Option<CompileAstResult>,
)
    ensures
        ({
            let once = published(session, next_generation(session, uri, parsed, checked));
            let twice = published(once, next_generation(once, uri, parsed, checked));
            twice == once
        }),
{
}

/// A published generation is never mixed with the one before it: the index
/// after a reparse does not depend on the index before it.
pub proof fn reparse_replaces_index(
    session: SessionView,
    other_index: Map<KeyView, TokenType>,
    uri: Seq<char>,
    parsed: Option<ParseResult>,
    checked: Option<CompileAstResult>,
)
    ensures
        published(session, next_generation(session, uri, parsed, checked)).index == published(
            SessionView { index: other_index, ..session },
            next_generation(
                SessionView { index: other_index, ..session },
                uri,
                parsed,
                checked,
            ),
        ).index,
{
}

/// A second call to store a document under a URI, right after a first,
/// changes nothing: the text stored under the URI is the one that was there
/// after the first call.
pub proof fn second_store_changes_nothing(
    session: SessionView,
    uri: Seq<char>,
    first_text: Seq<char>,
    second_text: Seq<char>,
)
    ensures
        ({
            let once = after_store(session, uri, first_text);
            let twice = after_store(once, uri, second_text);
            &&& once.documents.dom().contains(uri)
            &&& twice == once
            &&& !session.documents.dom().contains(uri) ==> twice.documents[uri] == first_text
        }),
{
}

} // verus!
