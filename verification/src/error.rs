//! The errors that the session reports to its caller.

use crate::diagnostic::Diagnostic;
use vstd::prelude::*;

verus! {

/// What the session can fail with.
#[derive(Debug)]
pub enum LspError {
    /// A manifest is there, but no build configuration can be made from it.
    BuildConfig,
    /// A compile stage found no build configuration to run with.
    BuildConfigNotFound,
    /// The session is bound to no manifest.
    ManifestFileNotFound,
    /// The document store holds no document under the URI.
    DocumentNotFound,
    /// The document store holds a document under the URI already.
    DocumentAlreadyStored,
    /// The type check ran and rejected the program; these are its findings.
    FailedToParse(Vec<Diagnostic>),
}

impl LspError {
    /// The text of the error's message.
    pub open spec fn spec_message(&self) -> Seq<char> {
        match *self {
            LspError::BuildConfig => "could not create a sway build config from manifest"@,
            LspError::BuildConfigNotFound => "no build config found"@,
            LspError::ManifestFileNotFound => "no manifest file found"@,
            LspError::DocumentNotFound => "document not found"@,
            LspError::DocumentAlreadyStored => "document already stored"@,
            LspError::FailedToParse(_) => "Failed to parse typed AST"@,
        }
    }

    /// The error's message.
    pub fn message(&self) -> (res: String)
        ensures
            res@ == self.spec_message(),
    {
        match self {
            LspError::BuildConfig => "could not create a sway build config from manifest".to_owned(),
            LspError::BuildConfigNotFound => "no build config found".to_owned(),
            LspError::ManifestFileNotFound => "no manifest file found".to_owned(),
            LspError::DocumentNotFound => "document not found".to_owned(),
            LspError::DocumentAlreadyStored => "document already stored".to_owned(),
            LspError::FailedToParse(_) => "Failed to parse typed AST".to_owned(),
        }
    }
}

} // verus!
