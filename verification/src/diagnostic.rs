//! Diagnostics: what the compiler reports of a source text, as the session
//! keeps it.

use crate::ident::Span;
use vstd::prelude::*;

verus! {

/// How grave a finding is.
#[derive(Clone, Copy, Debug, PartialEq, Eq, Structural)]
pub enum DiagnosticSeverity {
    Warning,
    Error,
}

/// One finding of the compiler, with the place that it is about.
#[derive(Debug)]
pub struct Diagnostic {
    pub severity: DiagnosticSeverity,
    pub message: String,
    pub span: Span,
}

impl Clone for Diagnostic {
    fn clone(&self) -> (res: Self)
        ensures
            res == *self,
    {
        Diagnostic { severity: self.severity, message: self.message.clone(), span: self.span }
    }
}

/// A warning as the compiler gives it.
#[derive(Debug)]
pub struct CompileWarning {
    pub message: String,
    pub span: Span,
}

/// An error as the compiler gives it.
#[derive(Debug)]
pub struct CompileError {
    pub message: String,
    pub span: Span,
}

/// The diagnostic that a warning becomes.
pub open spec fn warning_diagnostic(warning: CompileWarning) -> Diagnostic {
    Diagnostic {
        severity: DiagnosticSeverity::Warning,
        message: warning.message,
        span: warning.span,
    }
}

/// The diagnostic that an error becomes.
pub open spec fn error_diagnostic(error: CompileError) -> Diagnostic {
    Diagnostic { severity: DiagnosticSeverity::Error, message: error.message, span: error.span }
}

/// The diagnostics of one compiler run: its warnings in order, then its
/// errors in order.
pub open spec fn diagnostics_of(warnings: Seq<CompileWarning>, errors: Seq<CompileError>) -> Seq<
    Diagnostic,
> {
    Seq::new(warnings.len(), |i: int| warning_diagnostic(warnings[i])) + Seq::new(
        errors.len(),
        |i: int| error_diagnostic(errors[i]),
    )
}

/// Turns what a compiler run reported into diagnostics: the warnings first,
/// then the errors, each list in its order.
pub fn get_diagnostics(warnings: &Vec<CompileWarning>, errors: &Vec<CompileError>) -> (res: Vec<
    Diagnostic,
>)
    ensures
        res@ == diagnostics_of(warnings@, errors@),
{
    let mut diagnostics: Vec<Diagnostic> = Vec::new();
    let ghost from_warnings = Seq::new(
        warnings@.len(),
        |i: int| warning_diagnostic(warnings@[i]),
    );
    let ghost from_errors = Seq::new(errors@.len(), |i: int| error_diagnostic(errors@[i]));
    let mut i: usize = 0;
    while i < warnings.len()
        invariant
            i <= warnings.len(),
            from_warnings == Seq::new(warnings@.len(), |i: int| warning_diagnostic(warnings@[i])),
            diagnostics@ == from_warnings.take(i as int),
        decreases warnings.len() - i,
    {
        let warning = &warnings[i];
        diagnostics.push(
            Diagnostic {
                severity: DiagnosticSeverity::Warning,
                message: warning.message.clone(),
                span: warning.span,
            },
        );
        proof {
            assert(diagnostics@ =~= from_warnings.take(i + 1));
        }
        i += 1;
    }
    proof {
        assert(from_warnings.take(warnings.len() as int) =~= from_warnings);
    }
    let mut j: usize = 0;
    while j < errors.len()
        invariant
            j <= errors.len(),
            from_errors == Seq::new(errors@.len(), |i: int| error_diagnostic(errors@[i])),
            diagnostics@ == from_warnings + from_errors.take(j as int),
        decreases errors.len() - j,
    {
        let error = &errors[j];
        diagnostics.push(
            Diagnostic {
                severity: DiagnosticSeverity::Error,
                message: error.message.clone(),
                span: error.span,
            },
        );
        proof {
            assert(diagnostics@ =~= from_warnings + from_errors.take(j + 1));
        }
        j += 1;
    }
    proof {
        assert(from_errors.take(errors.len() as int) =~= from_errors);
    }
    diagnostics
}

} // verus!
