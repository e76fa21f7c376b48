//! What a resolution reports besides its result.

use vstd::prelude::*;

verus! {

/// How serious a diagnostic is.
#[derive(Debug, Clone, Copy, PartialEq, Eq, Structural)]
pub enum Severity {
    /// The configuration source itself could not be had.
    Error,
    /// The source was read, and something in it was passed over.
    Warning,
}

/// One anomaly met while resolving an environment's settings.
#[derive(Debug, PartialEq, Eq)]
pub enum Diagnostic {
    /// The document could not be located or parsed; `detail` is the loader's account.
    SourceUnavailable { environment: String, detail: String },
    /// The document has no mapping under the environment's name.
    SectionMissing { environment: String },
    /// The entry at `position` of the section has a key that is not a string.
    EntryKeyInvalid { position: usize },
    /// The entry under `key` has a value that is not a boolean.
    EntryValueInvalid { key: String },
    /// No entry of the section was accepted.
    EmptyResult,
}

/// The mathematical model of a [`Diagnostic`].
pub ghost enum DiagnosticView {
    SourceUnavailable { environment: Seq<char>, detail: Seq<char> },
    SectionMissing { environment: Seq<char> },
    EntryKeyInvalid { position: int },
    EntryValueInvalid { key: Seq<char> },
    EmptyResult,
}

impl DiagnosticView {
    /// Only a source that is unavailable counts as an error.
    pub open spec fn severity(self) -> Severity {
        match self {
            DiagnosticView::SourceUnavailable { .. } => Severity::Error,
            _ => Severity::Warning,
        }
    }
}

impl View for Diagnostic {
    type V = DiagnosticView;

    open spec fn view(&self) -> DiagnosticView {
        match self {
            Diagnostic::SourceUnavailable { environment, detail } => {
                DiagnosticView::SourceUnavailable { environment: environment@, detail: detail@ }
            },
            Diagnostic::SectionMissing { environment } => DiagnosticView::SectionMissing {
                environment: environment@,
            },
            Diagnostic::EntryKeyInvalid { position } => DiagnosticView::EntryKeyInvalid {
                position: *position as int,
            },
            Diagnostic::EntryValueInvalid { key } => DiagnosticView::EntryValueInvalid {
                key: key@,
            },
            Diagnostic::EmptyResult => DiagnosticView::EmptyResult,
        }
    }
}

impl Diagnostic {
    /// The severity at which the diagnostic is to be logged.
    pub fn severity(&self) -> (level: Severity)
        ensures
            level == self@.severity(),
    {
        match self {
            Diagnostic::SourceUnavailable { .. } => Severity::Error,
            _ => Severity::Warning,
        }
    }
}

/// The models of a log's diagnostics, in the order in which they were emitted.
pub open spec fn log_view(log: Seq<Diagnostic>) -> Seq<DiagnosticView> {
    log.map_values(|d: Diagnostic| d@)
}

/// How many diagnostics of a log have the given severity.
pub open spec fn count_of(log: Seq<DiagnosticView>, severity: Severity) -> nat {
    log.filter(|d: DiagnosticView| d.severity() == severity).len()
}

} // verus!
