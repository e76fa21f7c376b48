//! What a resolution comes to: the settings, or their absence, and the diagnostics.

use crate::diagnostic::{log_view, Diagnostic, DiagnosticView};
use crate::entries::{entry_warnings, valid_settings};
use crate::section::environment_section;
use crate::value::{ConfigValue, ValueView};
use vstd::prelude::*;

verus! {

/// The model of a resolution's outcome.
pub ghost struct Resolution {
    /// The settings, in document order; `None` where there is no usable configuration.
    pub settings: Option<Seq<(Seq<char>, bool)>>,
    /// The diagnostics, in the order in which they are emitted.
    pub diagnostics: Seq<DiagnosticView>,
}

/// The model of what the loader handed over: the document, or its account of the failure.
pub open spec fn load_view(loaded: Result<ConfigValue, String>) -> Result<ValueView, Seq<char>> {
    match loaded {
        Ok(document) => Ok(document@),
        Err(detail) => Err(detail@),
    }
}

/// The outcome of resolving `environment` against what the loader handed over.
///
/// A failed load gives absence and one error. A document without a section for the
/// environment gives absence and one warning. Else every entry of the section is looked at:
/// the valid ones are the settings, each of the others gives a warning, and where no entry
/// is valid the outcome is absence, with one more warning behind those.
pub open spec fn resolution(environment: Seq<char>, loaded: Result<ValueView, Seq<char>>) -> Resolution {
    match loaded {
        Err(detail) => Resolution {
            settings: None,
            diagnostics: seq![DiagnosticView::SourceUnavailable { environment, detail }],
        },
        Ok(document) => match environment_section(document, environment) {
            None => Resolution {
                settings: None,
                diagnostics: seq![DiagnosticView::SectionMissing { environment }],
            },
            Some(section) => if valid_settings(section).len() > 0 {
                Resolution {
                    settings: Some(valid_settings(section)),
                    diagnostics: entry_warnings(section),
                }
            } else {
                Resolution {
                    settings: None,
                    diagnostics: entry_warnings(section).push(DiagnosticView::EmptyResult),
                }
            },
        },
    }
}

/// Turns the settings that validation accepted into the result.
///
/// One setting or more are handed on as they are. None at all becomes absence, with one
/// warning in `log`.
pub fn assemble_result(settings: Vec<(String, bool)>, log: &mut Vec<Diagnostic>) -> (result: Option<
    Vec<(String, bool)>,
>)
    ensures
        settings@.len() > 0 ==> result == Some(settings) && final(log)@ == old(log)@,
        settings@.len() == 0 ==> result is None && log_view(final(log)@) == log_view(
            old(log)@,
        ).push(DiagnosticView::EmptyResult) && old(log)@.is_prefix_of(final(log)@),
{
    if settings.len() > 0 {
        Some(settings)
    } else {
        log.push(Diagnostic::EmptyResult);
        None
    }
}

} // verus!
