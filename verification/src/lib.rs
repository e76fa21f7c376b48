//! Resolution of a named environment's boolean switches from a loaded
//! configuration document, with the diagnostics that the resolution gives rise to.

pub mod diagnostic;
pub mod entries;
pub mod laws;
pub mod outcome;
pub mod section;
pub mod value;

pub use crate::diagnostic::{Diagnostic, Severity};
pub use crate::value::ConfigValue;

use crate::diagnostic::log_view;
use crate::entries::{settings_view, validate_bool_entries};
use crate::outcome::{assemble_result, load_view, resolution};
use crate::section::find_environment_section;
use vstd::prelude::*;

verus! {

/// The model of a result: the models of its settings, or absence.
pub open spec fn result_view(result: Option<Vec<(String, bool)>>) -> Option<Seq<(Seq<char>, bool)>> {
    match result {
        Some(settings) => Some(settings_view(settings@)),
        None => None,
    }
}

/// Resolves the boolean settings of `environment` from what the loader handed over.
///
/// `loaded` is the parsed document, or the loader's account of why there is none. The
/// diagnostics are added to `log` in the order in which they arise; nothing that `log`
/// held before is touched. A result that is present is never empty.
pub fn get_http_client_bool_config(
    environment: &String,
    loaded: &Result<ConfigValue, String>,
    log: &mut Vec<Diagnostic>,
) -> (result: Option<Vec<(String, bool)>>)
    ensures
        result_view(result) == resolution(environment@, load_view(*loaded)).settings,
        log_view(final(log)@) == log_view(old(log)@) + resolution(
            environment@,
            load_view(*loaded),
        ).diagnostics,
        old(log)@.is_prefix_of(final(log)@),
        result matches Some(settings) ==> settings@.len() > 0,
{
    let document = match loaded {
        Ok(document) => document,
        Err(detail) => {
            log.push(
                Diagnostic::SourceUnavailable {
                    environment: environment.clone(),
                    detail: detail.clone(),
                },
            );
            return None;
        },
    };
    let section = match find_environment_section(document, environment, log) {
        Some(section) => section,
        None => {
            return None;
        },
    };
    let settings = validate_bool_entries(section, log);
    assemble_result(settings, log)
}

} // verus!
