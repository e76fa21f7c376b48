//! Finding the section of a document that belongs to an environment.

use crate::diagnostic::{log_view, Diagnostic, DiagnosticView};
use crate::value::{entries_view, ConfigValue, ValueView};
use vstd::prelude::*;

verus! {

/// The entries of the mapping that `document` holds under the key `environment`.
///
/// There is none where the document is no mapping, where it has no such key (the name is
/// compared as it stands, letter for letter), and where the value under the key is no mapping.
pub open spec fn environment_section(document: ValueView, environment: Seq<char>) -> Option<
    Seq<(ValueView, ValueView)>,
> {
    match document.get(environment) {
        Some(ValueView::Mapping(section)) => Some(section),
        _ => None,
    }
}

/// Looks up the section of `environment` in `document`.
///
/// Where there is none, one warning that names the environment goes to `log`; else `log` is
/// left as it was.
pub fn find_environment_section<'a>(
    document: &'a ConfigValue,
    environment: &String,
    log: &mut Vec<Diagnostic>,
) -> (section: Option<&'a Vec<(ConfigValue, ConfigValue)>>)
    ensures
        match section {
            Some(found) => {
                &&& environment_section(document@, environment@) == Some(entries_view(found@))
                &&& final(log)@ == old(log)@
            },
            None => {
                &&& environment_section(document@, environment@) is None
                &&& log_view(final(log)@) == log_view(old(log)@).push(
                    DiagnosticView::SectionMissing { environment: environment@ },
                )
                &&& old(log)@.is_prefix_of(final(log)@)
            },
        },
{
    if let Some(value) = document.get(environment) {
        if let Some(section) = value.as_mapping() {
            return Some(section);
        }
    }
    log.push(Diagnostic::SectionMissing { environment: environment.clone() });
    None
}

} // verus!
