//! Validation of a section's entries: which become settings, and which are passed over.

use crate::diagnostic::{log_view, Diagnostic, DiagnosticView};
use crate::value::{entries_view, lemma_entries_view, ConfigValue, ValueView};
use vstd::prelude::*;

verus! {

/// The models of a list of settings, in order.
pub open spec fn settings_view(settings: Seq<(String, bool)>) -> Seq<(Seq<char>, bool)> {
    settings.map_values(|s: (String, bool)| (s.0@, s.1))
}

/// The setting that an entry stands for: it has one exactly if its key is a string and its
/// value a boolean.
pub open spec fn entry_setting(entry: (ValueView, ValueView)) -> Option<(Seq<char>, bool)> {
    match entry {
        (ValueView::Text(key), ValueView::Boolean(value)) => Some((key, value)),
        _ => None,
    }
}

/// The warning that the entry at `position` gives rise to: none if it stands for a setting,
/// else one that names the key whose value is no boolean, or the position of the entry whose
/// key is no string.
pub open spec fn entry_warning(position: int, entry: (ValueView, ValueView)) -> Option<
    DiagnosticView,
> {
    match entry {
        (ValueView::Text(_), ValueView::Boolean(_)) => None,
        (ValueView::Text(key), _) => Some(DiagnosticView::EntryValueInvalid { key }),
        _ => Some(DiagnosticView::EntryKeyInvalid { position }),
    }
}

/// The settings of a section: those of its entries that stand for one, in document order.
pub open spec fn valid_settings(section: Seq<(ValueView, ValueView)>) -> Seq<(Seq<char>, bool)> {
    section.filter_map(|e: (ValueView, ValueView)| entry_setting(e))
}

/// The warnings of a section: one for each entry that stands for no setting, in document order.
pub open spec fn entry_warnings(section: Seq<(ValueView, ValueView)>) -> Seq<DiagnosticView> {
    section.map(|i: int, e: (ValueView, ValueView)| entry_warning(i, e)).filter_map(
        |w: Option<DiagnosticView>| w,
    )
}

/// Taking one more entry into account adds its setting, if it has one, behind the others.
pub proof fn lemma_valid_settings_extend(section: Seq<(ValueView, ValueView)>, i: int)
    requires
        0 <= i < section.len(),
    ensures
        valid_settings(section.take(i + 1)) == valid_settings(section.take(i)) + (
        match entry_setting(section[i]) {
            Some(setting) => seq![setting],
            None => Seq::empty(),
        }),
{
    section.lemma_filter_map_take_succ(|e: (ValueView, ValueView)| entry_setting(e), i);
}

/// Taking one more entry into account adds its warning, if it has one, behind the others.
pub proof fn lemma_entry_warnings_extend(section: Seq<(ValueView, ValueView)>, i: int)
    requires
        0 <= i < section.len(),
    ensures
        entry_warnings(section.take(i + 1)) == entry_warnings(section.take(i)) + (
        match entry_warning(i, section[i]) {
            Some(warning) => seq![warning],
            None => Seq::empty(),
        }),
{
    let warning_at = |i: int, e: (ValueView, ValueView)| entry_warning(i, e);
    let all = section.map(warning_at);
    assert(section.take(i + 1).map(warning_at) == all.take(i + 1));
    assert(section.take(i).map(warning_at) == all.take(i));
    all.lemma_filter_map_take_succ(|w: Option<DiagnosticView>| w, i);
}

/// Goes through the entries of a section once, in document order.
///
/// An entry with a string key and a boolean value becomes a setting. Any other entry is
/// passed over with a warning in `log`, and the entries behind it are still looked at.
pub fn validate_bool_entries(
    section: &Vec<(ConfigValue, ConfigValue)>,
    log: &mut Vec<Diagnostic>,
) -> (settings: Vec<(String, bool)>)
    ensures
        settings_view(settings@) == valid_settings(entries_view(section@)),
        log_view(final(log)@) == log_view(old(log)@) + entry_warnings(entries_view(section@)),
        old(log)@.is_prefix_of(final(log)@),
{
    let ghost held = log@;
    let ghost before = log_view(log@);
    let ghost entries = entries_view(section@);
    let mut settings: Vec<(String, bool)> = Vec::new();
    let mut i: usize = 0;
    while i < section.len()
        invariant
            i <= section.len(),
            entries == entries_view(section@),
            settings_view(settings@) == valid_settings(entries.take(i as int)),
            log_view(log@) == before + entry_warnings(entries.take(i as int)),
            held.is_prefix_of(log@),
        decreases section.len() - i,
    {
        proof {
            lemma_entries_view(section@);
            lemma_valid_settings_extend(entries, i as int);
            lemma_entry_warnings_extend(entries, i as int);
        }
        let entry = &section[i];
        let ghost log_before = log_view(log@);
        match entry.0.as_text() {
            Some(key) => match entry.1.as_boolean() {
                Some(value) => {
                    settings.push((key.clone(), value));
                },
                None => {
                    log.push(Diagnostic::EntryValueInvalid { key: key.clone() });
                    assert(log_view(log@) == log_before.push(
                        DiagnosticView::EntryValueInvalid { key: key@ },
                    ));
                },
            },
            None => {
                log.push(Diagnostic::EntryKeyInvalid { position: i });
                assert(log_view(log@) == log_before.push(
                    DiagnosticView::EntryKeyInvalid { position: i as int },
                ));
            },
        }
        i += 1;
    }
    proof {
        lemma_entries_view(section@);
        assert(entries.take(section.len() as int) == entries);
    }
    settings
}

} // verus!
