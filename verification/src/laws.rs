//! Laws of the resolution, stated over its model.

use crate::diagnostic::{count_of, log_view, Diagnostic, DiagnosticView, Severity};
use crate::entries::{
    entry_setting, entry_warning, entry_warnings, lemma_entry_warnings_extend,
    lemma_valid_settings_extend, settings_view, valid_settings,
};
use crate::outcome::{load_view, resolution};
use crate::result_view;
use crate::section::environment_section;
use crate::value::{value_at, ConfigValue, ValueView};
use vstd::prelude::*;

verus! {

/// A log whose diagnostics all have one severity counts as many of that severity as it is
/// long, and none of any other.
pub proof fn lemma_count_uniform(log: Seq<DiagnosticView>, severity: Severity, other: Severity)
    requires
        forall|i: int| 0 <= i < log.len() ==> (#[trigger] log[i]).severity() == severity,
        other != severity,
    ensures
        count_of(log, severity) == log.len(),
        count_of(log, other) == 0,
    decreases log.len(),
{
    reveal(Seq::filter);
    if log.len() > 0 {
        lemma_count_uniform(log.drop_last(), severity, other);
    }
}

/// No mapping holds a value under a name that none of its keys is, and a mapping without a
/// value under a name has no key that is the name.
pub proof fn lemma_value_at_absent(entries: Seq<(ValueView, ValueView)>, name: Seq<char>)
    ensures
        value_at(entries, name) is None <==> forall|i: int|
            0 <= i < entries.len() ==> (#[trigger] entries[i]).0 != ValueView::Text(name),
    decreases entries.len(),
{
    if entries.len() > 0 {
        let rest = entries.drop_first();
        lemma_value_at_absent(rest, name);
        if entries.first().0 != ValueView::Text(name) {
            if value_at(rest, name) is None {
                assert forall|i: int| 0 <= i < entries.len() implies (#[trigger] entries[i]).0
                    != ValueView::Text(name) by {
                    if i > 0 {
                        assert(entries[i] == rest[i - 1]);
                    }
                }
            } else {
                let j = choose|j: int|
                    0 <= j < rest.len() && (#[trigger] rest[j]).0 == ValueView::Text(name);
                assert(entries[j + 1] == rest[j]);
            }
        }
    }
}

/// The value under a name is the value of the first entry whose key is the name.
pub proof fn lemma_value_at_first(entries: Seq<(ValueView, ValueView)>, name: Seq<char>, i: int)
    requires
        0 <= i < entries.len(),
        entries[i].0 == ValueView::Text(name),
        forall|j: int| 0 <= j < i ==> (#[trigger] entries[j]).0 != ValueView::Text(name),
    ensures
        value_at(entries, name) == Some(entries[i].1),
    decreases i,
{
    if i > 0 {
        let rest = entries.drop_first();
        assert(entries.first() == entries[0]);
        assert forall|j: int| 0 <= j < i - 1 implies (#[trigger] rest[j]).0 != ValueView::Text(
            name,
        ) by {
            assert(rest[j] == entries[j + 1]);
        }
        lemma_value_at_first(rest, name, i - 1);
    }
}

/// Every entry of a section is accounted for once: it gives a setting or a warning, never
/// both and never neither.
pub proof fn lemma_every_entry_is_visited(section: Seq<(ValueView, ValueView)>)
    ensures
        valid_settings(section).len() + entry_warnings(section).len() == section.len(),
        forall|i: int|
            0 <= i < section.len() ==> (entry_setting(#[trigger] section[i]) is Some
                <==> entry_warning(i, section[i]) is None),
    decreases section.len(),
{
    if section.len() > 0 {
        let n = section.len() - 1;
        let front = section.take(n);
        lemma_every_entry_is_visited(front);
        lemma_valid_settings_extend(section, n);
        lemma_entry_warnings_extend(section, n);
        assert(section.take(n + 1) == section);
    } else {
        assert(valid_settings(section).len() == 0);
        assert(entry_warnings(section).len() == 0);
    }
}

/// The settings of two runs of entries, one behind the other, are the settings of the first
/// behind those of the second: validation keeps the order of the document and judges each
/// entry by itself.
pub proof fn lemma_valid_settings_concat(
    front: Seq<(ValueView, ValueView)>,
    back: Seq<(ValueView, ValueView)>,
)
    ensures
        valid_settings(front + back) == valid_settings(front) + valid_settings(back),
    decreases back.len(),
{
    if back.len() == 0 {
        assert(front + back == front);
        assert(valid_settings(back).len() == 0);
    } else {
        let n = back.len() - 1;
        let all = front + back;
        lemma_valid_settings_concat(front, back.take(n));
        lemma_valid_settings_extend(back, n);
        lemma_valid_settings_extend(all, front.len() + n);
        assert(back.take(n + 1) == back);
        assert(all.take(front.len() + n + 1) == all);
        assert(all.take(front.len() + n) == front + back.take(n));
    }
}

/// A single entry gives the one setting that it stands for, or none.
pub proof fn lemma_valid_settings_single(entry: (ValueView, ValueView))
    ensures
        valid_settings(seq![entry]) == match entry_setting(entry) {
            Some(setting) => seq![setting],
            None => Seq::empty(),
        },
{
    let one = seq![entry];
    lemma_valid_settings_extend(one, 0);
    assert(one.take(1) == one);
    assert(valid_settings(one.take(0)).len() == 0);
}

/// All that validation emits is warnings.
pub proof fn lemma_entry_warnings_are_warnings(section: Seq<(ValueView, ValueView)>)
    ensures
        forall|k: int|
            0 <= k < entry_warnings(section).len() ==> (#[trigger] entry_warnings(
                section,
            )[k]).severity() == Severity::Warning,
    decreases section.len(),
{
    if section.len() > 0 {
        let n = section.len() - 1;
        lemma_entry_warnings_are_warnings(section.take(n));
        lemma_entry_warnings_extend(section, n);
        assert(section.take(n + 1) == section);
    } else {
        assert(entry_warnings(section).len() == 0);
    }
}

/// Where no entry of a section has a boolean value, there is no setting, and the warnings
/// are one for each entry, in the order of the entries.
pub proof fn lemma_no_boolean_values(section: Seq<(ValueView, ValueView)>)
    requires
        forall|i: int| 0 <= i < section.len() ==> !((#[trigger] section[i]).1 is Boolean),
    ensures
        valid_settings(section).len() == 0,
        entry_warnings(section).len() == section.len(),
        forall|i: int|
            0 <= i < section.len() ==> Some(#[trigger] entry_warnings(section)[i])
                == entry_warning(i, section[i]),
    decreases section.len(),
{
    if section.len() > 0 {
        let n = section.len() - 1;
        let front = section.take(n);
        assert forall|i: int| 0 <= i < front.len() implies !((#[trigger] front[i]).1 is Boolean) by {
            assert(front[i] == section[i]);
        }
        lemma_no_boolean_values(front);
        lemma_valid_settings_extend(section, n);
        lemma_entry_warnings_extend(section, n);
        assert(section.take(n + 1) == section);
        assert(!(section[n].1 is Boolean));
    } else {
        assert(valid_settings(section).len() == 0);
        assert(entry_warnings(section).len() == 0);
    }
}

/// A load that fails gives absence, and exactly one diagnostic: an error that names the
/// environment and carries the loader's account.
pub proof fn lemma_load_failure(environment: Seq<char>, detail: Seq<char>)
    ensures
        resolution(environment, Err(detail)).settings is None,
        resolution(environment, Err(detail)).diagnostics == seq![
            DiagnosticView::SourceUnavailable { environment, detail },
        ],
        count_of(resolution(environment, Err(detail)).diagnostics, Severity::Error) == 1,
        count_of(resolution(environment, Err(detail)).diagnostics, Severity::Warning) == 0,
{
    lemma_count_uniform(
        resolution(environment, Err(detail)).diagnostics,
        Severity::Error,
        Severity::Warning,
    );
}

/// A document that holds nothing under the environment's name gives absence, and exactly one
/// diagnostic: a warning that names the environment.
pub proof fn lemma_environment_absent(environment: Seq<char>, document: ValueView)
    requires
        document.get(environment) is None,
    ensures
        resolution(environment, Ok(document)).settings is None,
        resolution(environment, Ok(document)).diagnostics == seq![
            DiagnosticView::SectionMissing { environment },
        ],
        count_of(resolution(environment, Ok(document)).diagnostics, Severity::Warning) == 1,
        count_of(resolution(environment, Ok(document)).diagnostics, Severity::Error) == 0,
{
    lemma_count_uniform(
        resolution(environment, Ok(document)).diagnostics,
        Severity::Warning,
        Severity::Error,
    );
}

/// A value under the environment's name that is no mapping is treated as if the name were
/// absent.
pub proof fn lemma_environment_not_a_mapping(environment: Seq<char>, document: ValueView)
    requires
        document.get(environment) matches Some(value) && !(value is Mapping),
    ensures
        resolution(environment, Ok(document)) == resolution(environment, Ok(ValueView::Null)),
{
}

/// A section without entries gives absence, with the one warning that nothing was found.
pub proof fn lemma_empty_section(environment: Seq<char>, document: ValueView)
    requires
        environment_section(document, environment) == Some(Seq::<(ValueView, ValueView)>::empty()),
    ensures
        resolution(environment, Ok(document)).settings is None,
        resolution(environment, Ok(document)).diagnostics == seq![DiagnosticView::EmptyResult],
{
    let section = Seq::<(ValueView, ValueView)>::empty();
    assert(valid_settings(section).len() == 0);
    assert(entry_warnings(section).len() == 0);
}

/// A section in which no entry has a boolean value gives absence. Every entry is looked at:
/// the diagnostics are one warning for each entry, in the order of the entries, and behind
/// them the warning that nothing was found.
pub proof fn lemma_only_invalid_values(
    environment: Seq<char>,
    document: ValueView,
    section: Seq<(ValueView, ValueView)>,
)
    requires
        environment_section(document, environment) == Some(section),
        forall|i: int| 0 <= i < section.len() ==> !((#[trigger] section[i]).1 is Boolean),
    ensures
        resolution(environment, Ok(document)).settings is None,
        resolution(environment, Ok(document)).diagnostics.len() == section.len() + 1,
        forall|i: int|
            0 <= i < section.len() ==> Some(
                #[trigger] resolution(environment, Ok(document)).diagnostics[i],
            ) == entry_warning(i, section[i]),
        resolution(environment, Ok(document)).diagnostics.last() == DiagnosticView::EmptyResult,
        count_of(resolution(environment, Ok(document)).diagnostics, Severity::Warning)
            == section.len() + 1,
        count_of(resolution(environment, Ok(document)).diagnostics, Severity::Error) == 0,
{
    lemma_no_boolean_values(section);
    lemma_entry_warnings_are_warnings(section);
    lemma_count_uniform(
        resolution(environment, Ok(document)).diagnostics,
        Severity::Warning,
        Severity::Error,
    );
}

/// A section with at least one valid entry gives a result that is present: exactly the valid
/// entries, in document order. The others are left out, each with its warning, and nothing
/// else is reported.
pub proof fn lemma_valid_entries_are_kept(
    environment: Seq<char>,
    document: ValueView,
    section: Seq<(ValueView, ValueView)>,
    i: int,
)
    requires
        environment_section(document, environment) == Some(section),
        0 <= i < section.len(),
        entry_setting(section[i]) is Some,
    ensures
        resolution(environment, Ok(document)).settings == Some(valid_settings(section)),
        valid_settings(section).contains(entry_setting(section[i])->0),
        resolution(environment, Ok(document)).diagnostics == entry_warnings(section),
        valid_settings(section).len() + entry_warnings(section).len() == section.len(),
{
    let front = section.take(i);
    let back = section.skip(i + 1);
    let setting = entry_setting(section[i])->0;
    assert(section == front + seq![section[i]] + back);
    lemma_valid_settings_concat(front + seq![section[i]], back);
    lemma_valid_settings_concat(front, seq![section[i]]);
    lemma_valid_settings_single(section[i]);
    assert(valid_settings(section)[valid_settings(front).len() as int] == setting);
    lemma_every_entry_is_visited(section);
}

/// A result that is present is never empty.
pub proof fn lemma_present_is_not_empty(environment: Seq<char>, loaded: Result<ValueView, Seq<char>>)
    ensures
        resolution(environment, loaded).settings matches Some(settings) ==> settings.len() > 0,
{
}

/// Resolving twice against a source that has not changed gives equal results: both absent, or
/// both present with as many settings and, at each position, the same key and the same value.
/// The diagnostics that the two runs add are the same as well.
pub proof fn lemma_resolution_is_repeatable(
    environment: String,
    loaded: Result<ConfigValue, String>,
    first: Option<Vec<(String, bool)>>,
    first_log: Vec<Diagnostic>,
    second: Option<Vec<(String, bool)>>,
    second_log: Vec<Diagnostic>,
)
    requires
        result_view(first) == resolution(environment@, load_view(loaded)).settings,
        result_view(second) == resolution(environment@, load_view(loaded)).settings,
        log_view(first_log@) == resolution(environment@, load_view(loaded)).diagnostics,
        log_view(second_log@) == resolution(environment@, load_view(loaded)).diagnostics,
    ensures
        first is Some <==> second is Some,
        first matches Some(a) ==> second matches Some(b) && a@.len() == b@.len() && forall|
            i: int,
        |
            0 <= i < a@.len() ==> (#[trigger] a@[i]).0@ == b@[i].0@ && a@[i].1 == b@[i].1,
        first_log@.len() == second_log@.len(),
        forall|i: int| 0 <= i < first_log@.len() ==> (#[trigger] first_log@[i])@ == second_log@[i]@,
{
    if let Some(a) = first {
        let b = second->0;
        assert(settings_view(a@) == settings_view(b@));
        assert(settings_view(a@).len() == settings_view(b@).len());
        assert forall|i: int| 0 <= i < a@.len() implies (#[trigger] a@[i]).0@ == b@[i].0@
            && a@[i].1 == b@[i].1 by {
            assert(settings_view(a@)[i] == settings_view(b@)[i]);
        }
    }
    assert(log_view(first_log@).len() == first_log@.len());
    assert(log_view(second_log@).len() == second_log@.len());
    assert forall|i: int| 0 <= i < first_log@.len() implies (#[trigger] first_log@[i])@
        == second_log@[i]@ by {
        assert(log_view(first_log@)[i] == first_log@[i]@);
        assert(log_view(second_log@)[i] == second_log@[i]@);
    }
}

} // verus!
