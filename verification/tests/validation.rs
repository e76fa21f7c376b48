use bt_http_cli_conf::entries::validate_bool_entries;
use bt_http_cli_conf::outcome::assemble_result;
use bt_http_cli_conf::section::find_environment_section;
use bt_http_cli_conf::{get_http_client_bool_config, ConfigValue, Diagnostic, Severity};

fn text(s: &str) -> ConfigValue {
    ConfigValue::Text(s.to_string())
}

fn document_with(environment: &str, section: ConfigValue) -> ConfigValue {
    ConfigValue::Mapping(vec![(text(environment), section)])
}

#[test]
fn only_non_boolean_values_give_one_warning_each_and_absence() {
    let section = ConfigValue::Mapping(vec![
        (text("a"), text("yes")),
        (text("b"), ConfigValue::Scalar("1".to_string())),
        (text("c"), ConfigValue::Null),
        (text("d"), ConfigValue::Sequence(vec![ConfigValue::Boolean(true)])),
        (text("e"), ConfigValue::Mapping(vec![])),
    ]);
    let mut log: Vec<Diagnostic> = Vec::new();
    let conf =
        get_http_client_bool_config(&"prod".to_string(), &Ok(document_with("prod", section)), &mut log);
    assert_eq!(conf, None);
    assert_eq!(
        log,
        vec![
            Diagnostic::EntryValueInvalid { key: "a".to_string() },
            Diagnostic::EntryValueInvalid { key: "b".to_string() },
            Diagnostic::EntryValueInvalid { key: "c".to_string() },
            Diagnostic::EntryValueInvalid { key: "d".to_string() },
            Diagnostic::EntryValueInvalid { key: "e".to_string() },
            Diagnostic::EmptyResult,
        ]
    );
    assert!(log.iter().all(|d| d.severity() == Severity::Warning));
}

#[test]
fn valid_entries_are_kept_in_document_order_between_invalid_ones() {
    let section = ConfigValue::Mapping(vec![
        (text("first"), text("nope")),
        (text("zeta"), ConfigValue::Boolean(false)),
        (ConfigValue::Boolean(true), ConfigValue::Boolean(true)),
        (text("alpha"), ConfigValue::Boolean(true)),
        (ConfigValue::Scalar("7".to_string()), text("seven")),
        (text("mid"), ConfigValue::Boolean(false)),
        (text("last"), ConfigValue::Null),
    ]);
    let mut log: Vec<Diagnostic> = Vec::new();
    let conf =
        get_http_client_bool_config(&"prod".to_string(), &Ok(document_with("prod", section)), &mut log);
    assert_eq!(
        conf,
        Some(vec![
            ("zeta".to_string(), false),
            ("alpha".to_string(), true),
            ("mid".to_string(), false),
        ])
    );
    assert_eq!(
        log,
        vec![
            Diagnostic::EntryValueInvalid { key: "first".to_string() },
            Diagnostic::EntryKeyInvalid { position: 2 },
            Diagnostic::EntryKeyInvalid { position: 4 },
            Diagnostic::EntryValueInvalid { key: "last".to_string() },
        ]
    );
}

#[test]
fn key_that_is_no_string_is_reported_by_its_position() {
    let section = vec![
        (ConfigValue::Null, ConfigValue::Boolean(true)),
        (ConfigValue::Sequence(vec![]), ConfigValue::Boolean(true)),
        (ConfigValue::Mapping(vec![]), text("x")),
    ];
    let mut log: Vec<Diagnostic> = Vec::new();
    let settings = validate_bool_entries(&section, &mut log);
    assert_eq!(settings, vec![]);
    assert_eq!(
        log,
        vec![
            Diagnostic::EntryKeyInvalid { position: 0 },
            Diagnostic::EntryKeyInvalid { position: 1 },
            Diagnostic::EntryKeyInvalid { position: 2 },
        ]
    );
}

#[test]
fn validation_of_no_entries_gives_nothing() {
    let mut log: Vec<Diagnostic> = Vec::new();
    let settings = validate_bool_entries(&vec![], &mut log);
    assert_eq!(settings, vec![]);
    assert_eq!(log, vec![]);
}

#[test]
fn validation_copies_keys_and_values() {
    let section = vec![(text("verbose"), ConfigValue::Boolean(true))];
    let mut log: Vec<Diagnostic> = Vec::new();
    let settings = validate_bool_entries(&section, &mut log);
    assert_eq!(settings, vec![("verbose".to_string(), true)]);
    assert_eq!(section, vec![(text("verbose"), ConfigValue::Boolean(true))]);
}

#[test]
fn repeated_key_in_a_section_is_kept_each_time() {
    let section = vec![
        (text("k"), ConfigValue::Boolean(true)),
        (text("k"), ConfigValue::Boolean(false)),
    ];
    let mut log: Vec<Diagnostic> = Vec::new();
    let settings = validate_bool_entries(&section, &mut log);
    assert_eq!(settings, vec![("k".to_string(), true), ("k".to_string(), false)]);
}

#[test]
fn every_entry_gives_a_setting_or_a_warning() {
    let section = vec![
        (text("a"), ConfigValue::Boolean(true)),
        (text("b"), text("true")),
        (ConfigValue::Boolean(false), ConfigValue::Boolean(false)),
        (text("c"), ConfigValue::Boolean(false)),
    ];
    let mut log: Vec<Diagnostic> = Vec::new();
    let settings = validate_bool_entries(&section, &mut log);
    assert_eq!(settings.len() + log.len(), section.len());
}

#[test]
fn assembling_settings_hands_them_on() {
    let mut log: Vec<Diagnostic> = Vec::new();
    let result = assemble_result(vec![("a".to_string(), true)], &mut log);
    assert_eq!(result, Some(vec![("a".to_string(), true)]));
    assert_eq!(log, vec![]);
}

#[test]
fn assembling_nothing_gives_absence_and_a_warning() {
    let mut log: Vec<Diagnostic> = Vec::new();
    let result = assemble_result(vec![], &mut log);
    assert_eq!(result, None);
    assert_eq!(log, vec![Diagnostic::EmptyResult]);
}

#[test]
fn section_is_found_by_its_exact_name() {
    let document = ConfigValue::Mapping(vec![
        (text("Dev"), ConfigValue::Mapping(vec![(text("upper"), ConfigValue::Boolean(true))])),
        (text("dev"), ConfigValue::Mapping(vec![(text("lower"), ConfigValue::Boolean(true))])),
    ]);
    let mut log: Vec<Diagnostic> = Vec::new();
    let section = find_environment_section(&document, &"dev".to_string(), &mut log);
    assert_eq!(section, Some(&vec![(text("lower"), ConfigValue::Boolean(true))]));
    assert_eq!(log, vec![]);
    let section = find_environment_section(&document, &"DEV".to_string(), &mut log);
    assert_eq!(section, None);
    assert_eq!(log, vec![Diagnostic::SectionMissing { environment: "DEV".to_string() }]);
    let section = find_environment_section(&document, &" dev".to_string(), &mut log);
    assert_eq!(section, None);
}

#[test]
fn section_that_is_no_mapping_counts_as_missing() {
    for value in [
        text("dev"),
        ConfigValue::Boolean(true),
        ConfigValue::Null,
        ConfigValue::Scalar("12".to_string()),
        ConfigValue::Sequence(vec![ConfigValue::Mapping(vec![])]),
    ] {
        let mut log: Vec<Diagnostic> = Vec::new();
        let conf = get_http_client_bool_config(
            &"dev".to_string(),
            &Ok(document_with("dev", value)),
            &mut log,
        );
        assert_eq!(conf, None);
        assert_eq!(log, vec![Diagnostic::SectionMissing { environment: "dev".to_string() }]);
    }
}

#[test]
fn document_that_is_no_mapping_has_no_section() {
    for document in [
        ConfigValue::Null,
        text("dev"),
        ConfigValue::Boolean(false),
        ConfigValue::Scalar("3.5".to_string()),
        ConfigValue::Sequence(vec![text("dev")]),
        ConfigValue::Mapping(vec![]),
    ] {
        let mut log: Vec<Diagnostic> = Vec::new();
        let conf = get_http_client_bool_config(&"dev".to_string(), &Ok(document), &mut log);
        assert_eq!(conf, None);
        assert_eq!(log, vec![Diagnostic::SectionMissing { environment: "dev".to_string() }]);
    }
}

#[test]
fn only_a_string_key_names_an_environment() {
    let document = ConfigValue::Mapping(vec![
        (
            ConfigValue::Scalar("1".to_string()),
            ConfigValue::Mapping(vec![(text("number"), ConfigValue::Boolean(true))]),
        ),
        (
            ConfigValue::Boolean(true),
            ConfigValue::Mapping(vec![(text("truth"), ConfigValue::Boolean(true))]),
        ),
        (text("1"), ConfigValue::Mapping(vec![(text("string"), ConfigValue::Boolean(false))])),
    ]);
    let mut log: Vec<Diagnostic> = Vec::new();
    let conf = get_http_client_bool_config(&"1".to_string(), &Ok(document), &mut log);
    assert_eq!(conf, Some(vec![("string".to_string(), false)]));
}

#[test]
fn first_of_two_sections_with_one_name_is_used() {
    let document = ConfigValue::Mapping(vec![
        (text("dev"), ConfigValue::Mapping(vec![(text("one"), ConfigValue::Boolean(true))])),
        (text("dev"), ConfigValue::Mapping(vec![(text("two"), ConfigValue::Boolean(true))])),
    ]);
    let mut log: Vec<Diagnostic> = Vec::new();
    let conf = get_http_client_bool_config(&"dev".to_string(), &Ok(document), &mut log);
    assert_eq!(conf, Some(vec![("one".to_string(), true)]));
}

#[test]
fn empty_environment_name_is_a_name_like_any_other() {
    let document =
        document_with("", ConfigValue::Mapping(vec![(text(""), ConfigValue::Boolean(true))]));
    let mut log: Vec<Diagnostic> = Vec::new();
    let conf = get_http_client_bool_config(&"".to_string(), &Ok(document), &mut log);
    assert_eq!(conf, Some(vec![("".to_string(), true)]));
    assert_eq!(log, vec![]);
}
