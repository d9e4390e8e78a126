use fortis::audio::AudioError;
use fortis::config::{
    audio_device_select_options, clamp_number, default_schema, round_to_precision, validate_value,
    ConfigEntry, ConfigError, ConfigField, ConfigGroup, ConfigManager, ConfigNode, NumberField,
    SelectOption, StoredValue, TextField, NUMBER_SCALE,
};

fn devices(names: &[&str]) -> Result<Vec<String>, AudioError> {
    Ok(names.iter().map(|n| n.to_string()).collect())
}

fn manager() -> ConfigManager {
    ConfigManager::with_default_schema(&devices(&["Mic A", "Mic B"]))
}

fn colors() -> Vec<&'static str> {
    vec!["blue", "cyan", "magenta", "amber", "green"]
}

#[test]
fn builders_set_their_fields() {
    let option = SelectOption::new("v", "Label");
    assert_eq!(option.value, "v");
    assert_eq!(option.label, "Label");

    let text = TextField::new("x").with_placeholder("hint").secret(true).with_max_length(3);
    assert_eq!(text.default, "x");
    assert_eq!(text.placeholder.as_deref(), Some("hint"));
    assert!(text.secret);
    assert_eq!(text.max_length, Some(3));
    let plain = TextField::new("");
    assert_eq!(plain.placeholder, None);
    assert!(!plain.secret);
    assert_eq!(plain.max_length, None);

    let number = NumberField::new(5).with_bounds(1, 9).with_step(2).with_precision(3).with_unit("dB");
    assert_eq!(number.default, 5);
    assert_eq!(number.min, Some(1));
    assert_eq!(number.max, Some(9));
    assert_eq!(number.step, Some(2));
    assert_eq!(number.precision, Some(3));
    assert_eq!(number.unit.as_deref(), Some("dB"));

    let entry = ConfigEntry::new("k", "L", ConfigField::Toggle { default: true }).with_description("d");
    assert_eq!(entry.key, "k");
    assert_eq!(entry.label, "L");
    assert_eq!(entry.description.as_deref(), Some("d"));

    let group = ConfigGroup::new("g", "G")
        .with_description("about")
        .with_children(vec![ConfigNode::Entry(entry)]);
    assert_eq!(group.key, "g");
    assert_eq!(group.label, "G");
    assert_eq!(group.description.as_deref(), Some("about"));
    assert_eq!(group.children.len(), 1);
}

#[test]
fn number_scale_is_a_million() {
    assert_eq!(NUMBER_SCALE, 1_000_000);
}

#[test]
fn clamp_applies_min_then_max() {
    let field = NumberField::new(0).with_bounds(-10, 10);
    assert_eq!(clamp_number(&field, -11), -10);
    assert_eq!(clamp_number(&field, 11), 10);
    assert_eq!(clamp_number(&field, 3), 3);
    let free = NumberField::new(0);
    assert_eq!(clamp_number(&free, i64::MAX), i64::MAX);
    let crossed = NumberField::new(0).with_bounds(10, 5);
    assert_eq!(clamp_number(&crossed, 0), 5);
}

#[test]
fn rounding_is_to_the_nearest_place_half_away_from_zero() {
    assert_eq!(round_to_precision(1_234_567, Some(2)), 1_230_000);
    assert_eq!(round_to_precision(1_235_000, Some(2)), 1_240_000);
    assert_eq!(round_to_precision(-1_235_000, Some(2)), -1_240_000);
    assert_eq!(round_to_precision(-1_234_999, Some(2)), -1_230_000);
    assert_eq!(round_to_precision(1_500_000, Some(0)), 2_000_000);
    assert_eq!(round_to_precision(-500_000, Some(0)), -1_000_000);
    assert_eq!(round_to_precision(499_999, Some(0)), 0);
    assert_eq!(round_to_precision(1_234_567, Some(5)), 1_234_570);
    assert_eq!(round_to_precision(1_234_567, Some(6)), 1_234_567);
    assert_eq!(round_to_precision(1_234_567, Some(200)), 1_234_567);
    assert_eq!(round_to_precision(1_234_567, None), 1_234_567);
    assert_eq!(round_to_precision(i64::MAX, Some(0)), i64::MAX);
    assert_eq!(round_to_precision(i64::MIN, Some(0)), i64::MIN);
}

#[test]
fn defaults_are_read_before_anything_is_set() {
    let m = manager();
    assert_eq!(m.bool_value("ui.behavior.auto_scroll").unwrap(), true);
    assert_eq!(m.bool_value("ui.behavior.compact_mode").unwrap(), false);
    assert_eq!(m.select_value("ui.theme.accent_color").unwrap(), "blue");
    assert_eq!(m.number_value("ui.theme.brightness").unwrap(), 1_000_000);
    assert_eq!(m.number_value("audio.input.normalization_level").unwrap(), -18_000_000);
    assert_eq!(m.select_value("audio.input.device").unwrap(), "Mic A");
    assert_eq!(m.text_value("transcriber.deepgram.api_key").unwrap(), "");
    assert_eq!(m.select_value("transcriber.deepgram.language").unwrap(), "en-US");
    assert!(!m.has_unsaved_changes());
    assert!(m.stored_values().is_empty());
}

#[test]
fn unknown_key_is_reported() {
    let mut m = manager();
    for error in [
        m.bool_value("nope").unwrap_err(),
        m.set_bool("nope", true).unwrap_err(),
        m.toggle_bool("nope").unwrap_err(),
        m.number_value("nope").unwrap_err(),
        m.set_number("nope", 1).unwrap_err(),
        m.adjust_number("nope", 1).unwrap_err(),
        m.select_value("nope").map(|_| ()).unwrap_err(),
        m.set_select("nope", "x").unwrap_err(),
        m.cycle_select("nope", 1).unwrap_err(),
        m.text_value("nope").map(|_| ()).unwrap_err(),
        m.set_text("nope", "x").unwrap_err(),
        m.update_select_options("nope", vec![], None).unwrap_err(),
        m.entry("nope").map(|_| ()).unwrap_err(),
    ] {
        assert!(matches!(&error, ConfigError::UnknownKey(key) if key == "nope"));
        assert_eq!(error.message(), "unknown configuration key 'nope'");
    }
    assert!(!m.has_unsaved_changes());
}

#[test]
fn type_mismatch_names_the_expected_type() {
    let mut m = manager();
    let cases: Vec<(ConfigError, &str)> = vec![
        (m.bool_value("ui.theme.brightness").unwrap_err(), "boolean"),
        (m.set_bool("ui.theme.brightness", true).unwrap_err(), "boolean"),
        (m.number_value("ui.behavior.auto_scroll").unwrap_err(), "number"),
        (m.set_number("ui.behavior.auto_scroll", 1).unwrap_err(), "number"),
        (m.adjust_number("ui.behavior.auto_scroll", 1).unwrap_err(), "number"),
        (m.select_value("ui.behavior.auto_scroll").map(|_| ()).unwrap_err(), "select"),
        (m.set_select("ui.behavior.auto_scroll", "x").unwrap_err(), "select"),
        (m.cycle_select("ui.behavior.auto_scroll", 1).unwrap_err(), "select"),
        (m.update_select_options("ui.behavior.auto_scroll", vec![], None).unwrap_err(), "select"),
        (m.text_value("ui.behavior.auto_scroll").map(|_| ()).unwrap_err(), "text"),
        (m.set_text("ui.behavior.auto_scroll", "x").unwrap_err(), "text"),
    ];
    for (error, expected) in cases {
        match &error {
            ConfigError::TypeMismatch { expected: found, .. } => assert_eq!(*found, expected),
            other => panic!("unexpected error {other:?}"),
        }
    }
    let error = m.bool_value("ui.theme.brightness").unwrap_err();
    assert_eq!(error.message(), "configuration 'ui.theme.brightness' expects type boolean");
}

#[test]
fn other_errors_have_messages_too() {
    assert_eq!(
        ConfigError::Persistence("disk full".into()).message(),
        "failed to persist configuration: disk full"
    );
    assert_eq!(
        ConfigError::Serialization("bad".into()).message(),
        "failed to serialize configuration: bad"
    );
}

#[test]
fn toggles_report_genuine_changes_only() {
    let mut m = manager();
    assert_eq!(m.set_bool("ui.behavior.auto_scroll", true).unwrap(), false);
    assert!(!m.has_unsaved_changes());
    assert_eq!(m.set_bool("ui.behavior.auto_scroll", false).unwrap(), true);
    assert!(m.has_unsaved_changes());
    m.mark_saved();
    assert_eq!(m.stored_values(), vec![("ui.behavior.auto_scroll".to_string(), StoredValue::Bool(false))]);
    assert_eq!(m.set_bool("ui.behavior.auto_scroll", false).unwrap(), false);
    assert!(!m.has_unsaved_changes());
    assert_eq!(m.toggle_bool("ui.behavior.auto_scroll").unwrap(), true);
    assert_eq!(m.bool_value("ui.behavior.auto_scroll").unwrap(), true);
    // back on the default, nothing is stored
    assert!(m.stored_values().is_empty());
}

#[test]
fn cycling_forward_then_backward_returns() {
    for n in 0..12 {
        let mut m = manager();
        m.set_select("ui.theme.accent_color", "magenta").unwrap();
        m.mark_saved();
        let mut writes = 0;
        let mut changes = 0;
        for direction in std::iter::repeat(1).take(n).chain(std::iter::repeat(-1).take(n)) {
            let before = m.select_value("ui.theme.accent_color").unwrap();
            let changed = m.cycle_select("ui.theme.accent_color", direction).unwrap();
            let after = m.select_value("ui.theme.accent_color").unwrap();
            if changed {
                assert!(m.has_unsaved_changes());
                m.mark_saved();
                writes += 1;
            }
            assert!(!m.has_unsaved_changes());
            if before != after {
                changes += 1;
            }
        }
        assert_eq!(m.select_value("ui.theme.accent_color").unwrap(), "magenta");
        assert_eq!(writes, changes);
        assert_eq!(writes, 2 * n);
    }
}

#[test]
fn cycling_wraps_around_both_ends() {
    let mut m = manager();
    let all = colors();
    for step in 1..=5 {
        assert!(m.cycle_select("ui.theme.accent_color", 1).unwrap());
        assert_eq!(m.select_value("ui.theme.accent_color").unwrap(), all[step % 5]);
    }
    assert!(m.cycle_select("ui.theme.accent_color", -1).unwrap());
    assert_eq!(m.select_value("ui.theme.accent_color").unwrap(), "green");
    assert!(m.cycle_select("ui.theme.accent_color", 7).unwrap());
    assert_eq!(m.select_value("ui.theme.accent_color").unwrap(), "cyan");
    assert!(m.cycle_select("ui.theme.accent_color", -13).unwrap());
    assert_eq!(m.select_value("ui.theme.accent_color").unwrap(), "amber");
    assert_eq!(m.cycle_select("ui.theme.accent_color", 5).unwrap(), false);
    assert_eq!(m.cycle_select("ui.theme.accent_color", 0).unwrap(), false);
    assert_eq!(m.cycle_select("ui.theme.accent_color", isize::MAX).is_ok(), true);
    assert_eq!(m.cycle_select("ui.theme.accent_color", isize::MIN).is_ok(), true);
}

#[test]
fn setting_the_present_select_value_writes_nothing() {
    let mut m = manager();
    assert_eq!(m.set_select("ui.theme.accent_color", "blue").unwrap(), false);
    assert!(!m.has_unsaved_changes());
    assert_eq!(m.set_select("ui.theme.accent_color", "cyan").unwrap(), true);
    m.mark_saved();
    assert_eq!(m.set_select("ui.theme.accent_color", "cyan").unwrap(), false);
    assert!(!m.has_unsaved_changes());
}

#[test]
fn select_rejects_what_is_no_option() {
    let mut m = manager();
    let error = m.set_select("ui.theme.accent_color", "pink").unwrap_err();
    match &error {
        ConfigError::ValidationFailed { key, message } => {
            assert_eq!(key, "ui.theme.accent_color");
            assert_eq!(message, "'pink' is not a valid option");
        }
        other => panic!("unexpected error {other:?}"),
    }
    assert_eq!(
        error.message(),
        "configuration 'ui.theme.accent_color' failed validation: 'pink' is not a valid option"
    );
    assert_eq!(m.select_value("ui.theme.accent_color").unwrap(), "blue");
}

#[test]
fn setting_a_settled_number_to_itself_is_a_no_op() {
    let mut m = manager();
    let value = m.number_value("ui.theme.brightness").unwrap();
    assert_eq!(m.set_number("ui.theme.brightness", value).unwrap(), false);
    assert!(!m.has_unsaved_changes());
    assert_eq!(m.set_number("ui.theme.brightness", 1_250_000).unwrap(), true);
    m.mark_saved();
    let value = m.number_value("ui.theme.brightness").unwrap();
    assert_eq!(value, 1_250_000);
    assert_eq!(m.set_number("ui.theme.brightness", value).unwrap(), false);
    assert!(!m.has_unsaved_changes());
    assert_eq!(m.stored_values(), vec![("ui.theme.brightness".to_string(), StoredValue::Number(1_250_000))]);
}

#[test]
fn numbers_are_clamped_and_rounded_when_set() {
    let mut m = manager();
    assert!(m.set_number("ui.theme.brightness", 5_000_000).unwrap());
    assert_eq!(m.number_value("ui.theme.brightness").unwrap(), 1_400_000);
    assert!(m.set_number("ui.theme.brightness", 0).unwrap());
    assert_eq!(m.number_value("ui.theme.brightness").unwrap(), 600_000);
    assert!(m.set_number("ui.theme.brightness", 1_234_567).unwrap());
    assert_eq!(m.number_value("ui.theme.brightness").unwrap(), 1_230_000);
    // rounds to the value that is stored: no change
    assert_eq!(m.set_number("ui.theme.brightness", 1_231_000).unwrap(), false);
    // back to the default: the stored value goes
    assert!(m.set_number("ui.theme.brightness", 1_000_000).unwrap());
    assert!(m.stored_values().is_empty());
    // rounds to the default while nothing is stored: no change
    assert_eq!(m.set_number("audio.input.normalization_level", -17_600_000).unwrap(), false);
    assert!(m.set_number("audio.input.normalization_level", -17_400_000).unwrap());
    assert_eq!(m.number_value("audio.input.normalization_level").unwrap(), -17_000_000);
}

#[test]
fn adjusting_moves_by_steps() {
    let mut m = manager();
    assert!(m.adjust_number("ui.theme.brightness", 1).unwrap());
    assert_eq!(m.number_value("ui.theme.brightness").unwrap(), 1_050_000);
    assert!(m.adjust_number("ui.theme.brightness", -3).unwrap());
    assert_eq!(m.number_value("ui.theme.brightness").unwrap(), 900_000);
    assert!(m.adjust_number("ui.theme.brightness", 100).unwrap());
    assert_eq!(m.number_value("ui.theme.brightness").unwrap(), 1_400_000);
    assert_eq!(m.adjust_number("ui.theme.brightness", 1).unwrap(), false);
    assert_eq!(m.adjust_number("ui.theme.brightness", 0).unwrap(), false);
    assert!(m.adjust_number("ui.theme.brightness", i64::MIN).unwrap());
    assert_eq!(m.number_value("ui.theme.brightness").unwrap(), 600_000);
    assert!(m.adjust_number("audio.input.normalization_level", 5).unwrap());
    assert_eq!(m.number_value("audio.input.normalization_level").unwrap(), -13_000_000);
}

#[test]
fn a_number_without_step_moves_by_one() {
    let schema = ConfigGroup::new("root", "Root").with_children(vec![ConfigNode::Entry(
        ConfigEntry::new("n", "N", ConfigField::Number(NumberField::new(0))),
    )]);
    let mut m = ConfigManager::new(schema);
    assert!(m.adjust_number("n", 3).unwrap());
    assert_eq!(m.number_value("n").unwrap(), 3_000_000);
    assert!(m.adjust_number("n", i64::MAX).unwrap());
    assert_eq!(m.number_value("n").unwrap(), i64::MAX);
}

#[test]
fn text_is_limited_in_length() {
    let mut m = manager();
    let key = "transcriber.deepgram.api_key";
    assert_eq!(m.set_text(key, "").unwrap(), false);
    assert_eq!(m.set_text(key, "abc").unwrap(), true);
    assert_eq!(m.text_value(key).unwrap(), "abc");
    assert_eq!(m.set_text(key, "abc").unwrap(), false);
    let long = "é".repeat(128);
    assert_eq!(m.set_text(key, &long).unwrap(), true);
    let too_long = "é".repeat(129);
    let error = m.set_text(key, &too_long).unwrap_err();
    match &error {
        ConfigError::ValidationFailed { key: found, message } => {
            assert_eq!(found, key);
            assert_eq!(message, "value exceeds maximum length of 128 characters");
        }
        other => panic!("unexpected error {other:?}"),
    }
    assert_eq!(m.text_value(key).unwrap(), long);
    assert_eq!(m.set_text(key, "").unwrap(), true);
    assert!(m.stored_values().is_empty());
}

#[test]
fn device_options_follow_the_enumeration() {
    let (default, options) = audio_device_select_options(&devices(&["One", "Two"]));
    assert_eq!(default, "One");
    assert_eq!(options.len(), 2);
    assert_eq!((options[1].value.as_str(), options[1].label.as_str()), ("Two", "Two"));

    let (default, options) = audio_device_select_options(&devices(&[]));
    assert_eq!(default, "__no_devices__");
    assert_eq!(options.len(), 1);
    assert_eq!(options[0].value, "__no_devices__");
    assert_eq!(options[0].label, "No input devices detected");

    let (default, options) = audio_device_select_options(&Err(AudioError::NoInputDevices));
    assert_eq!(default, "__no_devices__");
    assert_eq!(options[0].label, "Audio device enumeration failed");
}

#[test]
fn default_schema_has_the_expected_shape() {
    let schema = default_schema(&devices(&["Mic"]));
    assert_eq!(schema.key, "root");
    assert_eq!(schema.label, "Settings");
    let keys: Vec<&str> = schema
        .children
        .iter()
        .map(|node| match node {
            ConfigNode::Group(group) => group.key.as_str(),
            ConfigNode::Entry(entry) => entry.key.as_str(),
        })
        .collect();
    assert_eq!(keys, vec!["ui", "audio", "transcriber"]);
    let m = ConfigManager::new(schema);
    let entry = m.entry("transcriber.deepgram.language").unwrap();
    assert_eq!(entry.label, "Language");
    match &entry.field {
        ConfigField::Select { default, options } => {
            assert_eq!(default, "en-US");
            assert_eq!(options.len(), 12);
            assert_eq!(options[11].label, "Korean");
        }
        other => panic!("unexpected field {other:?}"),
    }
    let entry = m.entry("audio.input.normalization_level").unwrap();
    match &entry.field {
        ConfigField::Number(field) => {
            assert_eq!(field.default, -18_000_000);
            assert_eq!(field.min, Some(-40_000_000));
            assert_eq!(field.max, Some(0));
            assert_eq!(field.step, Some(1_000_000));
            assert_eq!(field.precision, Some(0));
            assert_eq!(field.unit.as_deref(), Some("dB"));
        }
        other => panic!("unexpected field {other:?}"),
    }
}

#[test]
fn updating_options_keeps_a_valid_value() {
    let mut m = manager();
    m.set_select("audio.input.device", "Mic B").unwrap();
    m.mark_saved();
    let options = vec![SelectOption::new("Mic B", "Mic B"), SelectOption::new("Mic C", "Mic C")];
    m.update_select_options("audio.input.device", options, Some("Mic C".to_string())).unwrap();
    assert_eq!(m.select_value("audio.input.device").unwrap(), "Mic B");
    assert!(!m.has_unsaved_changes());
    match &m.entry("audio.input.device").unwrap().field {
        ConfigField::Select { default, options } => {
            assert_eq!(default, "Mic C");
            assert_eq!(options.len(), 2);
        }
        other => panic!("unexpected field {other:?}"),
    }
}

#[test]
fn updating_options_replaces_an_invalid_value() {
    let mut m = manager();
    m.set_select("audio.input.device", "Mic B").unwrap();
    m.mark_saved();
    let options = vec![SelectOption::new("X", "X"), SelectOption::new("Y", "Y")];
    m.update_select_options("audio.input.device", options, None).unwrap();
    // the present default is no option any more: the first option becomes the default
    assert_eq!(m.select_value("audio.input.device").unwrap(), "X");
    assert!(m.has_unsaved_changes());
    assert!(m.stored_values().is_empty());
}

#[test]
fn updating_options_to_none_forgets_the_value() {
    let mut m = manager();
    m.set_select("audio.input.device", "Mic B").unwrap();
    m.update_select_options("audio.input.device", vec![], None).unwrap();
    assert!(m.stored_values().is_empty());
    assert_eq!(m.cycle_select("audio.input.device", 1).unwrap(), false);
    assert_eq!(m.select_value("audio.input.device").unwrap(), "Mic A");
}

#[test]
fn updating_options_with_a_default_that_is_no_option_fails() {
    let mut m = manager();
    let options = vec![SelectOption::new("X", "X")];
    let error = m
        .update_select_options("audio.input.device", options, Some("Z".to_string()))
        .unwrap_err();
    assert!(matches!(error, ConfigError::ValidationFailed { .. }));
}

#[test]
fn loaded_values_are_validated_per_key() {
    let mut m = manager();
    let store = vec![
        ("ui.behavior.auto_scroll".to_string(), StoredValue::Bool(false)),
        ("ui.behavior.compact_mode".to_string(), StoredValue::Text("yes".into())),
        ("ui.theme.accent_color".to_string(), StoredValue::Text("green".into())),
        ("ui.theme.brightness".to_string(), StoredValue::Number(9_999_999)),
        ("audio.input.device".to_string(), StoredValue::Text("Gone".into())),
        ("transcriber.deepgram.api_key".to_string(), StoredValue::Text("k".repeat(200))),
        ("transcriber.deepgram.language".to_string(), StoredValue::Other),
        ("no.such.key".to_string(), StoredValue::Bool(true)),
        ("audio.input.normalization_level".to_string(), StoredValue::Number(-12_400_000)),
    ];
    m.load_values(&store);
    assert_eq!(m.bool_value("ui.behavior.auto_scroll").unwrap(), false);
    assert_eq!(m.bool_value("ui.behavior.compact_mode").unwrap(), false);
    assert_eq!(m.select_value("ui.theme.accent_color").unwrap(), "green");
    assert_eq!(m.number_value("ui.theme.brightness").unwrap(), 1_400_000);
    assert_eq!(m.select_value("audio.input.device").unwrap(), "Mic A");
    assert_eq!(m.text_value("transcriber.deepgram.api_key").unwrap(), "");
    assert_eq!(m.select_value("transcriber.deepgram.language").unwrap(), "en-US");
    assert_eq!(m.number_value("audio.input.normalization_level").unwrap(), -12_000_000);
    assert!(!m.has_unsaved_changes());
    let mut stored = m.stored_values();
    stored.sort_by(|a, b| a.0.cmp(&b.0));
    assert_eq!(
        stored,
        vec![
            ("audio.input.normalization_level".to_string(), StoredValue::Number(-12_000_000)),
            ("ui.behavior.auto_scroll".to_string(), StoredValue::Bool(false)),
            ("ui.theme.accent_color".to_string(), StoredValue::Text("green".into())),
            ("ui.theme.brightness".to_string(), StoredValue::Number(1_400_000)),
        ]
    );
}

#[test]
fn validate_value_by_field_kind() {
    let toggle = ConfigEntry::new("t", "T", ConfigField::Toggle { default: false });
    assert_eq!(validate_value(&toggle, &StoredValue::Bool(true)), Some(StoredValue::Bool(true)));
    assert_eq!(validate_value(&toggle, &StoredValue::Number(1)), None);
    let number = ConfigEntry::new(
        "n",
        "N",
        ConfigField::Number(NumberField::new(0).with_bounds(0, 10_000_000).with_precision(1)),
    );
    assert_eq!(validate_value(&number, &StoredValue::Number(3_333_333)), Some(StoredValue::Number(3_300_000)));
    assert_eq!(validate_value(&number, &StoredValue::Number(-5)), Some(StoredValue::Number(0)));
    assert_eq!(validate_value(&number, &StoredValue::Text("3".into())), None);
    let select = ConfigEntry::new(
        "s",
        "S",
        ConfigField::Select { default: "a".into(), options: vec![SelectOption::new("a", "A")] },
    );
    assert_eq!(validate_value(&select, &StoredValue::Text("a".into())), Some(StoredValue::Text("a".into())));
    assert_eq!(validate_value(&select, &StoredValue::Text("b".into())), None);
    assert_eq!(validate_value(&select, &StoredValue::Other), None);
    let text = ConfigEntry::new("x", "X", ConfigField::Text(TextField::new("").with_max_length(2)));
    assert_eq!(validate_value(&text, &StoredValue::Text("ab".into())), Some(StoredValue::Text("ab".into())));
    assert_eq!(validate_value(&text, &StoredValue::Text("abc".into())), None);
    assert_eq!(validate_value(&text, &StoredValue::Bool(true)), None);
}

#[test]
fn the_last_entry_of_a_key_is_the_one_that_is_read() {
    let schema = ConfigGroup::new("root", "Root").with_children(vec![
        ConfigNode::Entry(ConfigEntry::new("k", "First", ConfigField::Toggle { default: true })),
        ConfigNode::Group(ConfigGroup::new("g", "G").with_children(vec![ConfigNode::Entry(
            ConfigEntry::new("k", "Second", ConfigField::Toggle { default: false }),
        )])),
    ]);
    let m = ConfigManager::new(schema);
    assert_eq!(m.entry("k").unwrap().label, "Second");
    assert_eq!(m.bool_value("k").unwrap(), false);
}
