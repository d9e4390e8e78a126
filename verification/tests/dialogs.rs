use fortis::audio::AudioError;
use fortis::config::{ConfigEntry, ConfigField, ConfigGroup, ConfigManager, ConfigNode, TextField};
use fortis::keys::{KeyCode, KeyEvent, KeyModifiers};
use fortis::widgets::device_dialog::{centre_offset, DeviceDialogState};
use fortis::widgets::footer::{footer_controls, footer_height, footer_separator};
use fortis::widgets::settings_dialog::{
    next_char_boundary, previous_char_boundary, step_multiplier, DialogEvent, DisplayItem,
    SettingsDialogState,
};
use fortis::widgets::settings_display::{
    dialog_extent, format_number, format_value, padding_width, SpanStyle,
};

fn manager() -> ConfigManager {
    ConfigManager::with_default_schema(&Ok(vec!["Mic A".to_string(), "Mic B".to_string()]))
}

fn press(code: KeyCode) -> KeyEvent {
    KeyEvent::new(code, KeyModifiers::empty())
}

fn used(value_changed: bool) -> DialogEvent {
    DialogEvent { handled: true, close: false, value_changed }
}

fn selected_key(dialog: &SettingsDialogState) -> String {
    dialog.selected_entry().map(|entry| entry.key.clone()).unwrap_or_default()
}

fn select(dialog: &mut SettingsDialogState, manager: &mut ConfigManager, key: &str) {
    for _ in 0..50 {
        if selected_key(dialog) == key {
            return;
        }
        dialog.handle_key_event(press(KeyCode::Down), manager);
    }
    panic!("no entry {key}");
}

#[test]
fn device_dialog_moves_within_its_devices() {
    let mut dialog = DeviceDialogState::new(vec!["A".into(), "B".into(), "C".into()], 1);
    assert_eq!(dialog.selected(), 1);
    assert_eq!(dialog.current_device_index, 1);
    dialog.select_previous();
    dialog.select_previous();
    assert_eq!(dialog.selected(), 0);
    dialog.select_next();
    dialog.select_next();
    dialog.select_next();
    assert_eq!(dialog.selected(), 2);
    let mut empty = DeviceDialogState::new(vec![], 0);
    empty.select_next();
    assert_eq!(empty.selected(), 0);
}

#[test]
fn device_dialog_layout() {
    let dialog = DeviceDialogState::new(vec!["A".into(), "B".into(), "C".into()], 0);
    assert_eq!(dialog.dialog_height(40), 7);
    assert_eq!(dialog.dialog_height(9), 5);
    assert_eq!(dialog.dialog_height(3), 0);
    assert_eq!(centre_offset(80, 60), 10);
    assert_eq!(centre_offset(81, 60), 10);
    assert_eq!(centre_offset(10, 60), 0);
}

#[test]
fn footer_lists_the_controls() {
    let controls = footer_controls();
    assert_eq!(controls.len(), 6);
    assert_eq!(controls[0], ("SPACE", "Pause/Resume"));
    assert_eq!(controls[5], ("q/ESC", "Quit"));
    assert_eq!(footer_separator(true), " ");
    assert_eq!(footer_separator(false), "   ");
    assert_eq!(footer_height(true), 2);
    assert_eq!(footer_height(false), 3);
}

#[test]
fn rows_follow_the_schema() {
    let m = manager();
    let dialog = SettingsDialogState::new(&m);
    let described: Vec<(usize, String, bool)> = dialog
        .items()
        .iter()
        .map(|item| match item {
            DisplayItem::Group { depth, label, .. } => (*depth, label.clone(), false),
            DisplayItem::Entry { depth, entry } => (*depth, entry.label.clone(), true),
        })
        .collect();
    let expected: Vec<(usize, &str, bool)> = vec![
        (0, "Interface", false),
        (1, "Behavior", false),
        (2, "Auto-scroll Transcripts", true),
        (2, "Compact Layout", true),
        (1, "Theme", false),
        (2, "Accent Color", true),
        (2, "Theme Brightness", true),
        (0, "Audio", false),
        (1, "Input", false),
        (2, "Normalization Level", true),
        (2, "Input Device", true),
        (0, "Transcriber", false),
        (1, "Deepgram", false),
        (2, "API Key", true),
        (2, "Language", true),
    ];
    assert_eq!(described.len(), expected.len());
    for (found, wanted) in described.iter().zip(expected.iter()) {
        assert_eq!((found.0, found.1.as_str(), found.2), *wanted);
    }
    assert_eq!(dialog.selected_row(), 2);
    assert_eq!(selected_key(&dialog), "ui.behavior.auto_scroll");
    assert!(dialog.items()[2].is_selectable());
    assert!(!dialog.items()[0].is_selectable());
}

#[test]
fn selection_skips_headings_and_stops_at_the_ends() {
    let m = manager();
    let mut dialog = SettingsDialogState::new(&m);
    assert!(!dialog.select_previous());
    assert_eq!(dialog.selected_row(), 2);
    assert!(dialog.select_next());
    assert_eq!(dialog.selected_row(), 3);
    assert!(dialog.select_next());
    assert_eq!(dialog.selected_row(), 5);
    assert!(dialog.select_previous());
    assert_eq!(dialog.selected_row(), 3);
    for _ in 0..20 {
        dialog.select_next();
    }
    assert_eq!(dialog.selected_row(), 14);
    assert!(!dialog.select_next());
}

#[test]
fn a_dialog_without_entries_has_nothing_to_select() {
    let m = ConfigManager::new(ConfigGroup::new("root", "Root").with_children(vec![
        ConfigNode::Group(ConfigGroup::new("g", "Empty")),
    ]));
    let mut dialog = SettingsDialogState::new(&m);
    assert_eq!(dialog.selected_row(), 0);
    assert!(dialog.selected_entry().is_none());
    assert!(!dialog.select_next());
    assert!(!dialog.select_previous());
    let mut m = m;
    assert_eq!(dialog.handle_key_event(press(KeyCode::Enter), &mut m), DialogEvent::unhandled());
    assert_eq!(
        dialog.handle_key_event(press(KeyCode::Esc), &mut m),
        DialogEvent { handled: true, close: true, value_changed: false }
    );
}

#[test]
fn keys_change_the_selected_setting() {
    let mut m = manager();
    let mut dialog = SettingsDialogState::new(&m);
    // toggle
    assert_eq!(dialog.handle_key_event(press(KeyCode::Char(' ')), &mut m), used(true));
    assert_eq!(m.bool_value("ui.behavior.auto_scroll").unwrap(), false);
    assert_eq!(dialog.handle_key_event(press(KeyCode::Enter), &mut m), used(true));
    assert_eq!(m.bool_value("ui.behavior.auto_scroll").unwrap(), true);
    assert_eq!(dialog.handle_key_event(press(KeyCode::Left), &mut m), DialogEvent::unhandled());
    // select
    select(&mut dialog, &mut m, "ui.theme.accent_color");
    assert_eq!(dialog.handle_key_event(press(KeyCode::Right), &mut m), used(true));
    assert_eq!(m.select_value("ui.theme.accent_color").unwrap(), "cyan");
    assert_eq!(dialog.handle_key_event(press(KeyCode::Enter), &mut m), used(true));
    assert_eq!(dialog.handle_key_event(press(KeyCode::Char(' ')), &mut m), used(true));
    assert_eq!(m.select_value("ui.theme.accent_color").unwrap(), "amber");
    assert_eq!(dialog.handle_key_event(press(KeyCode::Left), &mut m), used(true));
    assert_eq!(m.select_value("ui.theme.accent_color").unwrap(), "magenta");
    assert_eq!(dialog.handle_key_event(press(KeyCode::Char('x')), &mut m), DialogEvent::unhandled());
    // number
    assert_eq!(dialog.handle_key_event(press(KeyCode::Tab), &mut m), used(false));
    assert_eq!(selected_key(&dialog), "ui.theme.brightness");
    assert_eq!(dialog.handle_key_event(press(KeyCode::Right), &mut m), used(true));
    assert_eq!(m.number_value("ui.theme.brightness").unwrap(), 1_050_000);
    assert_eq!(
        dialog.handle_key_event(KeyEvent::new(KeyCode::Left, KeyModifiers::shift()), &mut m),
        used(true)
    );
    assert_eq!(m.number_value("ui.theme.brightness").unwrap(), 800_000);
    assert_eq!(
        dialog.handle_key_event(KeyEvent::new(KeyCode::Right, KeyModifiers::control()), &mut m),
        used(true)
    );
    assert_eq!(m.number_value("ui.theme.brightness").unwrap(), 1_300_000);
    for c in ['+', '='] {
        assert_eq!(dialog.handle_key_event(press(KeyCode::Char(c)), &mut m), used(true));
    }
    assert_eq!(m.number_value("ui.theme.brightness").unwrap(), 1_400_000);
    assert_eq!(dialog.handle_key_event(press(KeyCode::Char('+')), &mut m), used(false));
    for c in ['-', '_'] {
        assert_eq!(dialog.handle_key_event(press(KeyCode::Char(c)), &mut m), used(true));
    }
    assert_eq!(m.number_value("ui.theme.brightness").unwrap(), 1_300_000);
    assert_eq!(dialog.handle_key_event(press(KeyCode::Enter), &mut m), DialogEvent::unhandled());
    assert_eq!(dialog.handle_key_event(press(KeyCode::BackTab), &mut m), used(false));
    assert_eq!(selected_key(&dialog), "ui.theme.accent_color");
    assert_eq!(dialog.handle_key_event(press(KeyCode::Up), &mut m), used(false));
    assert_eq!(selected_key(&dialog), "ui.behavior.compact_mode");
}

#[test]
fn text_is_edited_in_place_and_saved_on_enter() {
    let mut m = manager();
    let mut dialog = SettingsDialogState::new(&m);
    select(&mut dialog, &mut m, "transcriber.deepgram.api_key");
    assert_eq!(dialog.handle_key_event(press(KeyCode::Char('a')), &mut m), used(false));
    assert!(dialog.is_editing());
    assert_eq!(
        dialog.edit_state(),
        Some(("transcriber.deepgram.api_key", "a", 1, true))
    );
    for c in ['b', 'é', 'd', '\u{7}'] {
        assert_eq!(dialog.handle_key_event(press(KeyCode::Char(c)), &mut m), used(false));
    }
    assert_eq!(dialog.edit_state().unwrap().1, "abéd");
    dialog.handle_key_event(press(KeyCode::Left), &mut m);
    dialog.handle_key_event(press(KeyCode::Backspace), &mut m);
    assert_eq!(dialog.edit_state().map(|e| (e.1, e.2)), Some(("abd", 2)));
    dialog.handle_key_event(press(KeyCode::Home), &mut m);
    dialog.handle_key_event(press(KeyCode::Backspace), &mut m);
    dialog.handle_key_event(press(KeyCode::Left), &mut m);
    dialog.handle_key_event(press(KeyCode::Delete), &mut m);
    assert_eq!(dialog.edit_state().map(|e| (e.1, e.2)), Some(("bd", 0)));
    dialog.handle_key_event(press(KeyCode::End), &mut m);
    dialog.handle_key_event(press(KeyCode::Delete), &mut m);
    dialog.handle_key_event(press(KeyCode::Right), &mut m);
    assert_eq!(dialog.edit_state().map(|e| (e.1, e.2)), Some(("bd", 2)));
    // navigation keys are swallowed while editing
    assert_eq!(dialog.handle_key_event(press(KeyCode::Tab), &mut m), used(false));
    assert_eq!(dialog.handle_key_event(press(KeyCode::Down), &mut m), used(false));
    assert_eq!(selected_key(&dialog), "transcriber.deepgram.api_key");
    assert_eq!(m.text_value("transcriber.deepgram.api_key").unwrap(), "");
    assert_eq!(dialog.handle_key_event(press(KeyCode::Enter), &mut m), used(true));
    assert!(!dialog.is_editing());
    assert_eq!(m.text_value("transcriber.deepgram.api_key").unwrap(), "bd");
    // enter opens the edit on the present text; escape drops what was typed
    assert_eq!(dialog.handle_key_event(press(KeyCode::Enter), &mut m), used(false));
    assert_eq!(dialog.edit_state().map(|e| (e.1, e.2)), Some(("bd", 2)));
    dialog.handle_key_event(press(KeyCode::Char('!')), &mut m);
    assert_eq!(dialog.handle_key_event(press(KeyCode::Esc), &mut m), used(false));
    assert!(!dialog.is_editing());
    assert_eq!(m.text_value("transcriber.deepgram.api_key").unwrap(), "bd");
    // saving the same text changes nothing
    dialog.handle_key_event(press(KeyCode::Enter), &mut m);
    assert_eq!(dialog.handle_key_event(press(KeyCode::Enter), &mut m), used(false));
}

#[test]
fn text_edit_respects_the_maximum_length() {
    let mut m = ConfigManager::new(ConfigGroup::new("root", "Root").with_children(vec![
        ConfigNode::Entry(ConfigEntry::new(
            "t",
            "T",
            ConfigField::Text(TextField::new("ab").with_max_length(3)),
        )),
    ]));
    let mut dialog = SettingsDialogState::new(&m);
    dialog.handle_key_event(press(KeyCode::Char('c')), &mut m);
    assert_eq!(dialog.edit_state(), Some(("t", "abc", 3, false)));
    dialog.handle_key_event(press(KeyCode::Char('d')), &mut m);
    assert_eq!(dialog.edit_state(), Some(("t", "abc", 3, false)));
    dialog.handle_key_event(press(KeyCode::Esc), &mut m);
    m.set_text("t", "xyz").unwrap();
    dialog.handle_key_event(press(KeyCode::Char('!')), &mut m);
    assert_eq!(dialog.edit_state(), Some(("t", "xyz", 3, false)));
}

#[test]
fn cursor_helpers() {
    assert_eq!(previous_char_boundary("héllo", 0), 0);
    assert_eq!(previous_char_boundary("héllo", 3), 2);
    assert_eq!(next_char_boundary("héllo", 4), 5);
    assert_eq!(next_char_boundary("héllo", 5), 5);
    assert_eq!(next_char_boundary("héllo", 9), 5);
    assert_eq!(step_multiplier(KeyModifiers::empty()), 1);
    assert_eq!(step_multiplier(KeyModifiers::shift()), 5);
    assert_eq!(step_multiplier(KeyModifiers::control()), 10);
    assert_eq!(step_multiplier(KeyModifiers { shift: true, control: true, alt: true }), 10);
}

#[test]
fn numbers_are_formatted_without_trailing_zeros() {
    assert_eq!(format_number(1_000_000, 2), "1");
    assert_eq!(format_number(1_050_000, 2), "1.05");
    assert_eq!(format_number(1_400_000, 2), "1.4");
    assert_eq!(format_number(600_000, 2), "0.6");
    assert_eq!(format_number(-18_000_000, 0), "-18");
    assert_eq!(format_number(-18_400_000, 0), "-18");
    assert_eq!(format_number(-18_500_000, 0), "-19");
    assert_eq!(format_number(-400_000, 0), "0");
    assert_eq!(format_number(1_234_567, 2), "1.23");
    assert_eq!(format_number(1_235_000, 2), "1.24");
    assert_eq!(format_number(1_234_567, 6), "1.234567");
    assert_eq!(format_number(1_234_567, 9), "1.234567");
    assert_eq!(format_number(1_200_300, 6), "1.2003");
    assert_eq!(format_number(-5_000, 3), "-0.005");
    assert_eq!(format_number(0, 3), "0");
    assert_eq!(format_number(i64::MAX, 0), "9223372036855");
    assert_eq!(format_number(i64::MIN, 6), "-9223372036854.775808");
}

#[test]
fn values_are_shown_as_text() {
    let mut m = manager();
    let entry = |m: &ConfigManager, key: &str| m.entry(key).unwrap().clone();
    assert_eq!(format_value(&entry(&m, "ui.behavior.auto_scroll"), &m), "On");
    assert_eq!(format_value(&entry(&m, "ui.behavior.compact_mode"), &m), "Off");
    assert_eq!(format_value(&entry(&m, "ui.theme.accent_color"), &m), "Ocean Blue");
    assert_eq!(format_value(&entry(&m, "ui.theme.brightness"), &m), "1");
    assert_eq!(format_value(&entry(&m, "audio.input.normalization_level"), &m), "-18 dB");
    assert_eq!(format_value(&entry(&m, "transcriber.deepgram.api_key"), &m), "");
    assert_eq!(format_value(&entry(&m, "transcriber.deepgram.language"), &m), "English (US)");
    m.set_number("ui.theme.brightness", 850_000).unwrap();
    m.set_select("ui.theme.accent_color", "amber").unwrap();
    m.set_text("transcriber.deepgram.api_key", "k").unwrap();
    assert_eq!(format_value(&entry(&m, "ui.theme.brightness"), &m), "0.85");
    assert_eq!(format_value(&entry(&m, "ui.theme.accent_color"), &m), "Warm Amber");
    assert_eq!(format_value(&entry(&m, "transcriber.deepgram.api_key"), &m), "k");
    let stranger = ConfigEntry::new("gone", "Gone", ConfigField::Select { default: "x".into(), options: vec![] });
    assert_eq!(format_value(&stranger, &m), "—");
}

fn spans(dialog: &SettingsDialogState, m: &ConfigManager, key: &str) -> (Vec<(String, SpanStyle)>, usize) {
    let entry = m.entry(key).unwrap().clone();
    let (spans, width) = dialog.value_spans_for_entry(&entry, m);
    (spans.into_iter().map(|span| (span.text, span.style)).collect(), width)
}

#[test]
fn value_spans_for_every_kind_of_entry() {
    let mut m = manager();
    let mut dialog = SettingsDialogState::new(&m);
    let key = "transcriber.deepgram.api_key";
    assert_eq!(
        spans(&dialog, &m, key),
        (vec![("Falls back to DEEPGRAM_API_KEY".to_string(), SpanStyle::Placeholder)], 30)
    );
    m.set_text(key, "ab").unwrap();
    assert_eq!(spans(&dialog, &m, key), (vec![("****".to_string(), SpanStyle::AccentBold)], 4));
    m.set_text(key, "abcdefg").unwrap();
    assert_eq!(spans(&dialog, &m, key), (vec![("*******".to_string(), SpanStyle::AccentBold)], 7));
    m.set_text(key, "abcdefghijklmnop").unwrap();
    assert_eq!(spans(&dialog, &m, key), (vec![("*".repeat(12), SpanStyle::AccentBold)], 12));
    assert_eq!(
        spans(&dialog, &m, "ui.theme.accent_color"),
        (vec![("Ocean Blue".to_string(), SpanStyle::AccentBold)], 10)
    );
    m.set_text(key, "héy").unwrap();
    select(&mut dialog, &mut m, key);
    dialog.handle_key_event(press(KeyCode::Enter), &mut m);
    dialog.handle_key_event(press(KeyCode::Left), &mut m);
    assert_eq!(
        spans(&dialog, &m, key),
        (
            vec![
                ("hé".to_string(), SpanStyle::Accent),
                ("█".to_string(), SpanStyle::Cursor),
                ("y".to_string(), SpanStyle::Accent),
            ],
            4
        )
    );
    dialog.handle_key_event(press(KeyCode::End), &mut m);
    assert_eq!(
        spans(&dialog, &m, key),
        (vec![("héy".to_string(), SpanStyle::Accent), ("█".to_string(), SpanStyle::Cursor)], 4)
    );
    // another entry is not affected by the edit
    assert_eq!(
        spans(&dialog, &m, "ui.behavior.auto_scroll"),
        (vec![("On".to_string(), SpanStyle::AccentBold)], 2)
    );
}

fn details(dialog: &SettingsDialogState, m: &ConfigManager) -> Vec<(String, bool)> {
    dialog.detail_lines(m).into_iter().map(|line| (line.text, line.accent)).collect()
}

#[test]
fn detail_panel_describes_the_selected_row() {
    let mut m = manager();
    let mut dialog = SettingsDialogState::new(&m);
    assert_eq!(
        details(&dialog, &m),
        vec![
            ("Keep the most recent transcription in view automatically.".to_string(), false),
            ("SPACE/ENTER toggle • ↑/↓ navigate • ESC close".to_string(), true),
            ("Current value: On".to_string(), false),
        ]
    );
    select(&mut dialog, &mut m, "ui.theme.brightness");
    assert_eq!(details(&dialog, &m)[2], ("Current value: 1".to_string(), false));
    assert_eq!(
        details(&dialog, &m)[1].0,
        "←/→ adjust • +/- fine tune • Shift/Ctrl for larger steps • ESC close"
    );
    select(&mut dialog, &mut m, "audio.input.device");
    assert_eq!(details(&dialog, &m)[1].0, "←/→ cycle options • SPACE/ENTER advance • ESC close");
    assert_eq!(details(&dialog, &m)[2].0, "Current value: Mic A");
    select(&mut dialog, &mut m, "transcriber.deepgram.api_key");
    assert_eq!(details(&dialog, &m)[1].0, "ENTER edit • type to change • ENTER saves • ESC cancels");
    assert_eq!(details(&dialog, &m)[2].0, "Current value: (not set)");
    m.set_text("transcriber.deepgram.api_key", "k").unwrap();
    assert_eq!(details(&dialog, &m)[2].0, "Current value: (hidden)");

    let empty = ConfigManager::new(ConfigGroup::new("root", "Root"));
    let dialog = SettingsDialogState::new(&empty);
    assert_eq!(
        details(&dialog, &empty),
        vec![("↑/↓ to move • SPACE toggles • ESC closes settings".to_string(), false)]
    );
}

#[test]
fn dialog_size_and_padding() {
    assert_eq!(dialog_extent(200, 40, 80), 80);
    assert_eq!(dialog_extent(60, 40, 80), 60);
    assert_eq!(dialog_extent(30, 40, 80), 30);
    assert_eq!(dialog_extent(20, 12, 28), 20);
    assert_eq!(dialog_extent(10, 12, 28), 10);
    assert_eq!(padding_width(40, 10, 5), 25);
    assert_eq!(padding_width(40, 30, 10), 0);
    assert_eq!(padding_width(40, 30, 20), 0);
    assert_eq!(padding_width(40, usize::MAX, 20), 0);
}

#[test]
fn no_devices_still_gives_a_dialog() {
    let m = ConfigManager::with_default_schema(&Err(AudioError::NoInputDevices));
    let dialog = SettingsDialogState::new(&m);
    assert_eq!(dialog.items().len(), 15);
}
