use fortis::audio::AudioError;
use fortis::config::{ConfigField, StoredValue};
use fortis::state::{AppState, RecordingState, Rgb};

fn devices(names: &[&str]) -> Result<Vec<String>, AudioError> {
    Ok(names.iter().map(|n| n.to_string()).collect())
}

#[test]
fn fresh_state_records_on_the_first_device() {
    let state = AppState::new(&devices(&["Mic A", "Mic B"]), 1_000);
    assert!(!state.should_quit());
    assert!(!state.is_paused());
    assert_eq!(state.recording_state(), RecordingState::Recording);
    assert_eq!(state.current_device_index(), 0);
    assert_eq!(state.current_device_name(), "Mic A");
    assert!(state.auto_scroll_enabled());
    assert!(!state.compact_mode());
    assert_eq!(state.deepgram_language(), "en-US");
    assert_eq!(state.deepgram_model(), "nova-3");
    assert_eq!(state.deepgram_api_key(), None);
    assert!(!state.config().has_unsaved_changes());
}

#[test]
fn without_devices_the_device_is_unknown() {
    for (found, label) in [
        (devices(&[]), "No input devices detected"),
        (Err(AudioError::NoInputDevices), "Audio device enumeration failed"),
    ] {
        let state = AppState::new(&found, 0);
        assert_eq!(state.current_device_index(), 0);
        assert_eq!(state.current_device_name(), "Unknown Device");
        assert_eq!(state.config().select_value("audio.input.device").unwrap(), "__no_devices__");
        match &state.config().entry("audio.input.device").unwrap().field {
            ConfigField::Select { options, .. } => assert_eq!(options[0].label, label),
            other => panic!("unexpected field {other:?}"),
        }
    }
}

#[test]
fn quit_is_remembered() {
    let mut state = AppState::new(&devices(&["Mic"]), 0);
    state.request_quit();
    assert!(state.should_quit());
}

#[test]
fn recording_time_leaves_pauses_out() {
    let mut state = AppState::new(&devices(&["Mic"]), 10_000);
    assert_eq!(state.get_recording_time(10_000), 0);
    assert_eq!(state.get_recording_time(13_500), 3_500);
    assert_eq!(state.get_recording_time(9_000), 0);
    state.toggle_recording(15_000);
    assert_eq!(state.recording_state(), RecordingState::Paused);
    assert!(state.is_paused());
    // while paused, what was recorded before counts only once recording resumes
    assert_eq!(state.get_recording_time(99_000), 0);
    state.toggle_recording(20_000);
    assert_eq!(state.recording_state(), RecordingState::Recording);
    assert_eq!(state.get_recording_time(20_000), 5_000);
    assert_eq!(state.get_recording_time(21_000), 6_000);
    state.toggle_recording(22_000);
    state.toggle_recording(30_000);
    assert_eq!(state.get_recording_time(30_500), 7_500);
}

#[test]
fn recording_time_is_formatted_as_a_clock() {
    let state = AppState::new(&devices(&["Mic"]), 0);
    assert_eq!(state.format_recording_time(0), "00:00:00");
    assert_eq!(state.format_recording_time(999), "00:00:00");
    assert_eq!(state.format_recording_time(61_000), "00:01:01");
    assert_eq!(state.format_recording_time(3_599_999), "00:59:59");
    assert_eq!(state.format_recording_time(3_600_000), "01:00:00");
    assert_eq!(state.format_recording_time(45_296_000), "12:34:56");
    assert_eq!(state.format_recording_time(360_000_000), "100:00:00");
    assert_eq!(state.format_recording_time(u64::MAX), "5124095576030:25:51");
}

#[test]
fn speaker_names_default_to_their_id() {
    let mut state = AppState::new(&devices(&["Mic"]), 0);
    assert_eq!(state.get_speaker_name(3), "Speaker 3");
    assert!(!state.has_custom_name(3));
    state.set_speaker_name(3, "Ann".to_string());
    assert_eq!(state.get_speaker_name(3), "Ann");
    assert!(state.has_custom_name(3));
    state.speaker_names_mut().set_speaker_name(4, "Bob".to_string());
    assert_eq!(state.get_speaker_name(4), "Bob");
}

#[test]
fn device_change_names_the_device_and_asks_for_a_restart() {
    let found = devices(&["Mic A", "Mic B"]);
    let mut state = AppState::new(&found, 0);
    assert!(!state.take_audio_device_restart_needed());
    assert_eq!(state.set_device_index(1, &found).unwrap(), true);
    assert_eq!(state.current_device_index(), 1);
    assert_eq!(state.current_device_name(), "Mic B");
    assert_eq!(state.config().select_value("audio.input.device").unwrap(), "Mic B");
    assert!(state.config().has_unsaved_changes());
    assert!(state.take_audio_device_restart_needed());
    assert!(!state.take_audio_device_restart_needed());

    assert!(state.set_device_index(5, &found).is_err());
    assert_eq!(state.current_device_index(), 5);
    assert_eq!(state.current_device_name(), "Unknown Device");
    assert!(state.take_audio_device_restart_needed());
}

#[test]
fn transcriber_restart_is_asked_for_once() {
    let mut state = AppState::new(&devices(&["Mic"]), 0);
    assert!(!state.take_transcriber_restart_needed());
    state.request_transcriber_restart();
    assert!(state.take_transcriber_restart_needed());
    assert!(!state.take_transcriber_restart_needed());
}

#[test]
fn device_is_resolved_by_name() {
    let mut state = AppState::new(&devices(&["Mic A", "Mic B"]), 0);
    state.config_mut().set_select("audio.input.device", "Mic B").unwrap();
    // the same devices in another order: the name decides, not the index
    state.sync_audio_device_from_config(&devices(&["Mic B", "Mic C", "Mic A"]));
    assert_eq!(state.current_device_name(), "Mic B");
    assert_eq!(state.current_device_index(), 0);
    assert!(state.take_audio_device_restart_needed());
    state.sync_audio_device_from_config(&devices(&["Mic C", "Mic B"]));
    assert_eq!(state.current_device_name(), "Mic B");
    assert_eq!(state.current_device_index(), 1);
    assert!(state.take_audio_device_restart_needed());
    state.sync_audio_device_from_config(&devices(&["Mic C", "Mic B"]));
    assert!(!state.take_audio_device_restart_needed());
}

#[test]
fn a_device_that_is_gone_falls_back_to_the_first() {
    let mut state = AppState::new(&devices(&["Mic A", "Mic B"]), 0);
    state.config_mut().set_select("audio.input.device", "Mic B").unwrap();
    state.sync_audio_device_from_config(&devices(&["Mic C", "Mic D"]));
    assert_eq!(state.current_device_index(), 0);
    assert_eq!(state.current_device_name(), "Mic C");
    assert_eq!(state.config().select_value("audio.input.device").unwrap(), "Mic C");
    // the fallback is the default, so nothing is stored: the first device wins again
    let (index, name) = AppState::resolve_audio_device(state.config_mut(), &devices(&["Mic D", "Mic C"]));
    assert_eq!((index, name.as_str()), (0, "Mic D"));
    state.config_mut().set_select("audio.input.device", "Mic C").unwrap();
    let (index, name) = AppState::resolve_audio_device(state.config_mut(), &devices(&["Mic E", "Mic D", "Mic C"]));
    assert_eq!((index, name.as_str()), (2, "Mic C"));
}

#[test]
fn accent_color_is_scaled_by_brightness() {
    let mut state = AppState::new(&devices(&["Mic"]), 0);
    assert_eq!(state.accent_color(), Rgb { r: 59, g: 130, b: 246 });
    state.config_mut().set_number("ui.theme.brightness", 1_400_000).unwrap();
    // 59 * 1.4 = 82.6, 130 * 1.4 = 182, 246 * 1.4 = 344.4
    assert_eq!(state.accent_color(), Rgb { r: 83, g: 182, b: 255 });
    state.config_mut().set_number("ui.theme.brightness", 600_000).unwrap();
    // 59 * 0.6 = 35.4, 130 * 0.6 = 78, 246 * 0.6 = 147.6
    assert_eq!(state.accent_color(), Rgb { r: 35, g: 78, b: 148 });
    state.config_mut().set_number("ui.theme.brightness", 1_000_000).unwrap();
    for (name, color) in [
        ("cyan", Rgb { r: 0, g: 188, b: 242 }),
        ("magenta", Rgb { r: 216, g: 46, b: 154 }),
        ("amber", Rgb { r: 255, g: 179, b: 71 }),
        ("green", Rgb { r: 0, g: 200, b: 117 }),
        ("blue", Rgb { r: 59, g: 130, b: 246 }),
    ] {
        state.config_mut().set_select("ui.theme.accent_color", name).unwrap();
        assert_eq!(state.accent_color(), color);
    }
    state.config_mut().set_number("ui.theme.brightness", 1_050_000).unwrap();
    // 59 * 1.05 = 61.95, 130 * 1.05 = 136.5, 246 * 1.05 = 258.3
    assert_eq!(state.accent_color(), Rgb { r: 62, g: 137, b: 255 });
}

#[test]
fn api_key_is_trimmed_and_may_be_absent() {
    let mut state = AppState::new(&devices(&["Mic"]), 0);
    state.config_mut().set_text("transcriber.deepgram.api_key", "  \t ").unwrap();
    assert_eq!(state.deepgram_api_key(), None);
    state.config_mut().set_text("transcriber.deepgram.api_key", " abc def\u{3000}\n").unwrap();
    assert_eq!(state.deepgram_api_key(), Some("abc def".to_string()));
    state.config_mut().set_select("transcriber.deepgram.language", "ja").unwrap();
    assert_eq!(state.deepgram_language(), "ja");
}

#[test]
fn settings_can_be_loaded_into_the_state() {
    let mut state = AppState::new(&devices(&["Mic"]), 0);
    state.config_mut().load_values(&vec![
        ("ui.behavior.compact_mode".to_string(), StoredValue::Bool(true)),
        ("ui.behavior.auto_scroll".to_string(), StoredValue::Bool(false)),
    ]);
    assert!(state.compact_mode());
    assert!(!state.auto_scroll_enabled());
}
