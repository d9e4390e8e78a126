use fortis::audio::AudioError;
use fortis::capture::CaptureCommand;
use fortis::keys::{KeyCode, KeyEvent, KeyEventKind, KeyModifiers};
use fortis::orchestrator::{next_source, Command, Orchestrator, Readiness, Source, Wake};
use fortis::state::{AppState, RecordingState};
use fortis::transcribers::TranscriptionResult;
use fortis::transcript::{TranscriptionMessage, TranscriptionWidgetState};
use fortis::transcript_display::{
    build_device_title, build_title, content_height, SegmentStyle, TranscriptSpan,
};
use fortis::tui::App;

fn devices() -> Result<Vec<String>, AudioError> {
    Ok(vec!["Mic A".to_string(), "Mic B".to_string()])
}

fn press(code: KeyCode) -> KeyEvent {
    KeyEvent::new(code, KeyModifiers::empty())
}

fn setup() -> (App, AppState) {
    let state = AppState::new(&devices(), 0);
    let app = App::new(&state);
    (app, state)
}

fn key(app: &mut App, state: &mut AppState, code: KeyCode) -> bool {
    app.handle_key_event(press(code), state, &devices(), 1_000)
}

fn result(text: &str, speaker: Option<i32>) -> TranscriptionResult {
    TranscriptionResult { transcript: text.to_string(), speaker_id: speaker }
}

fn shown(spans: &[TranscriptSpan]) -> Vec<(&str, SegmentStyle)> {
    spans.iter().map(|span| (span.text.as_str(), span.style)).collect()
}

#[test]
fn only_presses_count() {
    let (mut app, mut state) = setup();
    for kind in [KeyEventKind::Release, KeyEventKind::Repeat] {
        let event = KeyEvent { code: KeyCode::Char('q'), modifiers: KeyModifiers::empty(), kind };
        assert!(!app.handle_key_event(event, &mut state, &devices(), 0));
    }
    assert!(!state.should_quit());
}

#[test]
fn plain_keys() {
    let (mut app, mut state) = setup();
    assert!(!key(&mut app, &mut state, KeyCode::Char('x')));
    assert!(!key(&mut app, &mut state, KeyCode::Tab));
    assert!(key(&mut app, &mut state, KeyCode::Char(' ')));
    assert_eq!(state.recording_state(), RecordingState::Paused);
    assert!(key(&mut app, &mut state, KeyCode::Char(' ')));
    assert_eq!(state.recording_state(), RecordingState::Recording);
    app.add_transcription(TranscriptionMessage::new(Some("Ann".into()), Some(1), "one".into()));
    app.add_transcription(TranscriptionMessage::new(None, None, "two".into()));
    assert!(key(&mut app, &mut state, KeyCode::Down));
    assert_eq!(app.transcription_state.focus().unwrap().message_index, 1);
    assert!(key(&mut app, &mut state, KeyCode::Up));
    assert_eq!(app.transcription_state.focus().unwrap().message_index, 0);
    assert!(key(&mut app, &mut state, KeyCode::Left));
    assert!(key(&mut app, &mut state, KeyCode::Right));
    assert!(!state.should_quit());
    assert!(key(&mut app, &mut state, KeyCode::Char('q')));
    assert!(state.should_quit());
    let (mut app, mut state) = setup();
    assert!(key(&mut app, &mut state, KeyCode::Esc));
    assert!(state.should_quit());
}

#[test]
fn editing_takes_the_keys() {
    let (mut app, mut state) = setup();
    app.add_transcription(TranscriptionMessage::new(Some("Speaker 1".into()), Some(1), "helo".into()));
    app.add_transcription(TranscriptionMessage::new(Some("Speaker 1".into()), Some(1), "more".into()));
    assert!(key(&mut app, &mut state, KeyCode::Enter));
    assert!(app.transcription_state.is_editing());
    assert!(key(&mut app, &mut state, KeyCode::Char('q')));
    assert!(!state.should_quit());
    assert!(key(&mut app, &mut state, KeyCode::Backspace));
    assert!(key(&mut app, &mut state, KeyCode::Left));
    assert!(key(&mut app, &mut state, KeyCode::Char('l')));
    assert!(key(&mut app, &mut state, KeyCode::Right));
    assert!(!key(&mut app, &mut state, KeyCode::Up));
    assert!(key(&mut app, &mut state, KeyCode::Enter));
    assert!(!app.transcription_state.is_editing());
    assert_eq!(app.transcription_state.message(0).content, "hello");
    // rename the speaker: the name is kept for later results
    assert!(key(&mut app, &mut state, KeyCode::Left));
    assert!(key(&mut app, &mut state, KeyCode::Enter));
    for _ in 0..9 {
        key(&mut app, &mut state, KeyCode::Backspace);
    }
    for c in "Ann".chars() {
        key(&mut app, &mut state, KeyCode::Char(c));
    }
    assert!(key(&mut app, &mut state, KeyCode::Enter));
    assert_eq!(app.transcription_state.message(1).speaker.as_deref(), Some("Ann"));
    assert_eq!(state.get_speaker_name(1), "Ann");
    // escape cancels an edit and does not quit
    key(&mut app, &mut state, KeyCode::Enter);
    key(&mut app, &mut state, KeyCode::Char('x'));
    assert!(key(&mut app, &mut state, KeyCode::Esc));
    assert!(!state.should_quit());
    assert_eq!(app.transcription_state.message(0).speaker.as_deref(), Some("Ann"));
}

#[test]
fn device_dialog_chooses_the_device() {
    let (mut app, mut state) = setup();
    assert!(app.needs_device_list(press(KeyCode::Char('d'))));
    assert!(!app.needs_device_list(press(KeyCode::Char('q'))));
    assert!(key(&mut app, &mut state, KeyCode::Char('d')));
    let dialog = app.device_dialog_state.as_ref().unwrap();
    assert_eq!(dialog.devices, vec!["Mic A", "Mic B"]);
    assert_eq!(dialog.selected(), 0);
    assert!(app.needs_device_list(press(KeyCode::Enter)));
    assert!(!key(&mut app, &mut state, KeyCode::Char('q')));
    assert!(key(&mut app, &mut state, KeyCode::Up));
    assert!(key(&mut app, &mut state, KeyCode::Down));
    assert!(key(&mut app, &mut state, KeyCode::Down));
    assert_eq!(app.device_dialog_state.as_ref().unwrap().selected(), 1);
    assert!(key(&mut app, &mut state, KeyCode::Enter));
    assert!(app.device_dialog_state.is_none());
    assert_eq!(state.current_device_index(), 1);
    assert_eq!(state.current_device_name(), "Mic B");
    assert!(state.take_audio_device_restart_needed());
    assert!(key(&mut app, &mut state, KeyCode::Char('D')));
    assert!(key(&mut app, &mut state, KeyCode::Esc));
    assert!(app.device_dialog_state.is_none());
    assert!(!state.should_quit());
    assert!(!state.take_audio_device_restart_needed());
}

#[test]
fn device_dialog_needs_devices() {
    let (mut app, mut state) = setup();
    assert!(app.handle_key_event(press(KeyCode::Char('d')), &mut state, &Err(AudioError::NoInputDevices), 0));
    assert!(app.device_dialog_state.is_none());
    assert!(app.handle_key_event(press(KeyCode::Char('d')), &mut state, &Ok(vec![]), 0));
    assert!(app.device_dialog_state.is_none());
    app.open_device_dialog(1, &devices());
    assert_eq!(app.device_dialog_state.as_ref().unwrap().selected(), 1);
    app.close_device_dialog();
    assert!(app.device_dialog_state.is_none());
}

#[test]
fn settings_dialog_changes_settings_and_asks_for_restarts() {
    let (mut app, mut state) = setup();
    assert!(key(&mut app, &mut state, KeyCode::Char('s')));
    assert!(app.settings_dialog_state.is_some());
    assert!(app.needs_device_list(press(KeyCode::Down)));
    // auto-scroll is selected: toggling it needs no restart
    assert!(key(&mut app, &mut state, KeyCode::Char(' ')));
    assert!(!state.auto_scroll_enabled());
    assert!(!state.take_transcriber_restart_needed());
    assert!(!state.take_audio_device_restart_needed());
    // a key that the dialog does not use goes on to the application
    assert!(key(&mut app, &mut state, KeyCode::Char('S')));
    assert!(app.settings_dialog_state.is_none());
    assert!(key(&mut app, &mut state, KeyCode::Char('s')));
    for _ in 0..7 {
        assert!(key(&mut app, &mut state, KeyCode::Down));
    }
    assert_eq!(
        app.settings_dialog_state.as_ref().unwrap().selected_entry().unwrap().key,
        "transcriber.deepgram.language"
    );
    assert!(key(&mut app, &mut state, KeyCode::Right));
    assert_eq!(state.deepgram_language(), "en-GB");
    assert!(state.take_transcriber_restart_needed());
    assert!(!state.take_audio_device_restart_needed());
    // the device
    for _ in 0..2 {
        assert!(key(&mut app, &mut state, KeyCode::Up));
    }
    assert_eq!(
        app.settings_dialog_state.as_ref().unwrap().selected_entry().unwrap().key,
        "audio.input.device"
    );
    assert!(key(&mut app, &mut state, KeyCode::Right));
    assert_eq!(state.current_device_name(), "Mic B");
    assert_eq!(state.current_device_index(), 1);
    assert!(state.take_audio_device_restart_needed());
    assert!(!state.take_transcriber_restart_needed());
    // the API key
    assert!(key(&mut app, &mut state, KeyCode::Down));
    assert!(key(&mut app, &mut state, KeyCode::Char('k')));
    assert!(key(&mut app, &mut state, KeyCode::Char('q')));
    assert!(!state.take_transcriber_restart_needed());
    assert!(key(&mut app, &mut state, KeyCode::Enter));
    assert_eq!(state.deepgram_api_key(), Some("kq".to_string()));
    assert!(state.take_transcriber_restart_needed());
    assert!(key(&mut app, &mut state, KeyCode::Esc));
    assert!(app.settings_dialog_state.is_none());
    assert!(!state.should_quit());
    assert!(state.config().has_unsaved_changes());
}

#[test]
fn opening_settings_closes_the_device_dialog() {
    let (mut app, state) = setup();
    app.open_device_dialog(0, &devices());
    app.open_settings_dialog(&state);
    assert!(app.device_dialog_state.is_none());
    assert!(app.settings_dialog_state.is_some());
    app.toggle_settings_dialog(&state);
    assert!(app.settings_dialog_state.is_none());
    app.toggle_settings_dialog(&state);
    assert!(app.settings_dialog_state.is_some());
    app.close_settings_dialog();
    assert!(app.settings_dialog_state.is_none());
}

#[test]
fn input_comes_before_transcripts_before_the_timer() {
    let all = Readiness { input: true, transcripts: true, tick: true };
    assert_eq!(next_source(all), Some(Source::Input));
    assert_eq!(next_source(Readiness { input: false, ..all }), Some(Source::Transcripts));
    assert_eq!(
        next_source(Readiness { input: false, transcripts: false, tick: true }),
        Some(Source::Tick)
    );
    assert_eq!(next_source(Readiness { input: false, transcripts: false, tick: false }), None);
}

#[test]
fn the_loop_starts_capture_then_the_session() {
    let (orchestrator, commands) = Orchestrator::start(2);
    assert_eq!(commands.len(), 3);
    assert_eq!(commands[0], Command::OpenChannels { channel: 0 });
    match commands[1] {
        Command::Capture(CaptureCommand::Spawn { handle }) => {
            assert_eq!((handle.generation_id, handle.device_index, handle.channel), (0, 2, 0));
        }
        other => panic!("unexpected command {other:?}"),
    }
    assert_eq!(commands[2], Command::OpenSession { session: 0, channel: 0 });
    assert!(orchestrator.running);
    assert!(orchestrator.needs_redraw);
}

#[test]
fn redraw_only_when_something_changed() {
    let (mut app, mut state) = setup();
    let (mut orchestrator, _) = Orchestrator::start(0);
    let first = orchestrator.on_wake(Wake::OtherInput, &mut app, &mut state, &devices(), 0);
    assert_eq!(first, vec![Command::Redraw]);
    let idle = orchestrator.on_wake(Wake::OtherInput, &mut app, &mut state, &devices(), 0);
    assert!(idle.is_empty());
    let unused = orchestrator.on_wake(Wake::Key(press(KeyCode::Char('x'))), &mut app, &mut state, &devices(), 0);
    assert!(unused.is_empty());
    for wake in [Wake::Tick, Wake::Resize, Wake::Key(press(KeyCode::Down))] {
        let commands = orchestrator.on_wake(wake, &mut app, &mut state, &devices(), 0);
        assert_eq!(commands, vec![Command::Redraw]);
    }
    let nothing = orchestrator.on_wake(Wake::Transcripts(vec![]), &mut app, &mut state, &devices(), 0);
    assert!(nothing.is_empty());
    let only_end = orchestrator.on_wake(
        Wake::Transcripts(vec![result("Transcription stream ended", None)]),
        &mut app,
        &mut state,
        &devices(),
        0,
    );
    assert!(only_end.is_empty());
    assert!(app.transcription_state.is_empty());
}

#[test]
fn all_ready_transcripts_are_drained_at_once() {
    let (mut app, mut state) = setup();
    state.set_speaker_name(1, "Ann".to_string());
    let (mut orchestrator, _) = Orchestrator::start(0);
    let batch = vec![
        result("one", Some(0)),
        result("Transcription stream ended", None),
        result("two", Some(1)),
        result("three", None),
    ];
    let commands = orchestrator.on_wake(Wake::Transcripts(batch), &mut app, &mut state, &devices(), 0);
    assert_eq!(commands, vec![Command::Redraw]);
    let rows: Vec<(Option<&str>, Option<i32>, &str)> = (0..app.transcription_state.len())
        .map(|i| {
            let m = app.transcription_state.message(i);
            (m.speaker.as_deref(), m.speaker_id, m.content.as_str())
        })
        .collect();
    assert_eq!(
        rows,
        vec![
            (Some("Speaker 0"), Some(0), "one"),
            (Some("Ann"), Some(1), "two"),
            (None, None, "three"),
        ]
    );
}

fn capture_kinds(commands: &[Command]) -> Vec<String> {
    commands
        .iter()
        .map(|command| match command {
            Command::Capture(CaptureCommand::RequestStop { generation_id }) => format!("stop {generation_id}"),
            Command::Capture(CaptureCommand::Join { generation_id }) => format!("join {generation_id}"),
            Command::Capture(CaptureCommand::Spawn { handle }) => {
                format!("spawn {} on {} to {}", handle.generation_id, handle.device_index, handle.channel)
            }
            Command::AbortSession { session } => format!("abort {session}"),
            Command::OpenChannels { channel } => format!("channels {channel}"),
            Command::OpenSession { session, channel } => format!("session {session} on {channel}"),
            Command::PersistSettings => "persist".to_string(),
            Command::Redraw => "redraw".to_string(),
            Command::RestoreTerminal => "restore".to_string(),
            Command::DropAudioChannel { channel } => format!("drop {channel}"),
            Command::AwaitSession { session } => format!("await {session}"),
        })
        .collect()
}

#[test]
fn device_change_restarts_capture_only() {
    let (mut app, mut state) = setup();
    let (mut orchestrator, _) = Orchestrator::start(0);
    orchestrator.on_wake(Wake::Key(press(KeyCode::Char('d'))), &mut app, &mut state, &devices(), 0);
    orchestrator.on_wake(Wake::Key(press(KeyCode::Down)), &mut app, &mut state, &devices(), 0);
    let commands = orchestrator.on_wake(Wake::Key(press(KeyCode::Enter)), &mut app, &mut state, &devices(), 0);
    assert_eq!(
        capture_kinds(&commands),
        vec!["stop 0", "join 0", "spawn 1 on 1 to 0", "persist", "redraw"]
    );
    assert!(!state.config().has_unsaved_changes());
    assert_eq!(orchestrator.channel, 0);
    assert_eq!(orchestrator.session, 0);
}

#[test]
fn language_change_restarts_session_and_capture_in_order() {
    let (mut app, mut state) = setup();
    let (mut orchestrator, _) = Orchestrator::start(0);
    state.request_transcriber_restart();
    let commands = orchestrator.on_wake(Wake::OtherInput, &mut app, &mut state, &devices(), 0);
    assert_eq!(
        capture_kinds(&commands),
        vec![
            "abort 0",
            "channels 1",
            "stop 0",
            "join 0",
            "spawn 1 on 0 to 1",
            "session 1 on 1",
            "redraw",
        ]
    );
    assert_eq!((orchestrator.channel, orchestrator.session), (1, 1));
    assert!(!state.take_transcriber_restart_needed());
}

#[test]
fn both_restarts_in_one_wake() {
    let (mut app, mut state) = setup();
    let (mut orchestrator, _) = Orchestrator::start(0);
    orchestrator.on_wake(Wake::OtherInput, &mut app, &mut state, &devices(), 0);
    state.set_device_index(1, &devices()).unwrap();
    state.request_transcriber_restart();
    let commands = orchestrator.on_wake(Wake::OtherInput, &mut app, &mut state, &devices(), 0);
    assert_eq!(
        capture_kinds(&commands),
        vec![
            "stop 0",
            "join 0",
            "spawn 1 on 1 to 0",
            "abort 0",
            "channels 1",
            "stop 1",
            "join 1",
            "spawn 2 on 1 to 1",
            "session 1 on 1",
            "persist",
        ]
    );
}

#[test]
fn quitting_shuts_down_in_order() {
    let (mut app, mut state) = setup();
    let (mut orchestrator, _) = Orchestrator::start(0);
    let commands = orchestrator.on_wake(Wake::Key(press(KeyCode::Char('q'))), &mut app, &mut state, &devices(), 0);
    assert_eq!(
        capture_kinds(&commands),
        vec!["redraw", "restore", "stop 0", "join 0", "drop 0", "await 0"]
    );
    assert!(!orchestrator.running);
    assert!(!orchestrator.worker.is_running());
}

#[test]
fn closed_input_ends_the_loop_at_once() {
    let (mut app, mut state) = setup();
    let (mut orchestrator, _) = Orchestrator::start(0);
    state.request_transcriber_restart();
    let commands = orchestrator.on_wake(Wake::InputClosed, &mut app, &mut state, &devices(), 0);
    assert_eq!(capture_kinds(&commands), vec!["restore", "stop 0", "join 0", "drop 0", "await 0"]);
    assert!(!orchestrator.running);
}

#[test]
fn rows_are_rendered_with_focus_and_edit() {
    let mut state = TranscriptionWidgetState::with_capacity(10);
    assert_eq!(
        state.render_lines().iter().map(|line| shown(line)).collect::<Vec<_>>(),
        vec![vec![("Waiting for transcriptions...", SegmentStyle::Muted)]]
    );
    state.update_viewport_height(2);
    state.add_transcription(TranscriptionMessage::new(Some("Ann".into()), Some(1), "one".into()));
    state.add_transcription(TranscriptionMessage::new(None, None, "two".into()));
    state.add_transcription(TranscriptionMessage::new(Some("Bob".into()), Some(2), "three".into()));
    // focus is on the first row, so the window shows rows 0 and 1
    let lines = state.render_lines();
    assert_eq!(lines.len(), 2);
    assert_eq!(
        shown(&lines[0]),
        vec![("[Ann]: ", SegmentStyle::Speaker), ("one", SegmentStyle::Highlight)]
    );
    assert_eq!(shown(&lines[1]), vec![("two", SegmentStyle::Plain)]);
    state.focus_left();
    assert_eq!(
        shown(&state.render_row(0)),
        vec![("[Ann]: ", SegmentStyle::Highlight), ("one", SegmentStyle::Plain)]
    );
    state.start_editing();
    state.move_cursor_left();
    assert_eq!(
        shown(&state.render_row(0)),
        vec![
            ("[", SegmentStyle::Plain),
            ("An", SegmentStyle::Edit),
            ("█", SegmentStyle::Cursor),
            ("n", SegmentStyle::Edit),
            ("]: ", SegmentStyle::Plain),
            ("one", SegmentStyle::Plain),
        ]
    );
    state.cancel_editing();
    state.scroll_down();
    state.scroll_down();
    state.start_editing();
    assert_eq!(
        shown(&state.render_row(2)),
        vec![
            ("[Bob]: ", SegmentStyle::Speaker),
            ("three", SegmentStyle::Edit),
            ("█", SegmentStyle::Cursor),
        ]
    );
    let lines = state.render_lines();
    assert_eq!(lines.len(), 2);
    assert_eq!(shown(&lines[0]), vec![("two", SegmentStyle::Plain)]);
}

#[test]
fn titles() {
    assert_eq!(build_title(RecordingState::Recording, "00:00:05"), " Transcriptions ● RECORDING 00:00:05 ");
    assert_eq!(build_title(RecordingState::Paused, "01:02:03"), " Transcriptions ⏸ PAUSED 01:02:03 ");
    assert_eq!(build_device_title("Mic A"), " 🎤 Mic A (D: Change) ");
    assert_eq!(content_height(10), 8);
    assert_eq!(content_height(3), 1);
    assert_eq!(content_height(2), 1);
    assert_eq!(content_height(0), 1);
}
