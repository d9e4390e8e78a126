use fortis::speakers::SpeakerNames;
use fortis::transcript::{
    FocusLocation, TranscriptionMessage, TranscriptionWidgetState, MAX_TRANSCRIPTIONS,
};
use fortis::transcript_model::FocusSegment;

fn plain(text: &str) -> TranscriptionMessage {
    TranscriptionMessage::new(None, None, text.to_string())
}

fn spoken(id: i32, label: &str, text: &str) -> TranscriptionMessage {
    TranscriptionMessage::new(Some(label.to_string()), Some(id), text.to_string())
}

fn contents(state: &TranscriptionWidgetState) -> Vec<String> {
    (0..state.len()).map(|i| state.message(i).content.clone()).collect()
}

#[test]
fn new_buffer_is_empty_without_focus() {
    let state = TranscriptionWidgetState::new();
    assert_eq!(state.len(), 0);
    assert!(state.is_empty());
    assert_eq!(state.capacity(), MAX_TRANSCRIPTIONS);
    assert_eq!(state.capacity(), 2000);
    assert_eq!(state.focus(), None);
    assert_eq!(state.scroll_position(), 0);
    assert_eq!(state.visible_range(), (0, 0));
    assert!(!state.is_editing());
}

#[test]
fn zero_capacity_retains_one_message() {
    let mut state = TranscriptionWidgetState::with_capacity(0);
    assert_eq!(state.capacity(), 1);
    state.add_transcription(plain("A"));
    state.add_transcription(plain("B"));
    assert_eq!(contents(&state), vec!["B"]);
    assert_eq!(
        state.focus(),
        Some(FocusLocation { message_index: 0, segment: FocusSegment::Message })
    );
}

#[test]
fn first_message_takes_focus() {
    let mut state = TranscriptionWidgetState::new();
    state.add_transcription(plain("hello"));
    assert_eq!(
        state.focus(),
        Some(FocusLocation { message_index: 0, segment: FocusSegment::Message })
    );
}

#[test]
fn eviction_scenario_keeps_focus_on_its_message() {
    let mut state = TranscriptionWidgetState::with_capacity(3);
    state.update_viewport_height(2);
    state.add_transcription(plain("A"));
    state.add_transcription(plain("B"));
    state.add_transcription(plain("C"));
    state.scroll_down();
    state.scroll_down();
    assert_eq!(state.focus().unwrap().message_index, 2);
    assert_eq!(state.message(2).content, "C");

    state.add_transcription(plain("D"));

    assert_eq!(contents(&state), vec!["B", "C", "D"]);
    let focus = state.focus().unwrap();
    assert_eq!(focus.message_index, 1);
    assert_eq!(state.message(focus.message_index).content, "C");
    let (start, end) = state.visible_range();
    assert!(start <= 1 && 1 < end);
    assert_eq!((start, end), (1, 3));
}

#[test]
fn retains_the_most_recent_messages_in_order() {
    let mut state = TranscriptionWidgetState::with_capacity(4);
    for i in 0..11 {
        state.add_transcription(plain(&format!("m{i}")));
        assert!(state.len() <= 4);
    }
    assert_eq!(contents(&state), vec!["m7", "m8", "m9", "m10"]);
}

#[test]
fn default_capacity_is_enforced() {
    let mut state = TranscriptionWidgetState::new();
    for i in 0..2005 {
        state.add_transcription(plain(&format!("{i}")));
    }
    assert_eq!(state.len(), 2000);
    assert_eq!(state.message(0).content, "5");
    assert_eq!(state.message(1999).content, "2004");
}

#[test]
fn focus_stays_valid_and_visible_under_mixed_operations() {
    let mut state = TranscriptionWidgetState::with_capacity(5);
    state.update_viewport_height(3);
    let mut step = 0u32;
    for round in 0..200 {
        step = step.wrapping_mul(1103515245).wrapping_add(12345);
        match (step >> 16) % 6 {
            0 | 1 => state.add_transcription(spoken(round % 3, "S", "text")),
            2 => state.scroll_up(),
            3 => state.scroll_down(),
            4 => state.focus_left(),
            _ => state.focus_right(),
        }
        if !state.is_empty() {
            let focus = state.focus().expect("focus on a non-empty buffer");
            assert!(focus.message_index < state.len());
            let (start, end) = state.visible_range();
            assert!(start <= focus.message_index && focus.message_index < end);
        }
    }
}

#[test]
fn window_follows_the_formula() {
    let mut state = TranscriptionWidgetState::with_capacity(100);
    for i in 0..10 {
        state.add_transcription(plain(&format!("{i}")));
    }
    state.update_viewport_height(4);
    // focus is on row 0, so the window was moved up to show it
    assert_eq!(state.visible_range(), (0, 4));
    assert_eq!(state.scroll_position(), 6);
    for _ in 0..5 {
        state.scroll_down();
    }
    // rows 1..=3 were visible; rows 4 and 5 each moved the window by one
    assert_eq!(state.focus().unwrap().message_index, 5);
    assert_eq!(state.visible_range(), (2, 6));
    assert_eq!(state.scroll_position(), 4);
    state.scroll_up();
    assert_eq!(state.visible_range(), (2, 6));
}

#[test]
fn viewport_of_height_zero_becomes_one() {
    let mut state = TranscriptionWidgetState::with_capacity(10);
    state.add_transcription(plain("a"));
    state.add_transcription(plain("b"));
    state.update_viewport_height(0);
    assert_eq!(state.viewport_height(), 1);
    assert_eq!(state.visible_range(), (0, 1));
}

#[test]
fn navigation_stops_at_both_ends() {
    let mut state = TranscriptionWidgetState::with_capacity(10);
    state.scroll_up();
    state.scroll_down();
    assert_eq!(state.focus(), None);
    state.add_transcription(plain("a"));
    state.add_transcription(plain("b"));
    state.scroll_up();
    assert_eq!(state.focus().unwrap().message_index, 0);
    state.scroll_down();
    state.scroll_down();
    state.scroll_down();
    assert_eq!(state.focus().unwrap().message_index, 1);
}

#[test]
fn focus_left_needs_a_speaker_segment() {
    let mut state = TranscriptionWidgetState::with_capacity(10);
    state.add_transcription(plain("no speaker"));
    state.add_transcription(spoken(1, "Ann", "hi"));
    state.focus_left();
    assert_eq!(state.focus().unwrap().segment, FocusSegment::Message);
    state.scroll_down();
    state.focus_left();
    assert_eq!(
        state.focus(),
        Some(FocusLocation { message_index: 1, segment: FocusSegment::Speaker })
    );
    // moving to a row without a speaker degrades the segment
    state.scroll_up();
    assert_eq!(
        state.focus(),
        Some(FocusLocation { message_index: 0, segment: FocusSegment::Message })
    );
    state.scroll_down();
    state.focus_left();
    state.focus_right();
    assert_eq!(state.focus().unwrap().segment, FocusSegment::Message);
}

#[test]
fn editing_a_message_replaces_its_content_only() {
    let mut names = SpeakerNames::new();
    let mut state = TranscriptionWidgetState::with_capacity(10);
    state.add_transcription(spoken(1, "Ann", "helo"));
    state.add_transcription(spoken(1, "Ann", "other"));
    state.start_editing();
    assert!(state.is_editing());
    assert_eq!(state.get_edit_state(), Some(("helo", 4, false)));
    state.move_cursor_left();
    state.handle_char_input('l');
    assert_eq!(state.get_edit_state(), Some(("hello", 4, false)));
    state.handle_char_input(' ');
    state.apply_edit(&mut names);
    assert!(!state.is_editing());
    assert_eq!(state.message(0).content, "hell o");
    assert_eq!(state.message(1).content, "other");
    assert!(!names.has_custom_name(1));
}

#[test]
fn renaming_a_speaker_reaches_every_row_of_the_id() {
    let mut names = SpeakerNames::new();
    let mut state = TranscriptionWidgetState::with_capacity(10);
    state.add_transcription(spoken(0, "Speaker 0", "a"));
    state.add_transcription(spoken(1, "Speaker 1", "b"));
    state.add_transcription(spoken(0, "Speaker 0", "c"));
    state.add_transcription(plain("d"));
    state.focus_left();
    state.start_editing();
    assert_eq!(state.get_edit_state(), Some(("Speaker 0", 9, true)));
    for _ in 0..9 {
        state.handle_backspace();
    }
    for c in "  Bob ".chars() {
        state.handle_char_input(c);
    }
    state.apply_edit(&mut names);
    assert_eq!(state.message(0).speaker.as_deref(), Some("Bob"));
    assert_eq!(state.message(1).speaker.as_deref(), Some("Speaker 1"));
    assert_eq!(state.message(2).speaker.as_deref(), Some("Bob"));
    assert_eq!(state.message(3).speaker, None);
    assert_eq!(names.get_speaker_name(0), "Bob");
    assert_eq!(names.get_speaker_name(1), "Speaker 1");
    assert!(names.has_custom_name(0));
}

#[test]
fn renaming_without_an_id_changes_one_row() {
    let mut names = SpeakerNames::new();
    let mut state = TranscriptionWidgetState::with_capacity(10);
    state.add_transcription(TranscriptionMessage::new(Some("Guest".into()), None, "a".into()));
    state.add_transcription(TranscriptionMessage::new(Some("Guest".into()), None, "b".into()));
    state.focus_left();
    state.start_editing();
    state.handle_char_input('!');
    state.apply_edit(&mut names);
    assert_eq!(state.message(0).speaker.as_deref(), Some("Guest!"));
    assert_eq!(state.message(1).speaker.as_deref(), Some("Guest"));
}

#[test]
fn blank_speaker_edit_changes_nothing() {
    let mut names = SpeakerNames::new();
    let mut state = TranscriptionWidgetState::with_capacity(10);
    state.add_transcription(spoken(3, "Ann", "a"));
    state.focus_left();
    state.start_editing();
    for _ in 0..3 {
        state.handle_backspace();
    }
    state.handle_char_input(' ');
    state.handle_char_input('\t');
    state.apply_edit(&mut names);
    assert_eq!(state.message(0).speaker.as_deref(), Some("Ann"));
    assert!(!names.has_custom_name(3));
    assert!(!state.is_editing());
}

#[test]
fn cancel_discards_the_edit() {
    let mut state = TranscriptionWidgetState::with_capacity(10);
    state.add_transcription(plain("keep"));
    state.start_editing();
    state.handle_char_input('x');
    state.cancel_editing();
    assert!(!state.is_editing());
    assert_eq!(state.get_edit_state(), None);
    assert_eq!(state.message(0).content, "keep");
}

#[test]
fn only_one_edit_session_at_a_time() {
    let mut state = TranscriptionWidgetState::with_capacity(10);
    state.add_transcription(plain("first"));
    state.add_transcription(plain("second"));
    state.start_editing();
    state.handle_char_input('!');
    state.scroll_down();
    state.start_editing();
    assert_eq!(state.get_edit_state(), Some(("first!", 6, false)));
}

#[test]
fn cursor_moves_by_whole_characters() {
    let mut state = TranscriptionWidgetState::with_capacity(10);
    state.add_transcription(plain("h\u{e9}\u{4f60}"));
    state.start_editing();
    // 1 + 2 + 3 bytes
    assert_eq!(state.get_edit_state(), Some(("h\u{e9}\u{4f60}", 6, false)));
    state.move_cursor_right();
    assert_eq!(state.get_edit_state().unwrap().1, 6);
    state.move_cursor_left();
    assert_eq!(state.get_edit_state().unwrap().1, 3);
    state.handle_char_input('\u{597d}');
    assert_eq!(state.get_edit_state(), Some(("h\u{e9}\u{597d}\u{4f60}", 6, false)));
    state.handle_backspace();
    state.handle_backspace();
    assert_eq!(state.get_edit_state(), Some(("h\u{4f60}", 1, false)));
    state.move_cursor_left();
    state.move_cursor_left();
    state.handle_backspace();
    assert_eq!(state.get_edit_state(), Some(("h\u{4f60}", 0, false)));
    let (text, offset, _) = state.get_edit_state().unwrap();
    assert!(text.is_char_boundary(offset));
}

#[test]
fn eviction_moves_the_edit_target_with_its_row() {
    let mut names = SpeakerNames::new();
    let mut state = TranscriptionWidgetState::with_capacity(2);
    state.add_transcription(plain("A"));
    state.add_transcription(plain("B"));
    state.scroll_down();
    state.start_editing();
    state.handle_char_input('!');
    state.add_transcription(plain("C"));
    state.apply_edit(&mut names);
    assert_eq!(contents(&state), vec!["B!", "C"]);
}

#[test]
fn eviction_drops_an_edit_of_the_evicted_row() {
    let mut names = SpeakerNames::new();
    let mut state = TranscriptionWidgetState::with_capacity(2);
    state.add_transcription(plain("A"));
    state.add_transcription(plain("B"));
    state.start_editing();
    state.handle_char_input('!');
    state.add_transcription(plain("C"));
    assert!(!state.is_editing());
    state.apply_edit(&mut names);
    assert_eq!(contents(&state), vec!["B", "C"]);
    assert_eq!(state.focus().unwrap().message_index, 0);
}

#[test]
fn default_speaker_label_names_the_id() {
    let mut names = SpeakerNames::new();
    assert_eq!(names.get_speaker_name(0), "Speaker 0");
    assert_eq!(names.get_speaker_name(42), "Speaker 42");
    assert_eq!(names.get_speaker_name(-7), "Speaker -7");
    assert_eq!(names.get_speaker_name(i32::MIN), "Speaker -2147483648");
    assert_eq!(names.get_speaker_name(i32::MAX), "Speaker 2147483647");
    names.set_speaker_name(42, "Zaphod".to_string());
    assert_eq!(names.get_speaker_name(42), "Zaphod");
    assert!(names.has_custom_name(42));
    assert!(!names.has_custom_name(41));
}
