//! The interface of the application: the transcript and the dialogs, and what
//! every key does to them and to the state of the application.

use vstd::prelude::*;
use vstd::string::*;
use crate::audio::{names, AudioError};
use crate::config::defaults::enumeration;
use crate::keys::{KeyCode, KeyEvent, KeyEventKind};
use crate::state::{resolved_device, AppState, AppView};
use crate::text::str_eq;
use crate::transcript::{TranscriptionMessage, TranscriptionWidgetState};
use crate::transcript_model::BufferView;
use crate::widgets::device_dialog::DeviceDialogState;
use crate::widgets::settings_dialog::{
    first_selectable, group_rows, DialogView, SettingsDialogState,
};

verus! {

/// Application UI state.
pub struct App {
    /// The transcript.
    pub transcription_state: TranscriptionWidgetState,
    /// The device dialog, while it is open.
    pub device_dialog_state: Option<DeviceDialogState>,
    /// The settings dialog, while it is open.
    pub settings_dialog_state: Option<SettingsDialogState>,
}

/// The device dialog as plain values.
pub struct DeviceDialogView {
    pub selected_index: usize,
    pub devices: Seq<Seq<char>>,
    pub current_device_index: usize,
}

/// The interface as plain values.
pub struct UiView {
    pub transcript: BufferView,
    pub device_dialog: Option<DeviceDialogView>,
    pub settings_dialog: Option<DialogView>,
}

/// A device dialog as plain values.
pub open spec fn device_dialog_view(dialog: DeviceDialogState) -> DeviceDialogView {
    DeviceDialogView {
        selected_index: dialog.selected_index,
        devices: names(dialog.devices@),
        current_device_index: dialog.current_device_index,
    }
}

impl View for App {
    type V = UiView;

    open spec fn view(&self) -> UiView {
        UiView {
            transcript: self.transcription_state@,
            device_dialog: match self.device_dialog_state {
                Some(dialog) => Some(device_dialog_view(dialog)),
                None => None,
            },
            settings_dialog: match self.settings_dialog_state {
                Some(dialog) => Some(dialog@),
                None => None,
            },
        }
    }
}

impl DeviceDialogView {
    /// The dialog with the device above selected.
    pub open spec fn previous(self) -> DeviceDialogView {
        if self.selected_index > 0 {
            DeviceDialogView { selected_index: (self.selected_index - 1) as usize, ..self }
        } else {
            self
        }
    }

    /// The dialog with the device below selected.
    pub open spec fn next(self) -> DeviceDialogView {
        if self.selected_index + 1 < self.devices.len() {
            DeviceDialogView { selected_index: (self.selected_index + 1) as usize, ..self }
        } else {
            self
        }
    }
}

/// The state of the application after a setting changed: a restart of the
/// transcription session is asked for if the language or the API key is
/// another than before, and the active device is resolved anew.
pub open spec fn settings_applied(
    before: AppView,
    after: AppView,
    devices: Result<Seq<Seq<char>>, AudioError>,
) -> AppView {
    let restart = after.transcriber_restart_needed || before.deepgram_language()
        != after.deepgram_language() || before.deepgram_api_key() != after.deepgram_api_key();
    let resolved = resolved_device(after.config, devices);
    AppView {
        transcriber_restart_needed: restart,
        current_device_index: resolved.1 as usize,
        current_device_name: resolved.2,
        config: resolved.0,
        audio_device_restart_needed: after.audio_device_restart_needed || resolved.1
            != after.current_device_index || resolved.2 != after.current_device_name,
        ..after
    }
}

impl UiView {
    /// The invariant of the interface.
    pub open spec fn wf(self) -> bool {
        &&& self.transcript.wf()
        &&& (self.settings_dialog matches Some(dialog) ==> dialog.wf())
    }

    /// The interface with the settings dialog open on the schema of the
    /// settings, and no other dialog.
    pub open spec fn with_settings_dialog(self, state: AppView) -> UiView {
        UiView {
            settings_dialog: Some(
                DialogView {
                    items: group_rows(state.config.root, 0, false),
                    selected_row: first_selectable(group_rows(state.config.root, 0, false)),
                    editing: None,
                },
            ),
            device_dialog: None,
            ..self
        }
    }

    /// The interface with the device dialog open, if devices were found.
    pub open spec fn with_device_dialog(
        self,
        current: usize,
        devices: Result<Seq<Seq<char>>, AudioError>,
    ) -> UiView {
        match devices {
            Ok(found) if found.len() > 0 => UiView {
                device_dialog: Some(
                    DeviceDialogView {
                        selected_index: current,
                        devices: found,
                        current_device_index: current,
                    },
                ),
                ..self
            },
            _ => self,
        }
    }

    /// What a key does while the settings dialog is open and uses the key.
    pub open spec fn settings_key(
        self,
        key: KeyEvent,
        state: AppView,
        devices: Result<Seq<Seq<char>>, AudioError>,
    ) -> (UiView, AppView) {
        let dialog = self.settings_dialog->0;
        let (after, config, event) = dialog.handle(key, state.config);
        let changed = AppView { config, ..state };
        (
            UiView {
                settings_dialog: if event.close {
                    None
                } else {
                    Some(after)
                },
                ..self
            },
            if event.value_changed {
                settings_applied(state, changed, devices)
            } else {
                changed
            },
        )
    }

    /// What a key does while the device dialog is open: the arrows move the
    /// selection, enter makes the selected device the active one, escape
    /// closes the dialog. The result says whether the key was used.
    pub open spec fn device_key(
        self,
        key: KeyEvent,
        state: AppView,
        devices: Result<Seq<Seq<char>>, AudioError>,
    ) -> (UiView, AppView, bool) {
        let dialog = self.device_dialog->0;
        match key.code {
            KeyCode::Esc => (UiView { device_dialog: None, ..self }, state, true),
            KeyCode::Up => (UiView { device_dialog: Some(dialog.previous()), ..self }, state, true),
            KeyCode::Down => (UiView { device_dialog: Some(dialog.next()), ..self }, state, true),
            KeyCode::Enter => (
                UiView { device_dialog: None, ..self },
                AppView {
                    current_device_index: dialog.selected_index,
                    current_device_name: AppView::device_name(devices, dialog.selected_index),
                    config: state.config.set_select(
                        crate::config::defaults::DEVICE_KEY@,
                        AppView::device_name(devices, dialog.selected_index),
                    ).0,
                    audio_device_restart_needed: true,
                    ..state
                },
                true,
            ),
            _ => (self, state, false),
        }
    }

    /// What a key does while a part of the transcript is being edited.
    pub open spec fn edit_key(self, key: KeyEvent, state: AppView) -> (UiView, AppView, bool) {
        match key.code {
            KeyCode::Esc => (
                UiView { transcript: self.transcript.cancel_editing(), ..self },
                state,
                true,
            ),
            KeyCode::Enter => (
                UiView { transcript: self.transcript.apply_edit(), ..self },
                AppView {
                    speakers: match (
                        self.transcript.pending_speaker_id(),
                        self.transcript.pending_label(),
                    ) {
                        (Some(id), Some(label)) => state.speakers.insert(id, label),
                        _ => state.speakers,
                    },
                    ..state
                },
                true,
            ),
            KeyCode::Backspace => (
                UiView { transcript: self.transcript.backspace(), ..self },
                state,
                true,
            ),
            KeyCode::Left => (UiView { transcript: self.transcript.cursor_left(), ..self }, state, true),
            KeyCode::Right => (
                UiView { transcript: self.transcript.cursor_right(), ..self },
                state,
                true,
            ),
            KeyCode::Char(c) => (
                UiView { transcript: self.transcript.insert_char(c), ..self },
                state,
                true,
            ),
            _ => (self, state, false),
        }
    }

    /// What a key does when no dialog uses it and nothing is being edited.
    pub open spec fn plain_key(
        self,
        key: KeyEvent,
        state: AppView,
        devices: Result<Seq<Seq<char>>, AudioError>,
        now: u64,
    ) -> (UiView, AppView, bool) {
        match key.code {
            KeyCode::Esc => (self, AppView { should_quit: true, ..state }, true),
            KeyCode::Enter => (
                UiView { transcript: self.transcript.start_editing(), ..self },
                state,
                true,
            ),
            KeyCode::Up => (UiView { transcript: self.transcript.focus_prev(), ..self }, state, true),
            KeyCode::Down => (UiView { transcript: self.transcript.focus_next(), ..self }, state, true),
            KeyCode::Left => (UiView { transcript: self.transcript.focus_left(), ..self }, state, true),
            KeyCode::Right => (
                UiView { transcript: self.transcript.focus_right(), ..self },
                state,
                true,
            ),
            KeyCode::Char(c) => if c == 'q' {
                (self, AppView { should_quit: true, ..state }, true)
            } else if c == ' ' {
                (
                    self,
                    AppView {
                        is_paused: !state.is_paused,
                        recording_session: if state.is_paused {
                            state.recording_session.resumed(now)
                        } else {
                            state.recording_session.paused(now)
                        },
                        ..state
                    },
                    true,
                )
            } else if c == 'd' || c == 'D' {
                (self.with_device_dialog(state.current_device_index, devices), state, true)
            } else if c == 's' || c == 'S' {
                (
                    if self.settings_dialog is Some {
                        UiView { settings_dialog: None, ..self }
                    } else {
                        self.with_settings_dialog(state)
                    },
                    state,
                    true,
                )
            } else {
                (self, state, false)
            },
            _ => (self, state, false),
        }
    }

    /// What a key does: the interface and the state afterwards, and whether
    /// the key was used. Only the press of a key counts. The settings dialog
    /// sees the key first; a key that it does not use goes to the device
    /// dialog if that is open, else to the edit in progress if there is one,
    /// else to the application.
    pub open spec fn handle(
        self,
        key: KeyEvent,
        state: AppView,
        devices: Result<Seq<Seq<char>>, AudioError>,
        now: u64,
    ) -> (UiView, AppView, bool) {
        if key.kind != KeyEventKind::Press {
            (self, state, false)
        } else if self.settings_dialog is Some && self.settings_dialog->0.handle(
            key,
            state.config,
        ).2.handled {
            (self.settings_key(key, state, devices).0, self.settings_key(key, state, devices).1, true)
        } else if self.device_dialog is Some {
            self.device_key(key, state, devices)
        } else if self.transcript.edit is Some {
            self.edit_key(key, state)
        } else {
            self.plain_key(key, state, devices, now)
        }
    }

    /// Whether handling the key may need the enumeration of input devices:
    /// while a dialog is open, and for the key that opens the device dialog.
    pub open spec fn needs_devices(self, key: KeyEvent) -> bool {
        key.kind == KeyEventKind::Press && (self.settings_dialog is Some || self.device_dialog is Some
            || key.code == KeyCode::Char('d') || key.code == KeyCode::Char('D'))
    }
}

/// A key that does not need the enumeration of input devices does the same
/// whatever the enumeration is.
pub proof fn lemma_devices_unused(
    ui: UiView,
    key: KeyEvent,
    state: AppView,
    devices: Result<Seq<Seq<char>>, AudioError>,
    others: Result<Seq<Seq<char>>, AudioError>,
    now: u64,
)
    requires
        !ui.needs_devices(key),
    ensures
        ui.handle(key, state, devices, now) == ui.handle(key, state, others, now),
{
}

/// Copies a list of names.
fn duplicate_names(found: &Vec<String>) -> (copy: Vec<String>)
    ensures
        names(copy@) == names(found@),
{
    let mut copy: Vec<String> = Vec::new();
    let n = found.len();
    let mut i: usize = 0;
    while i < n
        invariant
            i <= n,
            n == found@.len(),
            copy@.len() == i,
            forall|j: int| 0 <= j < i ==> copy@[j]@ == found@[j]@,
        decreases n - i,
    {
        copy.push(found[i].clone());
        i += 1;
    }
    assert(names(copy@) =~= names(found@));
    copy
}

impl App {
    /// The invariant of the interface.
    pub open spec fn wf(&self) -> bool {
        self@.wf()
    }

    /// The interface at the start: an empty transcript and no dialog,
    /// whatever the state of the application. The settings reach the
    /// interface only with the keys that are handled later.
    pub fn new(state: &AppState) -> (app: Self)
        ensures
            app.wf(),
            app@ == (UiView {
                transcript: BufferView::empty(crate::transcript::MAX_TRANSCRIPTIONS as nat),
                device_dialog: None,
                settings_dialog: None,
            }),
    {
        Self {
            transcription_state: TranscriptionWidgetState::new(),
            device_dialog_state: None,
            settings_dialog_state: None,
        }
    }

    /// Adds a message to the transcript.
    pub fn add_transcription(&mut self, message: TranscriptionMessage)
        requires
            old(self).wf(),
        ensures
            final(self).wf(),
            final(self)@ == (UiView { transcript: old(self)@.transcript.append(message@), ..old(self)@ }),
    {
        self.transcription_state.add_transcription(message);
    }

    /// Moves focus to the previous row of the transcript.
    pub fn scroll_up(&mut self)
        requires
            old(self).wf(),
        ensures
            final(self).wf(),
            final(self)@ == (UiView { transcript: old(self)@.transcript.focus_prev(), ..old(self)@ }),
    {
        self.transcription_state.scroll_up();
    }

    /// Moves focus to the next row of the transcript.
    pub fn scroll_down(&mut self)
        requires
            old(self).wf(),
        ensures
            final(self).wf(),
            final(self)@ == (UiView { transcript: old(self)@.transcript.focus_next(), ..old(self)@ }),
    {
        self.transcription_state.scroll_down();
    }

    /// Moves focus to the speaker of the focused row.
    pub fn focus_left(&mut self)
        requires
            old(self).wf(),
        ensures
            final(self).wf(),
            final(self)@ == (UiView { transcript: old(self)@.transcript.focus_left(), ..old(self)@ }),
    {
        self.transcription_state.focus_left();
    }

    /// Moves focus to the message of the focused row.
    pub fn focus_right(&mut self)
        requires
            old(self).wf(),
        ensures
            final(self).wf(),
            final(self)@ == (UiView { transcript: old(self)@.transcript.focus_right(), ..old(self)@ }),
    {
        self.transcription_state.focus_right();
    }

    /// Opens the device dialog on the enumerated devices, if there are any.
    pub fn open_device_dialog(&mut self, current_device: usize, devices: &Result<
        Vec<String>,
        AudioError,
    >)
        ensures
            final(self)@ == old(self)@.with_device_dialog(current_device, enumeration(*devices)),
    {
        if let Ok(found) = devices {
            if found.len() > 0 {
                self.device_dialog_state = Some(
                    DeviceDialogState::new(duplicate_names(found), current_device),
                );
            }
        }
    }

    /// Closes the device dialog.
    pub fn close_device_dialog(&mut self)
        ensures
            final(self)@ == (UiView { device_dialog: None, ..old(self)@ }),
    {
        self.device_dialog_state = None;
    }

    /// Opens the settings dialog, and closes the device dialog.
    pub fn open_settings_dialog(&mut self, state: &AppState)
        ensures
            final(self)@ == old(self)@.with_settings_dialog(state@),
            old(self).wf() ==> final(self).wf(),
    {
        self.settings_dialog_state = Some(SettingsDialogState::new(state.config()));
        self.device_dialog_state = None;
    }

    /// Closes the settings dialog.
    pub fn close_settings_dialog(&mut self)
        ensures
            final(self)@ == (UiView { settings_dialog: None, ..old(self)@ }),
    {
        self.settings_dialog_state = None;
    }

    /// Opens the settings dialog, or closes it if it is open.
    pub fn toggle_settings_dialog(&mut self, state: &AppState)
        ensures
            final(self)@ == if old(self)@.settings_dialog is Some {
                UiView { settings_dialog: None, ..old(self)@ }
            } else {
                old(self)@.with_settings_dialog(state@)
            },
            old(self).wf() ==> final(self).wf(),
    {
        if self.settings_dialog_state.is_some() {
            self.close_settings_dialog();
        } else {
            self.open_settings_dialog(state);
        }
    }

    /// Whether handling the key may need the enumeration of input devices.
    pub fn needs_device_list(&self, key: KeyEvent) -> (needed: bool)
        ensures
            needed == self@.needs_devices(key),
    {
        let pressed = match key.kind {
            KeyEventKind::Press => true,
            _ => false,
        };
        let opens = match key.code {
            KeyCode::Char(c) => c == 'd' || c == 'D',
            _ => false,
        };
        pressed && (self.settings_dialog_state.is_some() || self.device_dialog_state.is_some()
            || opens)
    }

    /// Brings the state of the application up to date after a setting
    /// changed.
    fn refresh_from_config(
        state: &mut AppState,
        language: String,
        api_key: Option<String>,
        devices: &Result<Vec<String>, AudioError>,
        Ghost(before): Ghost<AppView>,
    )
        requires
            old(state).wf(),
            language@ == before.deepgram_language(),
            crate::config::schema::optional_text(api_key) == before.deepgram_api_key(),
        ensures
            final(state).wf(),
            final(state)@ == settings_applied(before, old(state)@, enumeration(*devices)),
    {
        let language_now = state.deepgram_language();
        let key_now = state.deepgram_api_key();
        let same_key = match (&api_key, &key_now) {
            (Some(a), Some(b)) => str_eq(a.as_str(), b.as_str()),
            (None, None) => true,
            _ => false,
        };
        if !str_eq(language.as_str(), language_now.as_str()) || !same_key {
            state.request_transcriber_restart();
        }
        state.sync_audio_device_from_config(devices);
    }

    /// Handles a key: changes the interface and the state of the application
    /// as the key asks, and says whether the key was used. `devices` is the
    /// enumeration of input devices, which is read only where
    /// `needs_device_list` says so; `now` is the time.
    pub fn handle_key_event(
        &mut self,
        key: KeyEvent,
        state: &mut AppState,
        devices: &Result<Vec<String>, AudioError>,
        now: u64,
    ) -> (handled: bool)
        requires
            old(self).wf(),
            old(state).wf(),
        ensures
            final(self).wf(),
            final(state).wf(),
            final(self)@ == old(self)@.handle(key, old(state)@, enumeration(*devices), now).0,
            final(state)@ == old(self)@.handle(key, old(state)@, enumeration(*devices), now).1,
            handled == old(self)@.handle(key, old(state)@, enumeration(*devices), now).2,
    {
        match key.kind {
            KeyEventKind::Press => {},
            _ => {
                return false;
            },
        }
        let ghost before = state@;
        let dialog = self.settings_dialog_state.take();
        if let Some(mut dialog_state) = dialog {
            let language = state.deepgram_language();
            let api_key = state.deepgram_api_key();
            let result = dialog_state.handle_key_event(key, state.config_mut());
            if result.handled {
                if result.value_changed {
                    Self::refresh_from_config(state, language, api_key, devices, Ghost(before));
                }
                if !result.close {
                    self.settings_dialog_state = Some(dialog_state);
                }
                return true;
            }
            self.settings_dialog_state = Some(dialog_state);
        }
        let dialog = self.device_dialog_state.take();
        if let Some(mut dialog_state) = dialog {
            let handled = match key.code {
                KeyCode::Esc => true,
                KeyCode::Up => {
                    dialog_state.select_previous();
                    self.device_dialog_state = Some(dialog_state);
                    true
                },
                KeyCode::Down => {
                    dialog_state.select_next();
                    self.device_dialog_state = Some(dialog_state);
                    true
                },
                KeyCode::Enter => {
                    let _ = state.set_device_index(dialog_state.selected(), devices);
                    true
                },
                _ => {
                    self.device_dialog_state = Some(dialog_state);
                    false
                },
            };
            return handled;
        }
        if self.transcription_state.is_editing() {
            let handled = match key.code {
                KeyCode::Esc => {
                    self.transcription_state.cancel_editing();
                    true
                },
                KeyCode::Enter => {
                    self.transcription_state.apply_edit(state.speaker_names_mut());
                    true
                },
                KeyCode::Backspace => {
                    self.transcription_state.handle_backspace();
                    true
                },
                KeyCode::Left => {
                    self.transcription_state.move_cursor_left();
                    true
                },
                KeyCode::Right => {
                    self.transcription_state.move_cursor_right();
                    true
                },
                KeyCode::Char(c) => {
                    self.transcription_state.handle_char_input(c);
                    true
                },
                _ => false,
            };
            return handled;
        }
        match key.code {
            KeyCode::Esc => {
                state.request_quit();
                true
            },
            KeyCode::Enter => {
                self.transcription_state.start_editing();
                true
            },
            KeyCode::Up => {
                self.scroll_up();
                true
            },
            KeyCode::Down => {
                self.scroll_down();
                true
            },
            KeyCode::Left => {
                self.focus_left();
                true
            },
            KeyCode::Right => {
                self.focus_right();
                true
            },
            KeyCode::Char(c) => {
                if c == 'q' {
                    state.request_quit();
                    true
                } else if c == ' ' {
                    state.toggle_recording(now);
                    true
                } else if c == 'd' || c == 'D' {
                    self.open_device_dialog(state.current_device_index(), devices);
                    true
                } else if c == 's' || c == 'S' {
                    self.toggle_settings_dialog(state);
                    true
                } else {
                    false
                }
            },
            _ => false,
        }
    }
}

} // verus!
