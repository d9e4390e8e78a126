//! A step-by-step recording workflow: choose a device, record, wait for the
//! transcript, read it. Key presses become events, and events move the model
//! from one state to the next.

use vstd::prelude::*;
use vstd::string::*;
use crate::keys::{KeyCode, KeyEvent};

verus! {

/// Event types for the application.
#[derive(Debug, Clone, PartialEq)]
pub enum AppEvent {
    /// User pressed up arrow or 'w'
    SelectPrev,
    /// User pressed down arrow or 's'
    SelectNext,
    /// User pressed enter to confirm
    Confirm,
    /// User pressed 'r' to start recording
    StartRecording,
    /// User pressed 'q' to quit
    Quit,
    /// User pressed Page Up to scroll up
    ScrollUp,
    /// User pressed Page Down to scroll down
    ScrollDown,
    /// Transcription result received
    TranscriptionReceived(String),
    /// Recording finished
    RecordingFinished,
    /// Transcription finished
    TranscriptionFinished,
    /// Timeout (no user input)
    Tick,
}

/// An event as plain values.
pub enum EventView {
    SelectPrev,
    SelectNext,
    Confirm,
    StartRecording,
    Quit,
    ScrollUp,
    ScrollDown,
    TranscriptionReceived(Seq<char>),
    RecordingFinished,
    TranscriptionFinished,
    Tick,
}

impl View for AppEvent {
    type V = EventView;

    open spec fn view(&self) -> EventView {
        match self {
            AppEvent::SelectPrev => EventView::SelectPrev,
            AppEvent::SelectNext => EventView::SelectNext,
            AppEvent::Confirm => EventView::Confirm,
            AppEvent::StartRecording => EventView::StartRecording,
            AppEvent::Quit => EventView::Quit,
            AppEvent::ScrollUp => EventView::ScrollUp,
            AppEvent::ScrollDown => EventView::ScrollDown,
            AppEvent::TranscriptionReceived(text) => EventView::TranscriptionReceived(text@),
            AppEvent::RecordingFinished => EventView::RecordingFinished,
            AppEvent::TranscriptionFinished => EventView::TranscriptionFinished,
            AppEvent::Tick => EventView::Tick,
        }
    }
}

/// The steps of the workflow.
#[derive(Debug, Clone, Copy, PartialEq, Eq, Structural)]
pub enum AppState {
    SelectingDevice,
    ReadyToRecord,
    Recording,
    Transcribing,
    Done,
}

/// The model of the workflow.
#[derive(Debug, Clone)]
pub struct AppModel {
    pub state: AppState,
    pub should_exit: bool,
    pub devices: Vec<String>,
    pub selected_device: usize,
    pub transcript_lines: Vec<String>,
    /// Lines of the transcript above the first one shown.
    pub scroll_position: usize,
    pub status: String,
}

/// The model as plain values.
pub struct ModelView {
    pub state: AppState,
    pub should_exit: bool,
    pub devices: Seq<Seq<char>>,
    pub selected_device: nat,
    pub transcript_lines: Seq<Seq<char>>,
    pub scroll_position: nat,
    pub status: Seq<char>,
}

/// The strings as plain values.
pub open spec fn texts(lines: Seq<String>) -> Seq<Seq<char>> {
    Seq::new(lines.len(), |i: int| lines[i]@)
}

impl View for AppModel {
    type V = ModelView;

    open spec fn view(&self) -> ModelView {
        ModelView {
            state: self.state,
            should_exit: self.should_exit,
            devices: texts(self.devices@),
            selected_device: self.selected_device as nat,
            transcript_lines: texts(self.transcript_lines@),
            scroll_position: self.scroll_position as nat,
            status: self.status@,
        }
    }
}

/// The event that a key stands for, if any.
pub open spec fn event_of(event: KeyEvent) -> Option<EventView> {
    match event.code {
        KeyCode::Up => Some(EventView::SelectPrev),
        KeyCode::Down => Some(EventView::SelectNext),
        KeyCode::Enter => Some(EventView::Confirm),
        KeyCode::PageUp => Some(EventView::ScrollUp),
        KeyCode::PageDown => Some(EventView::ScrollDown),
        KeyCode::Char(c) => if c == 'w' || c == 'W' {
            Some(EventView::SelectPrev)
        } else if c == 's' || c == 'S' {
            Some(EventView::SelectNext)
        } else if c == 'r' || c == 'R' {
            Some(EventView::StartRecording)
        } else if c == 'q' || c == 'Q' {
            Some(EventView::Quit)
        } else if c == 'c' && event.modifiers.control {
            Some(EventView::Quit)
        } else {
            None
        },
        _ => None,
    }
}

/// An optional event as plain values.
pub open spec fn optional_event(event: Option<AppEvent>) -> Option<EventView> {
    match event {
        Some(event) => Some(event@),
        None => None,
    }
}

impl ModelView {
    /// The model in another state, with a status line that says so.
    pub open spec fn moved(self, state: AppState, status: &str) -> ModelView {
        ModelView { state, status: status@, ..self }
    }

    /// The model with the device above selected, if there is one.
    pub open spec fn select_prev_device(self) -> ModelView {
        if self.selected_device > 0 {
            ModelView { selected_device: (self.selected_device - 1) as nat, ..self }
        } else {
            self
        }
    }

    /// The model with the device below selected, if there is one.
    pub open spec fn select_next_device(self) -> ModelView {
        if self.selected_device + 1 < self.devices.len() {
            ModelView { selected_device: self.selected_device + 1, ..self }
        } else {
            self
        }
    }

    /// The model with the transcript moved down by a line, unless its first
    /// line is shown.
    pub open spec fn scroll_transcript_up(self) -> ModelView {
        if self.scroll_position > 0 {
            ModelView { scroll_position: (self.scroll_position - 1) as nat, ..self }
        } else {
            self
        }
    }

    /// The model with the transcript moved up by a line, unless its last line
    /// is the first one shown.
    pub open spec fn scroll_transcript_down(self) -> ModelView {
        if self.scroll_position + 1 < self.transcript_lines.len() {
            ModelView { scroll_position: self.scroll_position + 1, ..self }
        } else {
            self
        }
    }

    /// The model after an event.
    pub open spec fn update(self, event: EventView) -> ModelView {
        match event {
            EventView::SelectPrev => if self.state == AppState::SelectingDevice {
                self.select_prev_device()
            } else if self.state == AppState::Done {
                self.scroll_transcript_up()
            } else {
                self
            },
            EventView::SelectNext => if self.state == AppState::SelectingDevice {
                self.select_next_device()
            } else if self.state == AppState::Done {
                self.scroll_transcript_down()
            } else {
                self
            },
            EventView::Confirm => if self.state == AppState::SelectingDevice {
                self.moved(AppState::ReadyToRecord, "Ready to record. Press 'r' to start.")
            } else {
                self
            },
            EventView::StartRecording => if self.state == AppState::ReadyToRecord {
                ModelView {
                    transcript_lines: Seq::empty(),
                    scroll_position: 0,
                    ..self.moved(AppState::Recording, "Recording... Press 'q' to stop.")
                }
            } else {
                self
            },
            EventView::ScrollUp => self.scroll_transcript_up(),
            EventView::ScrollDown => self.scroll_transcript_down(),
            EventView::TranscriptionReceived(text) => if self.state == AppState::Recording
                || self.state == AppState::Transcribing {
                ModelView {
                    transcript_lines: self.transcript_lines.push(text),
                    status: "Transcribing..."@,
                    ..self
                }
            } else {
                self
            },
            EventView::RecordingFinished => if self.state == AppState::Recording {
                self.moved(AppState::Transcribing, "Waiting for transcription to complete...")
            } else {
                self
            },
            EventView::TranscriptionFinished => if self.state == AppState::Transcribing {
                self.moved(AppState::Done, "Done. Press 'q' to quit or select new device.")
            } else {
                self
            },
            EventView::Quit => ModelView { should_exit: true, ..self },
            EventView::Tick => self,
        }
    }

    /// The name of the selected device, if the selection names one.
    pub open spec fn selected_device_name(self) -> Option<Seq<char>> {
        if self.selected_device < self.devices.len() {
            Some(self.devices[self.selected_device as int])
        } else {
            None
        }
    }

    /// The status line: the state, and the selected device.
    pub open spec fn status_message(self) -> Seq<char> {
        state_name(self.state)@ + " | Device: "@ + match self.selected_device_name() {
            Some(name) => name,
            None => "No device selected"@,
        }
    }
}

/// The name of a state.
pub open spec fn state_name(state: AppState) -> &'static str {
    match state {
        AppState::SelectingDevice => "Selecting Device",
        AppState::ReadyToRecord => "Ready to Record",
        AppState::Recording => "Recording",
        AppState::Transcribing => "Transcribing",
        AppState::Done => "Done",
    }
}

/// The help line of a state.
pub open spec fn help_text(state: AppState) -> &'static str {
    match state {
        AppState::SelectingDevice => "↑/W: Up | ↓/S: Down | Enter: Select | Q: Quit",
        AppState::ReadyToRecord => "R: Start Recording | Q: Quit",
        AppState::Recording => "Recording in progress... Q: Stop",
        AppState::Transcribing => "Transcribing... Please wait",
        AppState::Done => "PgUp/PgDn: Scroll | Q: Quit | U: Use Another Device",
    }
}

impl AppModel {
    /// The model at the start: the first device selected, nothing recorded.
    pub fn new(devices: Vec<String>) -> (model: Self)
        ensures
            model@ == (ModelView {
                state: AppState::SelectingDevice,
                should_exit: false,
                devices: texts(devices@),
                selected_device: 0,
                transcript_lines: Seq::empty(),
                scroll_position: 0,
                status: Seq::empty(),
            }),
    {
        let model = AppModel {
            state: AppState::SelectingDevice,
            should_exit: false,
            devices,
            selected_device: 0,
            transcript_lines: Vec::new(),
            scroll_position: 0,
            status: String::new(),
        };
        assert(model@.transcript_lines =~= Seq::<Seq<char>>::empty());
        model
    }

    pub fn select_prev_device(&mut self)
        ensures
            final(self)@ == old(self)@.select_prev_device(),
    {
        if self.selected_device > 0 {
            self.selected_device -= 1;
        }
    }

    pub fn select_next_device(&mut self)
        ensures
            final(self)@ == old(self)@.select_next_device(),
    {
        let count = self.devices.len();
        assert(self@.devices.len() == count);
        if self.selected_device < count && self.selected_device + 1 < count {
            self.selected_device += 1;
        }
    }

    pub fn scroll_transcript_up(&mut self)
        ensures
            final(self)@ == old(self)@.scroll_transcript_up(),
    {
        if self.scroll_position > 0 {
            self.scroll_position -= 1;
        }
    }

    pub fn scroll_transcript_down(&mut self)
        ensures
            final(self)@ == old(self)@.scroll_transcript_down(),
    {
        let count = self.transcript_lines.len();
        assert(self@.transcript_lines.len() == count);
        if self.scroll_position < count && self.scroll_position + 1 < count {
            self.scroll_position += 1;
        }
    }

    pub fn set_state(&mut self, state: AppState)
        ensures
            final(self)@ == (ModelView { state, ..old(self)@ }),
    {
        self.state = state;
    }

    pub fn set_status(&mut self, status: String)
        ensures
            final(self)@ == (ModelView { status: status@, ..old(self)@ }),
    {
        self.status = status;
    }

    pub fn clear_transcript(&mut self)
        ensures
            final(self)@ == (ModelView {
                transcript_lines: Seq::empty(),
                scroll_position: 0,
                ..old(self)@
            }),
    {
        self.transcript_lines = Vec::new();
        self.scroll_position = 0;
        assert(self@.transcript_lines =~= Seq::<Seq<char>>::empty());
    }

    pub fn add_transcript_line(&mut self, line: String)
        ensures
            final(self)@ == (ModelView {
                transcript_lines: old(self)@.transcript_lines.push(line@),
                ..old(self)@
            }),
    {
        self.transcript_lines.push(line);
        assert(self@.transcript_lines =~= old(self)@.transcript_lines.push(line@));
    }

    pub fn selected_device_name(&self) -> (name: Option<&str>)
        ensures
            name is Some <==> self@.selected_device_name() is Some,
            name matches Some(name) ==> Some(name@) == self@.selected_device_name(),
    {
        if self.selected_device < self.devices.len() {
            Some(self.devices[self.selected_device].as_str())
        } else {
            None
        }
    }
}

/// Converts a key event to an application event.
pub fn handle_key_event(event: KeyEvent) -> (app_event: Option<AppEvent>)
    ensures
        optional_event(app_event) == event_of(event),
{
    match event.code {
        KeyCode::Up => Some(AppEvent::SelectPrev),
        KeyCode::Down => Some(AppEvent::SelectNext),
        KeyCode::Enter => Some(AppEvent::Confirm),
        KeyCode::PageUp => Some(AppEvent::ScrollUp),
        KeyCode::PageDown => Some(AppEvent::ScrollDown),
        KeyCode::Char(c) => {
            if c == 'w' || c == 'W' {
                Some(AppEvent::SelectPrev)
            } else if c == 's' || c == 'S' {
                Some(AppEvent::SelectNext)
            } else if c == 'r' || c == 'R' {
                Some(AppEvent::StartRecording)
            } else if c == 'q' || c == 'Q' {
                Some(AppEvent::Quit)
            } else if c == 'c' && event.modifiers.control {
                Some(AppEvent::Quit)
            } else {
                None
            }
        },
        _ => None,
    }
}

/// Handles an application event and updates the model accordingly.
pub fn update_model(model: &mut AppModel, event: AppEvent)
    ensures
        final(model)@ == old(model)@.update(event@),
{
    match event {
        AppEvent::SelectPrev => {
            match model.state {
                AppState::SelectingDevice => model.select_prev_device(),
                AppState::Done => model.scroll_transcript_up(),
                _ => {},
            }
        },
        AppEvent::SelectNext => {
            match model.state {
                AppState::SelectingDevice => model.select_next_device(),
                AppState::Done => model.scroll_transcript_down(),
                _ => {},
            }
        },
        AppEvent::Confirm => {
            if let AppState::SelectingDevice = model.state {
                model.set_state(AppState::ReadyToRecord);
                model.set_status(String::from_str("Ready to record. Press 'r' to start."));
            }
        },
        AppEvent::StartRecording => {
            if let AppState::ReadyToRecord = model.state {
                model.set_state(AppState::Recording);
                model.clear_transcript();
                model.set_status(String::from_str("Recording... Press 'q' to stop."));
            }
        },
        AppEvent::ScrollUp => {
            model.scroll_transcript_up();
        },
        AppEvent::ScrollDown => {
            model.scroll_transcript_down();
        },
        AppEvent::TranscriptionReceived(text) => {
            match model.state {
                AppState::Recording | AppState::Transcribing => {
                    model.add_transcript_line(text);
                    model.set_status(String::from_str("Transcribing..."));
                },
                _ => {},
            }
        },
        AppEvent::RecordingFinished => {
            if let AppState::Recording = model.state {
                model.set_state(AppState::Transcribing);
                model.set_status(String::from_str("Waiting for transcription to complete..."));
            }
        },
        AppEvent::TranscriptionFinished => {
            if let AppState::Transcribing = model.state {
                model.set_state(AppState::Done);
                model.set_status(String::from_str("Done. Press 'q' to quit or select new device."));
            }
        },
        AppEvent::Quit => {
            model.should_exit = true;
        },
        AppEvent::Tick => {},
    }
}

/// The help line of a state.
pub fn get_help_text(state: AppState) -> (text: String)
    ensures
        text@ == help_text(state)@,
{
    match state {
        AppState::SelectingDevice => String::from_str(
            "↑/W: Up | ↓/S: Down | Enter: Select | Q: Quit",
        ),
        AppState::ReadyToRecord => String::from_str("R: Start Recording | Q: Quit"),
        AppState::Recording => String::from_str("Recording in progress... Q: Stop"),
        AppState::Transcribing => String::from_str("Transcribing... Please wait"),
        AppState::Done => String::from_str("PgUp/PgDn: Scroll | Q: Quit | U: Use Another Device"),
    }
}

/// The status line of the model: its state, and the selected device.
pub fn get_status_message(model: &AppModel) -> (text: String)
    ensures
        text@ == model@.status_message(),
{
    let device = match model.selected_device_name() {
        Some(name) => name,
        None => "No device selected",
    };
    let state_str = match model.state {
        AppState::SelectingDevice => "Selecting Device",
        AppState::ReadyToRecord => "Ready to Record",
        AppState::Recording => "Recording",
        AppState::Transcribing => "Transcribing",
        AppState::Done => "Done",
    };
    let mut text = String::from_str(state_str);
    text.append(" | Device: ");
    text.append(device);
    text
}

} // verus!
