//! The state of the application: recording, the input device, speaker names
//! and the settings.
//!
//! Time is a count of milliseconds that the caller reads from a clock that
//! never runs backwards. The flags that the capture worker polls are kept by
//! the caller, who copies them from this state.

use vstd::prelude::*;
use vstd::string::*;
use crate::audio::{get_device_name, names, AudioError};
use crate::config::defaults::{
    device_option_list, device_options, enumeration, option, placeholder_option_list,
    DEVICE_KEY, NO_DEVICES,
};
use crate::config::manager::ConfigManager;
use crate::config::model::ConfigView;
use crate::config::schema::{
    option_views, round_to_multiple, ConfigError, ConfigField, FieldView, OptionView, SelectOption,
    NUMBER_SCALE,
};
use crate::speakers::{speaker_label, SpeakerNames};
use crate::text::{push_char, push_two_digits, str_eq, trim, trimmed, two_digits};

verus! {

/// Whether audio is being recorded.
#[derive(Debug, Clone, Copy, PartialEq, Eq, Structural)]
pub enum RecordingState {
    Recording,
    Paused,
}

/// A colour as red, green and blue.
#[derive(Debug, Clone, Copy, PartialEq, Eq, Structural)]
pub struct Rgb {
    pub r: u8,
    pub g: u8,
    pub b: u8,
}

/// The times of a recording, in milliseconds.
#[derive(Debug, Clone, Copy, PartialEq, Eq, Structural)]
pub struct RecordingSession {
    /// When recording last began or resumed.
    pub start_time: u64,
    /// For how long audio was recorded before the last pause.
    pub elapsed_recording_time: u64,
    /// When recording was paused, while it is.
    pub last_pause_time: Option<u64>,
}

/// The name shown for a device that cannot be named.
pub const UNKNOWN_DEVICE: &'static str = "Unknown Device";

/// The sum of two times, no more than the largest time.
pub open spec fn time_sum(a: u64, b: u64) -> u64 {
    if a + b > u64::MAX {
        u64::MAX
    } else {
        (a + b) as u64
    }
}

/// The time from `from` to `to`, none if `to` is the earlier.
pub open spec fn time_between(from: u64, to: u64) -> u64 {
    if to >= from {
        (to - from) as u64
    } else {
        0
    }
}

impl RecordingSession {
    /// The times after recording was paused at `now`.
    pub open spec fn paused(self, now: u64) -> RecordingSession {
        RecordingSession { last_pause_time: Some(now), ..self }
    }

    /// The times after recording was resumed at `now`: the time recorded up
    /// to the pause is added to the elapsed time.
    pub open spec fn resumed(self, now: u64) -> RecordingSession {
        RecordingSession {
            start_time: now,
            elapsed_recording_time: match self.last_pause_time {
                Some(pause) => time_sum(
                    self.elapsed_recording_time,
                    time_between(self.start_time, pause),
                ),
                None => self.elapsed_recording_time,
            },
            last_pause_time: None,
        }
    }

    /// For how long audio was recorded up to `now`.
    pub open spec fn recorded(self, paused: bool, now: u64) -> u64 {
        if paused {
            self.elapsed_recording_time
        } else {
            time_sum(self.elapsed_recording_time, time_between(self.start_time, now))
        }
    }
}

/// A time as hours, minutes and seconds, each of at least two digits.
pub open spec fn clock_text(milliseconds: u64) -> Seq<char> {
    let seconds = (milliseconds / 1000) as nat;
    two_digits(seconds / 3600) + seq![':'] + two_digits((seconds % 3600) / 60) + seq![':']
        + two_digits(seconds % 60)
}

/// A colour component scaled by a brightness in millionths, rounded to the
/// nearest whole number and kept within 0 and 255.
pub open spec fn scaled(component: u8, brightness: i64) -> u8 {
    let exact = round_to_multiple(component * brightness, 1000000) / 1000000;
    if exact < 0 {
        0
    } else if exact > 255 {
        255
    } else {
        exact as u8
    }
}

/// The colour of an accent name; blue for a name that is none.
pub open spec fn accent_base(name: Seq<char>) -> Rgb {
    if name == "cyan"@ {
        Rgb { r: 0, g: 188, b: 242 }
    } else if name == "magenta"@ {
        Rgb { r: 216, g: 46, b: 154 }
    } else if name == "amber"@ {
        Rgb { r: 255, g: 179, b: 71 }
    } else if name == "green"@ {
        Rgb { r: 0, g: 200, b: 117 }
    } else {
        Rgb { r: 59, g: 130, b: 246 }
    }
}

/// Where a name first stands among the names.
pub open spec fn first_index(all: Seq<Seq<char>>, name: Seq<char>) -> Option<nat>
    decreases all.len(),
{
    if all.len() == 0 {
        None
    } else {
        match first_index(all.drop_last(), name) {
            Some(index) => Some(index),
            None => if all.last() == name {
                Some((all.len() - 1) as nat)
            } else {
                None
            },
        }
    }
}

/// `first_index` names the first of the places where the name stands.
pub proof fn lemma_first_index(all: Seq<Seq<char>>, name: Seq<char>)
    ensures
        match first_index(all, name) {
            Some(index) => index < all.len() && all[index as int] == name && forall|j: int|
                0 <= j < index ==> all[j] != name,
            None => forall|j: int| 0 <= j < all.len() ==> all[j] != name,
        },
    decreases all.len(),
{
    if all.len() > 0 {
        lemma_first_index(all.drop_last(), name);
        match first_index(all.drop_last(), name) {
            Some(index) => {
                assert(all.drop_last()[index as int] == all[index as int]);
                assert forall|j: int| 0 <= j < index implies all[j] != name by {
                    assert(all.drop_last()[j] == all[j]);
                }
            },
            None => {
                assert forall|j: int| 0 <= j < all.len() - 1 implies all[j] != name by {
                    assert(all.drop_last()[j] == all[j]);
                }
            },
        }
    }
}

/// Whether the device field of the settings has to take new options: it has
/// other options or another default than wanted, or is no select field.
pub open spec fn needs_option_refresh(
    config: ConfigView,
    wanted: Seq<OptionView>,
    first: Seq<char>,
) -> bool {
    match config.entry(DEVICE_KEY@) {
        Some(entry) => match entry.field {
            FieldView::Select { default, options } => options != wanted || default != first,
            _ => true,
        },
        None => true,
    }
}

/// The settings after the device field took the placeholder for "no device".
pub open spec fn without_devices(config: ConfigView, label: &str) -> ConfigView {
    config.update_select_options(DEVICE_KEY@, seq![option(NO_DEVICES, label)], Some(NO_DEVICES@)).0
}

/// The settings after the device field took the enumerated devices as its
/// options, where it did not have them.
pub open spec fn with_devices(config: ConfigView, found: Seq<Seq<char>>) -> ConfigView {
    if needs_option_refresh(config, device_options(found), found[0]) {
        config.update_select_options(DEVICE_KEY@, device_options(found), Some(found[0])).0
    } else {
        config
    }
}

/// The device that the settings ask for: the value of the device field, or
/// the first device where the field has none.
pub open spec fn desired_device(config: ConfigView, found: Seq<Seq<char>>) -> Seq<char> {
    match with_devices(config, found).select_value(DEVICE_KEY@) {
        Ok(name) => name,
        Err(_) => found[0],
    }
}

/// The active input device for an enumeration of devices: the settings
/// afterwards, the index of the device and its name. The device is found by
/// the name that the settings hold; where no device has that name, the first
/// device is taken and the settings are set to it. Without devices the index
/// is 0 and the name says that the device is unknown.
pub open spec fn resolved_device(config: ConfigView, devices: Result<Seq<Seq<char>>, AudioError>) -> (
    ConfigView,
    nat,
    Seq<char>,
) {
    match devices {
        Ok(found) => if found.len() == 0 {
            (without_devices(config, "No input devices detected"), 0, UNKNOWN_DEVICE@)
        } else {
            match first_index(found, desired_device(config, found)) {
                Some(index) => (with_devices(config, found), index, desired_device(config, found)),
                None => (with_devices(config, found).set_select(DEVICE_KEY@, found[0]).0, 0, found[0]),
            }
        },
        Err(_) => (without_devices(config, "Audio device enumeration failed"), 0, UNKNOWN_DEVICE@),
    }
}

/// The state of the application as plain values.
pub struct AppView {
    pub should_quit: bool,
    pub is_paused: bool,
    pub recording_session: RecordingSession,
    pub current_device_index: usize,
    pub current_device_name: Seq<char>,
    pub speakers: Map<i32, Seq<char>>,
    pub config: ConfigView,
    pub audio_device_restart_needed: bool,
    pub transcriber_restart_needed: bool,
}

impl AppView {
    /// The name of the device at `index` of an enumeration, or that the
    /// device is unknown.
    pub open spec fn device_name(devices: Result<Seq<Seq<char>>, AudioError>, index: usize) -> Seq<
        char,
    > {
        match devices {
            Ok(found) if index < found.len() => found[index as int],
            _ => UNKNOWN_DEVICE@,
        }
    }

    /// The accent colour of the settings at the brightness of the settings.
    pub open spec fn accent_color(self) -> Rgb {
        let base = accent_base(
            match self.config.select_value("ui.theme.accent_color"@) {
                Ok(name) => name,
                Err(_) => "blue"@,
            },
        );
        let brightness = match self.config.number_value("ui.theme.brightness"@) {
            Ok(value) => value,
            Err(_) => NUMBER_SCALE,
        };
        Rgb {
            r: scaled(base.r, brightness),
            g: scaled(base.g, brightness),
            b: scaled(base.b, brightness),
        }
    }

    /// The language code of the settings; `en-US` where the settings have
    /// none.
    pub open spec fn deepgram_language(self) -> Seq<char> {
        match self.config.select_value("transcriber.deepgram.language"@) {
            Ok(code) => code,
            Err(_) => "en-US"@,
        }
    }

    /// The API key of the settings without the white space around it, if
    /// anything is left of it.
    pub open spec fn deepgram_api_key(self) -> Option<Seq<char>> {
        match self.config.text_value("transcriber.deepgram.api_key"@) {
            Ok(key) if trimmed(key).len() > 0 => Some(trimmed(key)),
            _ => None,
        }
    }
}

/// Centralized application state.
pub struct AppState {
    should_quit: bool,
    is_paused: bool,
    recording_session: RecordingSession,
    current_device_index: usize,
    current_device_name: String,
    speaker_map: SpeakerNames,
    config: ConfigManager,
    audio_device_restart_needed: bool,
    transcriber_restart_needed: bool,
}

impl View for AppState {
    type V = AppView;

    closed spec fn view(&self) -> AppView {
        AppView {
            should_quit: self.should_quit,
            is_paused: self.is_paused,
            recording_session: self.recording_session,
            current_device_index: self.current_device_index,
            current_device_name: self.current_device_name@,
            speakers: self.speaker_map@,
            config: self.config@,
            audio_device_restart_needed: self.audio_device_restart_needed,
            transcriber_restart_needed: self.transcriber_restart_needed,
        }
    }
}

fn scale_component(component: u8, brightness: i64) -> (result: u8)
    ensures
        result == scaled(component, brightness),
{
    assert(-2351959869397967831040 <= component * brightness <= 2351959869397967831040)
        by (nonlinear_arith)
        requires
            0 <= component <= 255,
            -9223372036854775808 <= brightness <= 9223372036854775807,
    ;
    let product: i128 = component as i128 * brightness as i128;
    let magnitude: i128 = if product >= 0 {
        product
    } else {
        -product
    };
    let steps: i128 = (magnitude + 500000) / 1000000;
    let exact: i128 = if product >= 0 {
        steps
    } else {
        -steps
    };
    assert(round_to_multiple(product as int, 1000000) / 1000000 == exact) by (nonlinear_arith)
        requires
            steps == (magnitude + 500000) / 1000000,
            magnitude == if product >= 0 {
                product as int
            } else {
                -product
            },
            exact == if product >= 0 {
                steps as int
            } else {
                -steps
            },
    ;
    if exact < 0 {
        0
    } else if exact > 255 {
        255
    } else {
        exact as u8
    }
}

fn same_options(present: &Vec<SelectOption>, wanted: &Vec<SelectOption>) -> (same: bool)
    ensures
        same == (option_views(present@) == option_views(wanted@)),
{
    if present.len() != wanted.len() {
        assert(option_views(present@).len() != option_views(wanted@).len());
        return false;
    }
    let n = present.len();
    let mut i: usize = 0;
    while i < n
        invariant
            i <= n,
            n == present@.len(),
            n == wanted@.len(),
            forall|j: int| 0 <= j < i ==> present@[j]@ == wanted@[j]@,
        decreases n - i,
    {
        if !str_eq(present[i].value.as_str(), wanted[i].value.as_str()) || !str_eq(
            present[i].label.as_str(),
            wanted[i].label.as_str(),
        ) {
            assert(option_views(present@)[i as int] != option_views(wanted@)[i as int]);
            return false;
        }
        i += 1;
    }
    assert(option_views(present@) =~= option_views(wanted@));
    true
}

fn find_device(found: &Vec<String>, name: &str) -> (index: Option<usize>)
    ensures
        match index {
            Some(index) => first_index(names(found@), name@) == Some(index as nat),
            None => first_index(names(found@), name@) is None,
        },
{
    let n = found.len();
    let mut i: usize = 0;
    while i < n
        invariant
            i <= n,
            n == found@.len(),
            forall|j: int| 0 <= j < i ==> (#[trigger] names(found@)[j]) != name@,
        decreases n - i,
    {
        if str_eq(found[i].as_str(), name) {
            proof {
                lemma_first_index(names(found@), name@);
                assert(names(found@)[i as int] == name@);
            }
            return Some(i);
        }
        i += 1;
    }
    proof {
        lemma_first_index(names(found@), name@);
    }
    None
}

impl AppState {
    /// The invariant of the state.
    pub closed spec fn wf(&self) -> bool {
        self.config.wf()
    }

    /// The state at the start of the application, at time `now`, for an
    /// enumeration of input devices: recording, with the default settings and
    /// the device that they resolve to.
    pub fn new(devices: &Result<Vec<String>, AudioError>, now: u64) -> (state: Self)
        ensures
            state.wf(),
            state@ == Self::initial(enumeration(*devices), now),
    {
        let mut config = ConfigManager::with_default_schema(devices);
        let (current_device_index, current_device_name) = Self::resolve_audio_device(
            &mut config,
            devices,
        );
        Self {
            should_quit: false,
            is_paused: false,
            recording_session: RecordingSession {
                start_time: now,
                elapsed_recording_time: 0,
                last_pause_time: None,
            },
            current_device_index,
            current_device_name,
            speaker_map: SpeakerNames::new(),
            config,
            audio_device_restart_needed: false,
            transcriber_restart_needed: false,
        }
    }

    /// The state at the start of the application.
    pub open spec fn initial(devices: Result<Seq<Seq<char>>, AudioError>, now: u64) -> AppView {
        let fresh = ConfigView {
            root: crate::config::defaults::default_settings(devices),
            values: Map::empty(),
            unsaved: false,
        };
        AppView {
            should_quit: false,
            is_paused: false,
            recording_session: RecordingSession {
                start_time: now,
                elapsed_recording_time: 0,
                last_pause_time: None,
            },
            current_device_index: resolved_device(fresh, devices).1 as usize,
            current_device_name: resolved_device(fresh, devices).2,
            speakers: Map::empty(),
            config: resolved_device(fresh, devices).0,
            audio_device_restart_needed: false,
            transcriber_restart_needed: false,
        }
    }

    /// Asks the application to quit.
    pub fn request_quit(&mut self)
        ensures
            final(self)@ == (AppView { should_quit: true, ..old(self)@ }),
            final(self).wf() == old(self).wf(),
    {
        self.should_quit = true;
    }

    /// Whether the application was asked to quit.
    pub fn should_quit(&self) -> (quit: bool)
        ensures
            quit == self@.should_quit,
    {
        self.should_quit
    }

    /// Whether recording is paused.
    pub fn is_paused(&self) -> (paused: bool)
        ensures
            paused == self@.is_paused,
    {
        self.is_paused
    }

    /// Pauses recording, or resumes it, at time `now`.
    pub fn toggle_recording(&mut self, now: u64)
        ensures
            final(self)@ == (AppView {
                is_paused: !old(self)@.is_paused,
                recording_session: if old(self)@.is_paused {
                    old(self)@.recording_session.resumed(now)
                } else {
                    old(self)@.recording_session.paused(now)
                },
                ..old(self)@
            }),
            final(self).wf() == old(self).wf(),
    {
        if self.is_paused {
            if let Some(pause_time) = self.recording_session.last_pause_time {
                let recorded = if pause_time >= self.recording_session.start_time {
                    pause_time - self.recording_session.start_time
                } else {
                    0
                };
                self.recording_session.elapsed_recording_time =
                    self.recording_session.elapsed_recording_time.saturating_add(recorded);
            }
            self.recording_session.start_time = now;
            self.recording_session.last_pause_time = None;
            self.is_paused = false;
        } else {
            self.recording_session.last_pause_time = Some(now);
            self.is_paused = true;
        }
    }

    /// Whether audio is being recorded.
    pub fn recording_state(&self) -> (state: RecordingState)
        ensures
            state == if self@.is_paused {
                RecordingState::Paused
            } else {
                RecordingState::Recording
            },
    {
        if self.is_paused {
            RecordingState::Paused
        } else {
            RecordingState::Recording
        }
    }

    /// For how long audio was recorded up to `now`, in milliseconds.
    pub fn get_recording_time(&self, now: u64) -> (time: u64)
        ensures
            time == self@.recording_session.recorded(self@.is_paused, now),
    {
        if self.is_paused {
            self.recording_session.elapsed_recording_time
        } else {
            let running = if now >= self.recording_session.start_time {
                now - self.recording_session.start_time
            } else {
                0
            };
            self.recording_session.elapsed_recording_time.saturating_add(running)
        }
    }

    /// The recording time up to `now` as `HH:MM:SS`.
    pub fn format_recording_time(&self, now: u64) -> (text: String)
        ensures
            text@ == clock_text(self@.recording_session.recorded(self@.is_paused, now)),
    {
        let total_secs = self.get_recording_time(now) / 1000;
        let hours = total_secs / 3600;
        let minutes = (total_secs % 3600) / 60;
        let seconds = total_secs % 60;
        let mut text = String::new();
        push_two_digits(&mut text, hours);
        push_char(&mut text, ':');
        push_two_digits(&mut text, minutes);
        push_char(&mut text, ':');
        push_two_digits(&mut text, seconds);
        assert(text@ =~= clock_text(self@.recording_session.recorded(self@.is_paused, now)));
        text
    }

    /// The index of the active input device.
    pub fn current_device_index(&self) -> (index: usize)
        ensures
            index == self@.current_device_index,
    {
        self.current_device_index
    }

    /// The name of the active input device.
    pub fn current_device_name(&self) -> (name: &str)
        ensures
            name@ == self@.current_device_name,
    {
        self.current_device_name.as_str()
    }

    /// Makes the device at `index` of the enumeration the active one, sets
    /// the settings to its name, and asks for a restart of capture. The
    /// result is that of setting the device field.
    pub fn set_device_index(&mut self, index: usize, devices: &Result<Vec<String>, AudioError>) -> (set:
        Result<bool, ConfigError>)
        requires
            old(self).wf(),
        ensures
            final(self).wf(),
            final(self)@ == (AppView {
                current_device_index: index,
                current_device_name: AppView::device_name(enumeration(*devices), index),
                config: old(self)@.config.set_select(
                    DEVICE_KEY@,
                    AppView::device_name(enumeration(*devices), index),
                ).0,
                audio_device_restart_needed: true,
                ..old(self)@
            }),
            crate::config::schema::outcome_view(set) == old(self)@.config.set_select(
                DEVICE_KEY@,
                AppView::device_name(enumeration(*devices), index),
            ).1,
    {
        self.current_device_index = index;
        self.current_device_name = match devices {
            Ok(found) => match get_device_name(found, index) {
                Ok(name) => name,
                Err(_) => String::from_str(UNKNOWN_DEVICE),
            },
            Err(_) => String::from_str(UNKNOWN_DEVICE),
        };
        self.audio_device_restart_needed = true;
        self.config.set_select(DEVICE_KEY, self.current_device_name.as_str())
    }

    /// The display name of a speaker.
    pub fn get_speaker_name(&self, speaker_id: i32) -> (name: String)
        ensures
            name@ == speaker_label(self@.speakers, speaker_id),
    {
        self.speaker_map.get_speaker_name(speaker_id)
    }

    /// Gives a speaker a custom name.
    pub fn set_speaker_name(&mut self, speaker_id: i32, name: String)
        ensures
            final(self)@ == (AppView {
                speakers: old(self)@.speakers.insert(speaker_id, name@),
                ..old(self)@
            }),
            final(self).wf() == old(self).wf(),
    {
        self.speaker_map.set_speaker_name(speaker_id, name);
    }

    /// Whether a speaker has a custom name.
    pub fn has_custom_name(&self, speaker_id: i32) -> (custom: bool)
        ensures
            custom == self@.speakers.contains_key(speaker_id),
    {
        self.speaker_map.has_custom_name(speaker_id)
    }

    /// The settings.
    pub fn config(&self) -> (config: &ConfigManager)
        ensures
            config@ == self@.config,
            config.wf() == self.wf(),
    {
        &self.config
    }

    /// The settings, to change them.
    pub fn config_mut(&mut self) -> (config: &mut ConfigManager)
        ensures
            config@ == old(self)@.config,
            config.wf() == old(self).wf(),
            final(self)@ == (AppView { config: final(config)@, ..old(self)@ }),
            final(self).wf() == final(config).wf(),
    {
        &mut self.config
    }

    /// The speaker names, to change them.
    pub fn speaker_names_mut(&mut self) -> (names: &mut SpeakerNames)
        ensures
            names@ == old(self)@.speakers,
            final(self)@ == (AppView { speakers: final(names)@, ..old(self)@ }),
            final(self).wf() == old(self).wf(),
    {
        &mut self.speaker_map
    }

    /// Whether new transcripts are kept in view.
    pub fn auto_scroll_enabled(&self) -> (enabled: bool)
        requires
            self.wf(),
        ensures
            enabled == match self@.config.bool_value("ui.behavior.auto_scroll"@) {
                Ok(flag) => flag,
                Err(_) => true,
            },
    {
        match self.config.bool_value("ui.behavior.auto_scroll") {
            Ok(flag) => flag,
            Err(_) => true,
        }
    }

    /// Whether the compact layout is chosen.
    pub fn compact_mode(&self) -> (compact: bool)
        requires
            self.wf(),
        ensures
            compact == match self@.config.bool_value("ui.behavior.compact_mode"@) {
                Ok(flag) => flag,
                Err(_) => false,
            },
    {
        match self.config.bool_value("ui.behavior.compact_mode") {
            Ok(flag) => flag,
            Err(_) => false,
        }
    }

    /// The accent colour, at the brightness of the settings.
    pub fn accent_color(&self) -> (color: Rgb)
        requires
            self.wf(),
        ensures
            color == self@.accent_color(),
    {
        let name = match self.config.select_value("ui.theme.accent_color") {
            Ok(name) => name,
            Err(_) => String::from_str("blue"),
        };
        let brightness = match self.config.number_value("ui.theme.brightness") {
            Ok(value) => value,
            Err(_) => NUMBER_SCALE,
        };
        let base = if str_eq(name.as_str(), "cyan") {
            Rgb { r: 0, g: 188, b: 242 }
        } else if str_eq(name.as_str(), "magenta") {
            Rgb { r: 216, g: 46, b: 154 }
        } else if str_eq(name.as_str(), "amber") {
            Rgb { r: 255, g: 179, b: 71 }
        } else if str_eq(name.as_str(), "green") {
            Rgb { r: 0, g: 200, b: 117 }
        } else {
            Rgb { r: 59, g: 130, b: 246 }
        };
        Rgb {
            r: scale_component(base.r, brightness),
            g: scale_component(base.g, brightness),
            b: scale_component(base.b, brightness),
        }
    }

    /// The API key of the settings, if one is set.
    pub fn deepgram_api_key(&self) -> (key: Option<String>)
        requires
            self.wf(),
        ensures
            crate::config::schema::optional_text(key) == self@.deepgram_api_key(),
    {
        match self.config.text_value("transcriber.deepgram.api_key") {
            Ok(value) => {
                let key = trim(value.as_str());
                if key.as_str().is_empty() {
                    None
                } else {
                    Some(key)
                }
            },
            Err(_) => None,
        }
    }

    /// The language code of the settings; `en-US` where the settings have
    /// none.
    pub fn deepgram_language(&self) -> (code: String)
        requires
            self.wf(),
        ensures
            code@ == self@.deepgram_language(),
    {
        match self.config.select_value("transcriber.deepgram.language") {
            Ok(code) => code,
            Err(_) => String::from_str("en-US"),
        }
    }

    /// The model name of the settings; `nova-3` where the settings have
    /// none.
    pub fn deepgram_model(&self) -> (name: String)
        requires
            self.wf(),
        ensures
            name@ == match self@.config.select_value("transcriber.deepgram.model"@) {
                Ok(name) => name,
                Err(_) => "nova-3"@,
            },
    {
        match self.config.select_value("transcriber.deepgram.model") {
            Ok(name) => name,
            Err(_) => String::from_str("nova-3"),
        }
    }

    /// Makes the device that the settings resolve to the active one. A
    /// restart of capture is asked for if that is another device than before.
    pub fn sync_audio_device_from_config(&mut self, devices: &Result<Vec<String>, AudioError>)
        requires
            old(self).wf(),
        ensures
            final(self).wf(),
            final(self)@ == (AppView {
                current_device_index: resolved_device(old(self)@.config, enumeration(*devices)).1 as usize,
                current_device_name: resolved_device(old(self)@.config, enumeration(*devices)).2,
                config: resolved_device(old(self)@.config, enumeration(*devices)).0,
                audio_device_restart_needed: old(self)@.audio_device_restart_needed || resolved_device(
                    old(self)@.config,
                    enumeration(*devices),
                ).1 != old(self)@.current_device_index || resolved_device(
                    old(self)@.config,
                    enumeration(*devices),
                ).2 != old(self)@.current_device_name,
                ..old(self)@
            }),
    {
        let (index, name) = Self::resolve_audio_device(&mut self.config, devices);
        if index != self.current_device_index || !str_eq(
            name.as_str(),
            self.current_device_name.as_str(),
        ) {
            self.audio_device_restart_needed = true;
        }
        self.current_device_index = index;
        self.current_device_name = name;
    }

    /// Asks for a restart of the transcription session.
    pub fn request_transcriber_restart(&mut self)
        ensures
            final(self)@ == (AppView { transcriber_restart_needed: true, ..old(self)@ }),
            final(self).wf() == old(self).wf(),
    {
        self.transcriber_restart_needed = true;
    }

    /// Whether a restart of capture was asked for since this was last asked.
    pub fn take_audio_device_restart_needed(&mut self) -> (needed: bool)
        ensures
            needed == old(self)@.audio_device_restart_needed,
            final(self)@ == (AppView { audio_device_restart_needed: false, ..old(self)@ }),
            final(self).wf() == old(self).wf(),
    {
        let needed = self.audio_device_restart_needed;
        self.audio_device_restart_needed = false;
        needed
    }

    /// Whether a restart of the transcription session was asked for since
    /// this was last asked.
    pub fn take_transcriber_restart_needed(&mut self) -> (needed: bool)
        ensures
            needed == old(self)@.transcriber_restart_needed,
            final(self)@ == (AppView { transcriber_restart_needed: false, ..old(self)@ }),
            final(self).wf() == old(self).wf(),
    {
        let needed = self.transcriber_restart_needed;
        self.transcriber_restart_needed = false;
        needed
    }

    /// Resolves the active input device from the settings and an enumeration
    /// of devices, and brings the device field of the settings up to date.
    pub fn resolve_audio_device(config: &mut ConfigManager, devices: &Result<Vec<String>, AudioError>) -> (
        device: (usize, String))
        requires
            old(config).wf(),
        ensures
            final(config).wf(),
            final(config)@ == resolved_device(old(config)@, enumeration(*devices)).0,
            device.0 == resolved_device(old(config)@, enumeration(*devices)).1,
            device.1@ == resolved_device(old(config)@, enumeration(*devices)).2,
    {
        match devices {
            Ok(found) => {
                if found.len() == 0 {
                    let _ = config.update_select_options(
                        DEVICE_KEY,
                        placeholder_option_list("No input devices detected"),
                        Some(String::from_str(NO_DEVICES)),
                    );
                    return (0, String::from_str(UNKNOWN_DEVICE));
                }
                let new_options = device_option_list(found);
                let needs_option_refresh = match config.entry(DEVICE_KEY) {
                    Ok(entry) => match &entry.field {
                        ConfigField::Select { default, options } => !same_options(
                            options,
                            &new_options,
                        ) || !str_eq(default.as_str(), found[0].as_str()),
                        _ => true,
                    },
                    Err(_) => true,
                };
                if needs_option_refresh {
                    let _ = config.update_select_options(
                        DEVICE_KEY,
                        new_options,
                        Some(found[0].clone()),
                    );
                }
                let desired = match config.select_value(DEVICE_KEY) {
                    Ok(name) => name,
                    Err(_) => found[0].clone(),
                };
                match find_device(found, desired.as_str()) {
                    Some(index) => (index, desired),
                    None => {
                        let fallback = found[0].clone();
                        let _ = config.set_select(DEVICE_KEY, fallback.as_str());
                        (0, fallback)
                    },
                }
            },
            Err(_) => {
                let _ = config.update_select_options(
                    DEVICE_KEY,
                    placeholder_option_list("Audio device enumeration failed"),
                    Some(String::from_str(NO_DEVICES)),
                );
                (0, String::from_str(UNKNOWN_DEVICE))
            },
        }
    }
}

} // verus!
