//! The state behind the parts of the screen.

pub mod device_dialog;
pub mod footer;
pub mod settings_dialog;
pub mod settings_display;

pub use crate::transcript::{TranscriptionMessage, TranscriptionWidgetState};
pub use device_dialog::DeviceDialogState;
pub use settings_dialog::{DialogEvent, SettingsDialogState};
