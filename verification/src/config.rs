//! Schema-driven settings: what can be configured, the values that were set,
//! and the rules that a value must meet.
//!
//! Reading and writing the settings file belongs to the caller. Every setter
//! says whether it changed a value; the caller writes the file when, and only
//! when, it did.

pub mod defaults;
pub mod laws;
pub mod manager;
pub mod model;
pub mod schema;
pub mod store;

pub use defaults::{audio_device_select_options, default_schema};
pub use manager::{update_select_options_in_group, validate_value, ConfigManager};
pub use schema::{
    clamp_number, round_to_precision, ConfigEntry, ConfigError, ConfigField, ConfigGroup,
    ConfigNode, NumberField, SelectOption, TextField, NUMBER_SCALE,
};
pub use store::{StoredValue, ValueStore};
